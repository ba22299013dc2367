//! What each instruction does, as a function from machine state to machine
//! state.
//!
//! Conventions where the architecture leaves a choice:
//! - The program counter and the index register are 16-bit values and wrap
//!   at 2^16. Memory is reached at the address modulo 4096, so every access
//!   is in range.
//! - `8xy4`, `8xy5` and `8xy7` write `Vx` and then the flag, so with `x = F`
//!   the flag is what `VF` holds afterwards. `8xy6` and `8xyE` write the flag
//!   and then `Vx`.
//! - `8xy6` shifts `Vy` into `Vx` and leaves `Vy` as it was; `8xyE` shifts `Vx`.
//! - `Fx0A` takes the lowest-numbered key that is held.

use vstd::prelude::*;
use crate::bus::BusState;
use crate::cpu::PROGRAM_START;
use crate::display::{blank_screen, draw_sprite_collides, draw_sprite_screen};
use crate::instruction::{decode_spec, Instruction};
use crate::keyboard::{first_key_down, key_down};
use crate::ram::GLYPH_SIZE;

verus! {

/// A condition that stops the interpreter for good.
#[derive(Clone, Copy, Debug, PartialEq, Eq, Structural)]
pub enum Fault {
    /// The word fetched at `pc` encodes no instruction.
    UnrecognizedOpcode { pc: u16, word: u16 },
    /// The instruction at `pc` returns from a subroutine, and none was called.
    StackUnderflow { pc: u16 },
}

/// What the processor holds, as mathematical values.
#[verifier::ext_equal]
pub struct CpuState {
    /// The sixteen registers `V0..VF`.
    pub regs: Seq<u8>,
    /// The program counter.
    pub pc: u16,
    /// The index register `I`.
    pub i: u16,
    /// The return addresses, the most recent call last.
    pub stack: Seq<u16>,
}

/// `v` reduced to 8 bits.
pub open spec fn wrap8(v: int) -> u8 {
    (v % 0x100) as u8
}

/// `v` reduced to 16 bits.
pub open spec fn wrap16(v: int) -> u16 {
    (v % 0x1_0000) as u16
}

/// The memory address that `base + offset` reaches.
pub open spec fn address(base: u16, offset: int) -> int {
    (base as int + offset) % 4096
}

/// The flag value for a condition: 1 where it holds, else 0.
pub open spec fn flag(set: bool) -> u8 {
    if set {
        1
    } else {
        0
    }
}

impl CpuState {
    /// There are sixteen registers.
    pub open spec fn wf(self) -> bool {
        self.regs.len() == 16
    }

    /// The value of register `x`.
    pub open spec fn reg(self, x: u8) -> u8 {
        self.regs[x as int]
    }

    /// This state with register `x` set to `value`.
    pub open spec fn with_reg(self, x: u8, value: u8) -> CpuState {
        CpuState { regs: self.regs.update(x as int, value), ..self }
    }

    /// This state with `VF` set to 1 where `set` holds, else to 0.
    pub open spec fn with_flag(self, set: bool) -> CpuState {
        self.with_reg(0xF, flag(set))
    }

    /// This state with the index register set to `value`.
    pub open spec fn with_index(self, value: u16) -> CpuState {
        CpuState { i: value, ..self }
    }

    /// This state with the program counter set to `target`.
    pub open spec fn jump(self, target: u16) -> CpuState {
        CpuState { pc: target, ..self }
    }

    /// This state with the program counter moved on to the next instruction.
    pub open spec fn next(self) -> CpuState {
        self.jump(wrap16(self.pc + 2))
    }

    /// This state with the program counter moved past the next instruction
    /// where `skip` holds, else on to it.
    pub open spec fn skip_if(self, skip: bool) -> CpuState {
        self.jump(wrap16(self.pc + if skip { 4int } else { 2int }))
    }
}

/// The processor at power-on: registers and `I` zero, the program counter at
/// the start of program space, no call pending.
pub open spec fn initial_cpu() -> CpuState {
    CpuState {
        regs: Seq::new(16, |r: int| 0u8),
        pc: PROGRAM_START,
        i: 0,
        stack: Seq::empty(),
    }
}

/// The instruction word at `pc`: the byte there is its high half, the byte
/// after it its low half.
pub open spec fn fetch_spec(mem: Seq<u8>, pc: u16) -> u16 {
    (mem[address(pc, 0)] as int * 0x100 + mem[address(pc, 1)] as int) as u16
}

/// The `count` bytes of memory from `base` on.
pub open spec fn bytes_at(mem: Seq<u8>, base: u16, count: nat) -> Seq<u8> {
    Seq::new(count, |r: int| mem[address(base, r)])
}

/// Memory after `V0..=Vx` were stored from `base` on.
pub open spec fn store_regs(mem: Seq<u8>, regs: Seq<u8>, base: u16, x: u8) -> Seq<u8> {
    Seq::new(
        mem.len(),
        |a: int|
            if (a - base as int) % 4096 <= x as int {
                regs[(a - base as int) % 4096]
            } else {
                mem[a]
            },
    )
}

/// The registers after `V0..=Vx` were loaded from `base` on.
pub open spec fn load_regs(regs: Seq<u8>, mem: Seq<u8>, base: u16, x: u8) -> Seq<u8> {
    Seq::new(regs.len(), |r: int| if r <= x as int { mem[address(base, r)] } else { regs[r] })
}

/// Memory after the hundreds, tens and ones of `value` were stored at
/// `base`, `base + 1` and `base + 2`.
pub open spec fn store_bcd(mem: Seq<u8>, base: u16, value: u8) -> Seq<u8> {
    mem.update(address(base, 0), value / 100).update(address(base, 1), (value / 10) % 10).update(
        address(base, 2),
        value % 10,
    )
}

/// The machine after `instr` ran on it with `random` as the random byte, or
/// the fault that it raised.
pub open spec fn exec_spec(cpu: CpuState, bus: BusState, instr: Instruction, random: u8) -> Result<
    (CpuState, BusState),
    Fault,
> {
    match instr {
        Instruction::ClearScreen => Ok((cpu.next(), BusState { screen: blank_screen(), ..bus })),
        Instruction::Return => if cpu.stack.len() == 0 {
            Err(Fault::StackUnderflow { pc: cpu.pc })
        } else {
            Ok((CpuState { pc: cpu.stack.last(), stack: cpu.stack.drop_last(), ..cpu }, bus))
        },
        Instruction::Jump { nnn } => Ok((cpu.jump(nnn), bus)),
        Instruction::Call { nnn } => Ok(
            (CpuState { pc: nnn, stack: cpu.stack.push(wrap16(cpu.pc + 2)), ..cpu }, bus),
        ),
        Instruction::SkipEqImm { x, nn } => Ok((cpu.skip_if(cpu.reg(x) == nn), bus)),
        Instruction::SkipNeImm { x, nn } => Ok((cpu.skip_if(cpu.reg(x) != nn), bus)),
        Instruction::SkipEqReg { x, y } => Ok((cpu.skip_if(cpu.reg(x) == cpu.reg(y)), bus)),
        Instruction::LoadImm { x, nn } => Ok((cpu.with_reg(x, nn).next(), bus)),
        Instruction::AddImm { x, nn } => Ok((cpu.with_reg(x, wrap8(cpu.reg(x) + nn)).next(), bus)),
        Instruction::Move { x, y } => Ok((cpu.with_reg(x, cpu.reg(y)).next(), bus)),
        Instruction::Or { x, y } => Ok((cpu.with_reg(x, cpu.reg(x) | cpu.reg(y)).next(), bus)),
        Instruction::And { x, y } => Ok((cpu.with_reg(x, cpu.reg(x) & cpu.reg(y)).next(), bus)),
        Instruction::Xor { x, y } => Ok((cpu.with_reg(x, cpu.reg(x) ^ cpu.reg(y)).next(), bus)),
        Instruction::Add { x, y } => {
            let sum = cpu.reg(x) + cpu.reg(y);
            Ok((cpu.with_reg(x, wrap8(sum)).with_flag(sum > 255).next(), bus))
        },
        Instruction::Sub { x, y } => {
            let a = cpu.reg(x);
            let b = cpu.reg(y);
            Ok((cpu.with_reg(x, wrap8(a - b)).with_flag(a >= b).next(), bus))
        },
        Instruction::ShiftRight { x, y } => {
            let v = cpu.reg(y);
            Ok((cpu.with_flag(v % 2 == 1).with_reg(x, v / 2).next(), bus))
        },
        Instruction::SubFrom { x, y } => {
            let a = cpu.reg(x);
            let b = cpu.reg(y);
            Ok((cpu.with_reg(x, wrap8(b - a)).with_flag(b >= a).next(), bus))
        },
        Instruction::ShiftLeft { x, y } => {
            let v = cpu.reg(x);
            Ok((cpu.with_flag(v >= 128).with_reg(x, wrap8(v * 2)).next(), bus))
        },
        Instruction::SkipNeReg { x, y } => Ok((cpu.skip_if(cpu.reg(x) != cpu.reg(y)), bus)),
        Instruction::LoadIndex { nnn } => Ok((cpu.with_index(nnn).next(), bus)),
        Instruction::JumpOffset { nnn } => Ok((cpu.jump(wrap16(cpu.reg(0) + nnn)), bus)),
        Instruction::Random { x, nn } => Ok((cpu.with_reg(x, random & nn).next(), bus)),
        Instruction::Draw { x, y, n } => {
            let sprite = bytes_at(bus.mem, cpu.i, n as nat);
            let vx = cpu.reg(x);
            let vy = cpu.reg(y);
            Ok(
                (
                    cpu.with_flag(draw_sprite_collides(bus.screen, sprite, vx, vy)).next(),
                    BusState {
                        screen: draw_sprite_screen(bus.screen, sprite, vx, vy),
                        frame_ready: true,
                        ..bus
                    },
                ),
            )
        },
        Instruction::SkipKeyDown { x } => Ok((cpu.skip_if(key_down(bus.keys, cpu.reg(x))), bus)),
        Instruction::SkipKeyUp { x } => Ok((cpu.skip_if(!key_down(bus.keys, cpu.reg(x))), bus)),
        Instruction::ReadDelay { x } => Ok((cpu.with_reg(x, bus.delay).next(), bus)),
        Instruction::WaitKey { x } => match first_key_down(bus.keys) {
            Some(key) => Ok((cpu.with_reg(x, key).next(), bus)),
            None => Ok((cpu, bus)),
        },
        Instruction::SetDelay { x } => Ok((cpu.next(), BusState { delay: cpu.reg(x), ..bus })),
        Instruction::SetSound { x } => Ok((cpu.next(), BusState { sound: cpu.reg(x), ..bus })),
        Instruction::AddIndex { x } => Ok((cpu.with_index(wrap16(cpu.i + cpu.reg(x))).next(), bus)),
        Instruction::LoadGlyph { x } => Ok(
            (cpu.with_index((cpu.reg(x) * GLYPH_SIZE) as u16).next(), bus),
        ),
        Instruction::StoreBcd { x } => Ok(
            (cpu.next(), BusState { mem: store_bcd(bus.mem, cpu.i, cpu.reg(x)), ..bus }),
        ),
        Instruction::StoreRegs { x } => Ok(
            (
                cpu.with_index(wrap16(cpu.i + x + 1)).next(),
                BusState { mem: store_regs(bus.mem, cpu.regs, cpu.i, x), ..bus },
            ),
        ),
        Instruction::LoadRegs { x } => Ok(
            (
                CpuState { regs: load_regs(cpu.regs, bus.mem, cpu.i, x), ..cpu }.with_index(
                    wrap16(cpu.i + x + 1),
                ).next(),
                bus,
            ),
        ),
    }
}

/// The machine after one fetch-decode-execute step with `random` as the
/// random byte, or the fault that stopped it.
pub open spec fn step_spec(cpu: CpuState, bus: BusState, random: u8) -> Result<
    (CpuState, BusState),
    Fault,
> {
    let word = fetch_spec(bus.mem, cpu.pc);
    match decode_spec(word) {
        Some(instr) => exec_spec(cpu, bus, instr, random),
        None => Err(Fault::UnrecognizedOpcode { pc: cpu.pc, word }),
    }
}

} // verus!
