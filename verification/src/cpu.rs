//! The processor: register file, program counter, index register and call
//! stack, and the fetch-decode-execute step.

use vstd::prelude::*;
use crate::bus::{Bus, BusState};
use crate::display::{draw_sprite_collides, draw_sprite_screen, sprite_row};
use crate::instruction::{decode, Instruction};
use crate::semantics::{
    address, bytes_at, exec_spec, fetch_spec, initial_cpu, load_regs, step_spec, store_bcd,
    store_regs, wrap16, wrap8, CpuState, Fault,
};

verus! {

/// Address at which a program image starts, and the program counter with it.
pub const PROGRAM_START: u16 = 0x200;

/// The processor.
#[derive(Debug)]
pub struct Cpu {
    /// The registers `V0..VF`.
    pub vx: [u8; 16],
    /// The program counter.
    pub pc: u16,
    /// The index register `I`.
    pub i: u16,
    /// The return addresses of the calls that have not returned, the most
    /// recent last.
    pub ret_stack: Vec<u16>,
}

impl View for Cpu {
    type V = CpuState;

    open spec fn view(&self) -> CpuState {
        CpuState { regs: self.vx@, pc: self.pc, i: self.i, stack: self.ret_stack@ }
    }
}

/// The address that `base + offset` reaches in memory.
fn effective_address(base: u16, offset: u8) -> (target: u16)
    ensures
        target == address(base, offset as int),
        target < 4096,
{
    (base % 4096 + offset as u16) % 4096
}

/// `base + offset` reduced to 16 bits.
fn offset16(base: u16, offset: u16) -> (r: u16)
    ensures
        r == wrap16(base + offset),
{
    base.wrapping_add(offset)
}

/// The low eight bits of `a + b`, and whether the sum needed a ninth.
fn add_with_carry(a: u8, b: u8) -> (r: (u8, bool))
    ensures
        r.0 == wrap8(a + b),
        r.1 == (a + b > 255),
{
    (a.wrapping_add(b), a as u16 + b as u16 > 0xFF)
}

/// `a - b` reduced to eight bits, and whether it needed no borrow.
fn sub_with_borrow(a: u8, b: u8) -> (r: (u8, bool))
    ensures
        r.0 == wrap8(a - b),
        r.1 == (a >= b),
{
    (a.wrapping_sub(b), a >= b)
}

/// `v` shifted right by one, and whether its lowest bit was set.
fn shift_right(v: u8) -> (r: (u8, bool))
    ensures
        r.0 == v / 2,
        r.1 == (v % 2 == 1),
{
    assert(v & 1 == v % 2) by (bit_vector);
    assert(v >> 1 == v / 2) by (bit_vector);
    (v >> 1, v & 1 == 1)
}

/// `v` shifted left by one, and whether its highest bit was set.
fn shift_left(v: u8) -> (r: (u8, bool))
    ensures
        r.0 == wrap8(v * 2),
        r.1 == (v >= 128),
{
    assert((v & 0x80 == 0x80) == (v >= 128)) by (bit_vector);
    assert(v << 1 == (v * 2) % 0x100) by (bit_vector);
    (v << 1, v & 0x80 == 0x80)
}

/// The screen row on which row `row` of a sprite drawn at height `y` lands.
fn sprite_line(y: u8, row: u8) -> (line: u8)
    ensures
        line == sprite_row(y, row as int),
{
    ((y % 32) + (row % 32)) % 32
}

impl Cpu {
    /// A processor at power-on.
    pub fn new() -> (cpu: Cpu)
        ensures
            cpu@ == initial_cpu(),
    {
        let cpu = Cpu { vx: [0; 16], pc: PROGRAM_START, i: 0, ret_stack: Vec::<u16>::new() };
        assert(cpu@.regs =~= initial_cpu().regs);
        cpu
    }

    /// Every processor has sixteen registers.
    pub proof fn lemma_wf(&self)
        ensures
            self@.wf(),
    {
    }

    /// Sets register `index` to `value`.
    pub fn write_reg_vx(&mut self, index: u8, value: u8)
        requires
            index < 16,
        ensures
            final(self)@ == old(self)@.with_reg(index, value),
    {
        self.vx[index as usize] = value;
    }

    /// The value of register `index`.
    pub fn read_reg_vx(&mut self, index: u8) -> (value: u8)
        requires
            index < 16,
        ensures
            value == old(self)@.reg(index),
            *final(self) == *old(self),
    {
        self.vx[index as usize]
    }

    /// Moves the program counter on to the next instruction.
    fn advance(&mut self)
        ensures
            final(self)@ == old(self)@.next(),
    {
        self.pc = offset16(self.pc, 2);
    }

    /// Moves the program counter past the next instruction where `skip`
    /// holds, else on to it.
    fn skip_if(&mut self, skip: bool)
        ensures
            final(self)@ == old(self)@.skip_if(skip),
    {
        self.pc = offset16(self.pc, if skip { 4 } else { 2 });
    }

    /// Sets `VF` to 1 where `set` holds, else to 0.
    fn write_flag(&mut self, set: bool)
        ensures
            final(self)@ == old(self)@.with_flag(set),
    {
        self.vx[0xF] = if set { 1 } else { 0 };
    }

    /// Sets register `x`, then moves on.
    fn set_and_advance(&mut self, x: u8, value: u8)
        requires
            x < 16,
        ensures
            final(self)@ == old(self)@.with_reg(x, value).next(),
    {
        self.write_reg_vx(x, value);
        self.advance();
    }

    /// Sets register `x`, then the flag, then moves on.
    fn set_then_flag_and_advance(&mut self, x: u8, value: u8, set: bool)
        requires
            x < 16,
        ensures
            final(self)@ == old(self)@.with_reg(x, value).with_flag(set).next(),
    {
        self.write_reg_vx(x, value);
        self.write_flag(set);
        self.advance();
    }

    /// Sets the flag, then register `x`, then moves on.
    fn flag_then_set_and_advance(&mut self, x: u8, value: u8, set: bool)
        requires
            x < 16,
        ensures
            final(self)@ == old(self)@.with_flag(set).with_reg(x, value).next(),
    {
        self.write_flag(set);
        self.write_reg_vx(x, value);
        self.advance();
    }

    /// Sets the index register, then moves on.
    fn index_and_advance(&mut self, value: u16)
        ensures
            final(self)@ == old(self)@.with_index(value).next(),
    {
        self.i = value;
        self.advance();
    }

    /// Draws the sprite of `height` rows that memory holds at `I` onto the
    /// screen at `(x, y)`, sets `VF` to 1 where a set pixel was turned off at
    /// any row and to 0 otherwise, and presents the screen.
    pub fn debug_draw_sprite(&mut self, bus: &mut Bus, x: u8, y: u8, height: u8)
        ensures
            final(self)@ == old(self)@.with_flag(
                draw_sprite_collides(
                    old(bus)@.screen,
                    bytes_at(old(bus)@.mem, old(self)@.i, height as nat),
                    x,
                    y,
                ),
            ),
            final(bus)@ == (BusState {
                screen: draw_sprite_screen(
                    old(bus)@.screen,
                    bytes_at(old(bus)@.mem, old(self)@.i, height as nat),
                    x,
                    y,
                ),
                frame_ready: true,
                ..old(bus)@
            }),
    {
        let mut should_set_vf = false;
        let mut row: u8 = 0;
        while row < height
            invariant
                row <= height,
                *self == *old(self),
                bus@ == (BusState {
                    screen: draw_sprite_screen(
                        old(bus)@.screen,
                        bytes_at(old(bus)@.mem, self.i, row as nat),
                        x,
                        y,
                    ),
                    ..old(bus)@
                }),
                should_set_vf == draw_sprite_collides(
                    old(bus)@.screen,
                    bytes_at(old(bus)@.mem, self.i, row as nat),
                    x,
                    y,
                ),
            decreases height - row,
        {
            let b = bus.ram_read_byte(effective_address(self.i, row));
            let line = sprite_line(y, row);
            proof {
                let done = bytes_at(old(bus)@.mem, self.i, row as nat);
                let more = bytes_at(old(bus)@.mem, self.i, (row + 1) as nat);
                assert(more.drop_last() =~= done);
                assert(more.last() == b);
            }
            if bus.draw_byte(b, x, line) {
                should_set_vf = true;
            }
            row += 1;
        }
        self.write_flag(should_set_vf);
        bus.present_screen();
    }

    /// Stores the decimal digits of `value` at `I`, `I + 1` and `I + 2`.
    fn store_bcd(&self, bus: &mut Bus, value: u8)
        ensures
            final(bus)@ == (BusState { mem: store_bcd(old(bus)@.mem, self.i, value), ..old(bus)@ }),
    {
        bus.ram_write_byte(effective_address(self.i, 0), value / 100);
        bus.ram_write_byte(effective_address(self.i, 1), (value / 10) % 10);
        bus.ram_write_byte(effective_address(self.i, 2), value % 10);
    }

    /// Stores `V0..=Vx` in memory from `I` on.
    fn store_regs(&self, bus: &mut Bus, x: u8)
        requires
            x < 16,
        ensures
            final(bus)@ == (BusState {
                mem: store_regs(old(bus)@.mem, self@.regs, self.i, x),
                ..old(bus)@
            }),
    {
        let mut r: u8 = 0;
        while r <= x
            invariant
                r <= x + 1,
                x < 16,
                bus@.mem.len() == 4096,
                bus@ == (BusState { mem: bus@.mem, ..old(bus)@ }),
                forall|a: int|
                    0 <= a < 4096 ==> #[trigger] bus@.mem[a] == if (a - self.i as int) % 4096
                        < r as int {
                        self.vx@[(a - self.i as int) % 4096]
                    } else {
                        old(bus)@.mem[a]
                    },
            decreases x + 1 - r,
        {
            let target = effective_address(self.i, r);
            assert((target as int - self.i as int) % 4096 == r as int);
            bus.ram_write_byte(target, self.vx[r as usize]);
            assert forall|a: int| 0 <= a < 4096 implies #[trigger] bus@.mem[a] == if (a
                - self.i as int) % 4096 < r as int + 1 {
                self.vx@[(a - self.i as int) % 4096]
            } else {
                old(bus)@.mem[a]
            } by {
                if (a - self.i as int) % 4096 == r as int {
                    assert(a == target as int);
                }
            }
            r += 1;
        }
        assert(bus@.mem =~= store_regs(old(bus)@.mem, self@.regs, self.i, x));
    }

    /// Loads `V0..=Vx` from memory at `I` on.
    fn load_regs(&mut self, bus: &mut Bus, x: u8)
        requires
            x < 16,
        ensures
            final(self)@ == (CpuState {
                regs: load_regs(old(self)@.regs, old(bus)@.mem, old(self)@.i, x),
                ..old(self)@
            }),
            *final(bus) == *old(bus),
    {
        let mut r: u8 = 0;
        while r <= x
            invariant
                r <= x + 1,
                x < 16,
                *bus == *old(bus),
                self@ == (CpuState { regs: self@.regs, ..old(self)@ }),
                forall|k: int|
                    0 <= k < 16 ==> #[trigger] self.vx@[k] == if k < r as int {
                        bus@.mem[address(self.i, k)]
                    } else {
                        old(self).vx@[k]
                    },
            decreases x + 1 - r,
        {
            let value = bus.ram_read_byte(effective_address(self.i, r));
            self.vx[r as usize] = value;
            r += 1;
        }
        assert(self@.regs =~= load_regs(old(self)@.regs, old(bus)@.mem, old(self)@.i, x));
    }

    /// Runs `instr` with `random` as the random byte. On a fault nothing changes.
    pub fn execute(&mut self, bus: &mut Bus, instr: Instruction, random: u8) -> (outcome: Result<
        (),
        Fault,
    >)
        requires
            instr.wf(),
        ensures
            match exec_spec(old(self)@, old(bus)@, instr, random) {
                Ok((cpu, b)) => outcome is Ok && final(self)@ == cpu && final(bus)@ == b,
                Err(fault) => outcome == Err::<(), Fault>(fault) && final(self)@ == old(self)@
                    && final(bus)@ == old(bus)@,
            },
            outcome is Err <==> instr is Return && old(self)@.stack.len() == 0,
    {
        match instr {
            Instruction::ClearScreen => {
                bus.clear_screen();
                self.advance();
            },
            Instruction::Return => {
                if self.ret_stack.len() == 0 {
                    return Err(Fault::StackUnderflow { pc: self.pc });
                }
                match self.ret_stack.pop() {
                    Some(target) => {
                        self.pc = target;
                    },
                    None => {},
                }
            },
            Instruction::Jump { nnn } => {
                self.pc = nnn;
            },
            Instruction::Call { nnn } => {
                self.ret_stack.push(offset16(self.pc, 2));
                self.pc = nnn;
            },
            Instruction::SkipEqImm { x, nn } => {
                self.skip_if(self.vx[x as usize] == nn);
            },
            Instruction::SkipNeImm { x, nn } => {
                self.skip_if(self.vx[x as usize] != nn);
            },
            Instruction::SkipEqReg { x, y } => {
                self.skip_if(self.vx[x as usize] == self.vx[y as usize]);
            },
            Instruction::LoadImm { x, nn } => {
                self.set_and_advance(x, nn);
            },
            Instruction::AddImm { x, nn } => {
                let (sum, _) = add_with_carry(self.vx[x as usize], nn);
                self.set_and_advance(x, sum);
            },
            Instruction::Move { x, y } => {
                self.set_and_advance(x, self.vx[y as usize]);
            },
            Instruction::Or { x, y } => {
                self.set_and_advance(x, self.vx[x as usize] | self.vx[y as usize]);
            },
            Instruction::And { x, y } => {
                self.set_and_advance(x, self.vx[x as usize] & self.vx[y as usize]);
            },
            Instruction::Xor { x, y } => {
                self.set_and_advance(x, self.vx[x as usize] ^ self.vx[y as usize]);
            },
            Instruction::Add { x, y } => {
                let (sum, carry) = add_with_carry(self.vx[x as usize], self.vx[y as usize]);
                self.set_then_flag_and_advance(x, sum, carry);
            },
            Instruction::Sub { x, y } => {
                let (difference, no_borrow) = sub_with_borrow(
                    self.vx[x as usize],
                    self.vx[y as usize],
                );
                self.set_then_flag_and_advance(x, difference, no_borrow);
            },
            Instruction::ShiftRight { x, y } => {
                let (shifted, low) = shift_right(self.vx[y as usize]);
                self.flag_then_set_and_advance(x, shifted, low);
            },
            Instruction::SubFrom { x, y } => {
                let (difference, no_borrow) = sub_with_borrow(
                    self.vx[y as usize],
                    self.vx[x as usize],
                );
                self.set_then_flag_and_advance(x, difference, no_borrow);
            },
            Instruction::ShiftLeft { x, y } => {
                let (shifted, high) = shift_left(self.vx[x as usize]);
                self.flag_then_set_and_advance(x, shifted, high);
            },
            Instruction::SkipNeReg { x, y } => {
                self.skip_if(self.vx[x as usize] != self.vx[y as usize]);
            },
            Instruction::LoadIndex { nnn } => {
                self.index_and_advance(nnn);
            },
            Instruction::JumpOffset { nnn } => {
                self.pc = offset16(self.vx[0] as u16, nnn);
            },
            Instruction::Random { x, nn } => {
                self.set_and_advance(x, random & nn);
            },
            Instruction::Draw { x, y, n } => {
                self.debug_draw_sprite(bus, self.vx[x as usize], self.vx[y as usize], n);
                self.advance();
            },
            Instruction::SkipKeyDown { x } => {
                self.skip_if(bus.key_pressed(self.vx[x as usize]));
            },
            Instruction::SkipKeyUp { x } => {
                self.skip_if(!bus.key_pressed(self.vx[x as usize]));
            },
            Instruction::ReadDelay { x } => {
                self.set_and_advance(x, bus.get_delay_timer());
            },
            Instruction::WaitKey { x } => {
                match bus.get_key_pressed() {
                    Some(key) => {
                        self.set_and_advance(x, key);
                    },
                    None => {},
                }
            },
            Instruction::SetDelay { x } => {
                bus.set_delay_timer(self.vx[x as usize]);
                self.advance();
            },
            Instruction::SetSound { x } => {
                bus.set_sound_timer(self.vx[x as usize]);
                self.advance();
            },
            Instruction::AddIndex { x } => {
                self.index_and_advance(offset16(self.i, self.vx[x as usize] as u16));
            },
            Instruction::LoadGlyph { x } => {
                self.index_and_advance(self.vx[x as usize] as u16 * 5);
            },
            Instruction::StoreBcd { x } => {
                self.store_bcd(bus, self.vx[x as usize]);
                self.advance();
            },
            Instruction::StoreRegs { x } => {
                self.store_regs(bus, x);
                self.index_and_advance(offset16(self.i, x as u16 + 1));
            },
            Instruction::LoadRegs { x } => {
                self.load_regs(bus, x);
                self.index_and_advance(offset16(self.i, x as u16 + 1));
            },
        }
        Ok(())
    }

    /// Reads the instruction word at the program counter.
    pub fn fetch(&self, bus: &mut Bus) -> (word: u16)
        ensures
            word == fetch_spec(old(bus)@.mem, self@.pc),
            *final(bus) == *old(bus),
    {
        let hi = bus.ram_read_byte(effective_address(self.pc, 0));
        let lo = bus.ram_read_byte(effective_address(self.pc, 1));
        let word: u16 = (hi as u16) << 8 | lo as u16;
        assert(word == hi as u16 * 0x100 + lo as u16) by (bit_vector)
            requires
                word == (hi as u16) << 8 | lo as u16,
        ;
        word
    }

    /// Runs one step: fetches the instruction word at the program counter,
    /// decodes it and executes it, with `random` as the random byte. On a
    /// fault nothing changes.
    pub fn run_instruction(&mut self, bus: &mut Bus, random: u8) -> (outcome: Result<(), Fault>)
        ensures
            match step_spec(old(self)@, old(bus)@, random) {
                Ok((cpu, b)) => outcome is Ok && final(self)@ == cpu && final(bus)@ == b,
                Err(fault) => outcome == Err::<(), Fault>(fault) && final(self)@ == old(self)@
                    && final(bus)@ == old(bus)@,
            },
    {
        let word = self.fetch(bus);
        match decode(word) {
            Some(instr) => self.execute(bus, instr, random),
            None => Err(Fault::UnrecognizedOpcode { pc: self.pc, word }),
        }
    }
}

} // verus!
