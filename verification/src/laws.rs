//! Laws of the instruction set, proved from the semantics of the instructions.

use vstd::prelude::*;
use crate::bus::BusState;
use crate::display::{
    blank_screen, draw_sprite_screen, lemma_draw_sprite_pixels, lemma_draw_sprite_twice_restores,
    lemma_sprite_collision_meaning,
};
use crate::instruction::{decode_spec, Instruction};
use crate::semantics::{
    address, bytes_at, exec_spec, fetch_spec, flag, load_regs, step_spec, store_regs, wrap16,
    wrap8, CpuState, Fault,
};

verus! {

/// Adding zero changes nothing: after `6xnn`, `7x00` leaves `Vx` at `nn`, and
/// on any state `7x00` leaves every register as it was.
pub proof fn lemma_add_zero_identity(
    cpu: CpuState,
    bus: BusState,
    x: u8,
    nn: u8,
    random1: u8,
    random2: u8,
)
    requires
        cpu.wf(),
        x < 16,
    ensures
        exec_spec(cpu, bus, Instruction::LoadImm { x, nn }, random1) matches Ok((c1, b1))
            && exec_spec(c1, b1, Instruction::AddImm { x, nn: 0 }, random2) matches Ok((c2, b2))
            && c1.reg(x) == nn && c2.reg(x) == nn && c2.regs == c1.regs,
        exec_spec(cpu, bus, Instruction::AddImm { x, nn: 0 }, random1) matches Ok((c, b))
            && c.regs == cpu.regs,
{
    lemma_add_immediate_zero(cpu.with_reg(x, nn).next(), bus, x, random2);
    lemma_add_immediate_zero(cpu, bus, x, random1);
}

/// `7x00` leaves every register as it was.
proof fn lemma_add_immediate_zero(cpu: CpuState, bus: BusState, x: u8, random: u8)
    requires
        cpu.wf(),
        x < 16,
    ensures
        exec_spec(cpu, bus, Instruction::AddImm { x, nn: 0 }, random) == Ok::<
            (CpuState, BusState),
            Fault,
        >((cpu.next(), bus)),
{
    let v = cpu.reg(x);
    assert(wrap8(v + 0) == v);
    assert(cpu.with_reg(x, v).regs =~= cpu.regs);
}

/// `8xy4` sets `VF` to 1 exactly when the sum of `Vx` and `Vy` exceeds 255,
/// else to 0, and leaves the sum modulo 256 in `Vx`. Where `Vx` is `VF`
/// itself it holds the flag, which is the sum modulo 256 only by coincidence.
pub proof fn lemma_add_sets_carry(cpu: CpuState, bus: BusState, x: u8, y: u8, random: u8)
    requires
        cpu.wf(),
        x < 16,
        y < 16,
    ensures
        exec_spec(cpu, bus, Instruction::Add { x, y }, random) matches Ok((c, b)) && {
            let sum = cpu.reg(x) as int + cpu.reg(y) as int;
            &&& c.reg(0xF) == 1 <==> sum > 255
            &&& c.reg(0xF) == 0 <==> sum <= 255
            &&& x != 0xF || flag(sum > 255) as int == sum % 256 ==> c.reg(x) as int == sum % 256
        },
{
}

/// `8xy5` sets `VF` to 0 exactly when `Vx` is less than `Vy`, else to 1, and
/// leaves the difference modulo 256 in `Vx`. Where `Vx` is `VF` itself it
/// holds the flag, which is the difference modulo 256 only by coincidence.
pub proof fn lemma_sub_sets_borrow(cpu: CpuState, bus: BusState, x: u8, y: u8, random: u8)
    requires
        cpu.wf(),
        x < 16,
        y < 16,
    ensures
        exec_spec(cpu, bus, Instruction::Sub { x, y }, random) matches Ok((c, b)) && {
            let a = cpu.reg(x) as int;
            let s = cpu.reg(y) as int;
            &&& c.reg(0xF) == 0 <==> a < s
            &&& c.reg(0xF) == 1 <==> a >= s
            &&& x != 0xF || flag(a >= s) as int == (a - s) % 256 ==> c.reg(x) as int == (a - s)
                % 256
        },
{
}

/// `Fx55` followed by `Fx65` from the same `I` brings `V0..=Vx` back to the
/// values that were stored, whatever the registers held in between.
pub proof fn lemma_store_load_round_trip(
    cpu: CpuState,
    bus: BusState,
    x: u8,
    between: Seq<u8>,
    random1: u8,
    random2: u8,
)
    requires
        cpu.wf(),
        bus.wf(),
        x < 16,
        between.len() == 16,
    ensures
        exec_spec(cpu, bus, Instruction::StoreRegs { x }, random1) matches Ok((c1, b1))
            && exec_spec(
            CpuState { regs: between, i: cpu.i, ..c1 },
            b1,
            Instruction::LoadRegs { x },
            random2,
        ) matches Ok((c2, b2)) && c2.wf() && b2 == b1 && forall|r: int|
            0 <= r <= x ==> c2.regs[r] == cpu.regs[r],
{
    lemma_loads_what_was_stored(bus.mem, cpu.regs, between, cpu.i, x);
}

/// An address is in memory, and lies as far from its base as its offset says.
proof fn lemma_address_offset(base: u16, r: int)
    requires
        0 <= r < 4096,
    ensures
        0 <= address(base, r) < 4096,
        (address(base, r) - base as int) % 4096 == r,
{
}

/// Loading `V0..=Vx` from where they were stored gives the stored values.
proof fn lemma_loads_what_was_stored(
    mem: Seq<u8>,
    regs: Seq<u8>,
    between: Seq<u8>,
    base: u16,
    x: u8,
)
    requires
        mem.len() == 4096,
        regs.len() == 16,
        between.len() == 16,
        x < 16,
    ensures
        load_regs(between, store_regs(mem, regs, base, x), base, x).len() == 16,
        forall|r: int|
            0 <= r <= x ==> load_regs(between, store_regs(mem, regs, base, x), base, x)[r]
                == regs[r],
{
    let stored = store_regs(mem, regs, base, x);
    let loaded = load_regs(between, stored, base, x);
    assert forall|r: int| 0 <= r <= x implies loaded[r] == regs[r] by {
        lemma_address_offset(base, r);
        let a = address(base, r);
        assert(stored[a] == regs[r]);
    }
}

/// `Fx55` and `Fx65` each leave `I` at its old value plus `x + 1`, as long as
/// that fits in 16 bits.
pub proof fn lemma_block_transfer_advances_index(
    cpu: CpuState,
    bus: BusState,
    x: u8,
    random: u8,
)
    requires
        cpu.wf(),
        bus.wf(),
        x < 16,
        cpu.i + x + 1 <= u16::MAX,
    ensures
        exec_spec(cpu, bus, Instruction::StoreRegs { x }, random) matches Ok((c, b)) && c.i
            == cpu.i + x + 1,
        exec_spec(cpu, bus, Instruction::LoadRegs { x }, random) matches Ok((c, b)) && c.i
            == cpu.i + x + 1,
{
    lemma_wrap16_in_range(cpu.i + x + 1);
}

/// Reducing to 16 bits keeps a value that has no more.
proof fn lemma_wrap16_in_range(v: int)
    requires
        0 <= v <= u16::MAX,
    ensures
        wrap16(v) == v,
{
}

/// A step stops with a fault in exactly two cases: the word at the program
/// counter encodes no instruction, or it encodes a return and no call is
/// pending. The fault names the program counter, and the word where it is
/// the word that is at fault.
pub proof fn lemma_step_faults(cpu: CpuState, bus: BusState, random: u8)
    ensures
        ({
            let word = fetch_spec(bus.mem, cpu.pc);
            match step_spec(cpu, bus, random) {
                Err(Fault::UnrecognizedOpcode { pc, word: w }) => decode_spec(word) is None && pc
                    == cpu.pc && w == word,
                Err(Fault::StackUnderflow { pc }) => decode_spec(word) == Some(
                    Instruction::Return,
                ) && cpu.stack.len() == 0 && pc == cpu.pc,
                Ok(_) => decode_spec(word) is Some && !(decode_spec(word) == Some(
                    Instruction::Return,
                ) && cpu.stack.len() == 0),
            }
        }),
{
}

/// No instruction counts a timer down: the delay timer changes under `Fx15`
/// alone and the sound timer under `Fx18` alone.
pub proof fn lemma_instructions_keep_timers(
    cpu: CpuState,
    bus: BusState,
    instr: Instruction,
    random: u8,
)
    ensures
        exec_spec(cpu, bus, instr, random) matches Ok((c, b)) ==> {
            &&& instr !is SetDelay ==> b.delay == bus.delay
            &&& instr !is SetSound ==> b.sound == bus.sound
        },
{
}

/// An instruction leaves a machine with sixteen registers, 4096 bytes of
/// memory, 2048 pixels and sixteen keys as such a machine.
pub proof fn lemma_instructions_keep_sizes(
    cpu: CpuState,
    bus: BusState,
    instr: Instruction,
    random: u8,
)
    requires
        cpu.wf(),
        bus.wf(),
        instr.wf(),
    ensures
        exec_spec(cpu, bus, instr, random) matches Ok((c, b)) ==> c.wf() && b.wf(),
{
    if let Instruction::Draw { x, y, n } = instr {
        lemma_draw_sprite_pixels(
            bus.screen,
            bytes_at(bus.mem, cpu.i, n as nat),
            cpu.reg(x),
            cpu.reg(y),
        );
    }
}

/// The machine after the instructions of `program` ran one after the other,
/// each with the random byte at its place in `randoms`; a fault ends the run
/// with the state that raised it.
pub open spec fn run_all(
    cpu: CpuState,
    bus: BusState,
    program: Seq<Instruction>,
    randoms: Seq<u8>,
) -> (CpuState, BusState)
    decreases program.len(),
{
    if program.len() == 0 {
        (cpu, bus)
    } else {
        let (c, b) = run_all(cpu, bus, program.drop_last(), randoms);
        match exec_spec(c, b, program.last(), randoms[program.len() - 1]) {
            Ok(after) => after,
            Err(_) => (c, b),
        }
    }
}

/// `00E0` leaves every pixel unset, whatever the screen held: also after an
/// earlier `00E0` and any run of instructions, draws among them.
pub proof fn lemma_clear_screen_blanks(
    cpu: CpuState,
    bus: BusState,
    program: Seq<Instruction>,
    randoms: Seq<u8>,
    random1: u8,
    random2: u8,
)
    ensures
        exec_spec(cpu, bus, Instruction::ClearScreen, random1) matches Ok((c1, b1)) && {
            let (c2, b2) = run_all(c1, b1, program, randoms);
            exec_spec(c2, b2, Instruction::ClearScreen, random2) matches Ok((c3, b3)) && b3.screen
                == blank_screen() && forall|p: int| 0 <= p < 2048 ==> !b3.screen[p]
        },
        exec_spec(cpu, bus, Instruction::ClearScreen, random1) matches Ok((c, b)) && b.screen
            == blank_screen(),
{
}

/// `Dxyn` sets `VF` to 1 exactly when some pixel that was set before it is
/// unset after it, else to 0.
pub proof fn lemma_draw_sets_collision(
    cpu: CpuState,
    bus: BusState,
    x: u8,
    y: u8,
    n: u8,
    random: u8,
)
    requires
        cpu.wf(),
        bus.wf(),
        x < 16,
        y < 16,
        n < 16,
    ensures
        exec_spec(cpu, bus, Instruction::Draw { x, y, n }, random) matches Ok((c, b)) && {
            let turned_off = exists|p: int| 0 <= p < 2048 && #[trigger] bus.screen[p] && !b.screen[p];
            &&& c.reg(0xF) == 1 <==> turned_off
            &&& c.reg(0xF) == 0 <==> !turned_off
        },
{
    let sprite = bytes_at(bus.mem, cpu.i, n as nat);
    lemma_sprite_collision_meaning(bus.screen, sprite, cpu.reg(x), cpu.reg(y));
}

/// Two identical `Dxyn` in a row that draw at the same place (the first left
/// `Vx` and `Vy` as they were) leave the screen as it was before the first,
/// and the second sets `VF` to 1 exactly when the first turned some pixel on.
pub proof fn lemma_draw_twice(
    cpu: CpuState,
    bus: BusState,
    x: u8,
    y: u8,
    n: u8,
    random1: u8,
    random2: u8,
)
    requires
        cpu.wf(),
        bus.wf(),
        x < 16,
        y < 16,
        n < 16,
        exec_spec(cpu, bus, Instruction::Draw { x, y, n }, random1) matches Ok((c1, b1))
            && c1.reg(x) == cpu.reg(x) && c1.reg(y) == cpu.reg(y),
    ensures
        exec_spec(cpu, bus, Instruction::Draw { x, y, n }, random1) matches Ok((c1, b1))
            && exec_spec(c1, b1, Instruction::Draw { x, y, n }, random2) matches Ok((c2, b2)) && {
            let turned_on = exists|p: int| 0 <= p < 2048 && !bus.screen[p] && #[trigger] b1.screen[p];
            &&& b2.screen == bus.screen
            &&& c2.reg(0xF) == 1 <==> turned_on
            &&& c2.reg(0xF) == 0 <==> !turned_on
        },
{
    let sprite = bytes_at(bus.mem, cpu.i, n as nat);
    let vx = cpu.reg(x);
    let vy = cpu.reg(y);
    let once = draw_sprite_screen(bus.screen, sprite, vx, vy);
    let twice = draw_sprite_screen(once, sprite, vx, vy);
    lemma_draw_sprite_pixels(bus.screen, sprite, vx, vy);
    lemma_draw_sprite_twice_restores(bus.screen, sprite, vx, vy);
    lemma_sprite_collision_meaning(once, sprite, vx, vy);
    if exists|p: int| 0 <= p < 2048 && !bus.screen[p] && #[trigger] once[p] {
        let p = choose|p: int| 0 <= p < 2048 && !bus.screen[p] && #[trigger] once[p];
        assert(0 <= p < once.len() && once[p] && !twice[p]);
    }
    if exists|p: int| 0 <= p < once.len() && #[trigger] once[p] && !twice[p] {
        let p = choose|p: int| 0 <= p < once.len() && #[trigger] once[p] && !twice[p];
        assert(0 <= p < 2048 && !bus.screen[p] && once[p]);
    }
}

} // verus!
