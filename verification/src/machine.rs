//! The whole machine: a processor and the bus that it drives.

use vstd::prelude::*;
use crate::bus::{initial_bus, Bus, BusState};
use crate::cpu::{Cpu, PROGRAM_START};
use crate::semantics::{initial_cpu, step_spec, Fault};

verus! {

/// Bytes of memory from the start of program space to the end of memory.
pub const PROGRAM_SPACE: usize = 0xE00;

/// Memory after the program image `data` was copied to the start of program space.
pub open spec fn loaded_memory(mem: Seq<u8>, data: Seq<u8>) -> Seq<u8> {
    Seq::new(
        mem.len(),
        |a: int|
            if PROGRAM_START <= a < PROGRAM_START + data.len() {
                data[a - PROGRAM_START]
            } else {
                mem[a]
            },
    )
}

/// The machine.
pub struct Chip8 {
    pub cpu: Cpu,
    pub bus: Bus,
}

impl Chip8 {
    /// A machine at power-on.
    pub fn new() -> (machine: Chip8)
        ensures
            machine.cpu@ == initial_cpu(),
            machine.bus@ == initial_bus(),
    {
        Chip8 { cpu: Cpu::new(), bus: Bus::new() }
    }

    /// Copies the program image `data` into memory, byte for byte, from the
    /// start of program space on. The image must fit in program space.
    pub fn load_rom(&mut self, data: &[u8])
        requires
            data@.len() <= PROGRAM_SPACE,
        ensures
            final(self).cpu@ == old(self).cpu@,
            final(self).bus@ == (BusState {
                mem: loaded_memory(old(self).bus@.mem, data@),
                ..old(self).bus@
            }),
    {
        let mut k: usize = 0;
        while k < data.len()
            invariant
                k <= data@.len() <= PROGRAM_SPACE,
                self.cpu == old(self).cpu,
                self.bus@ == (BusState { mem: self.bus@.mem, ..old(self).bus@ }),
                self.bus@.mem.len() == 4096,
                forall|a: int|
                    0 <= a < 4096 ==> #[trigger] self.bus@.mem[a] == if PROGRAM_START <= a
                        < PROGRAM_START + k {
                        data@[a - PROGRAM_START]
                    } else {
                        old(self).bus@.mem[a]
                    },
            decreases data@.len() - k,
        {
            self.bus.ram_write_byte((PROGRAM_START as usize + k) as u16, data[k]);
            k += 1;
        }
        assert(self.bus@.mem =~= loaded_memory(old(self).bus@.mem, data@));
    }

    /// Runs one fetch-decode-execute step with `random` as the random byte.
    /// On a fault nothing changes.
    pub fn run_instruction(&mut self, random: u8) -> (outcome: Result<(), Fault>)
        ensures
            match step_spec(old(self).cpu@, old(self).bus@, random) {
                Ok((cpu, bus)) => outcome is Ok && final(self).cpu@ == cpu && final(self).bus@
                    == bus,
                Err(fault) => outcome == Err::<(), Fault>(fault) && final(self).cpu@ == old(
                    self,
                ).cpu@ && final(self).bus@ == old(self).bus@,
            },
    {
        self.cpu.run_instruction(&mut self.bus, random)
    }

    /// The whole pixel buffer, row by row.
    pub fn get_display_buffer(&self) -> (buffer: &[bool; 2048])
        ensures
            buffer@ == self.bus@.screen,
    {
        self.bus.get_display_buffer()
    }
}

} // verus!
