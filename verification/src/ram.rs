//! The 4 KB byte-addressable memory, seeded with the hexadecimal font.

use vstd::prelude::*;

verus! {

/// Number of addressable bytes.
pub const MEMORY_SIZE: usize = 4096;

/// Bytes per font glyph.
pub const GLYPH_SIZE: usize = 5;

/// Bytes taken by the sixteen font glyphs at the bottom of memory.
pub const FONT_SIZE: usize = 80;

/// The built-in font: sixteen glyphs of five bytes, digit `d` at offset `d * 5`.
pub open spec fn font() -> Seq<u8> {
    seq![
        0xF0u8, 0x90, 0x90, 0x90, 0xF0,
        0x20, 0x60, 0x20, 0x20, 0x70,
        0xF0, 0x10, 0xF0, 0x80, 0xF0,
        0xF0, 0x10, 0xF0, 0x10, 0xF0,
        0x90, 0x90, 0xF0, 0x10, 0x10,
        0xF0, 0x80, 0xF0, 0x10, 0xF0,
        0xF0, 0x80, 0xF0, 0x90, 0xF0,
        0xF0, 0x10, 0x20, 0x40, 0x40,
        0xF0, 0x90, 0xF0, 0x90, 0xF0,
        0xF0, 0x90, 0xF0, 0x10, 0xF0,
        0xF0, 0x90, 0xF0, 0x90, 0x90,
        0xE0, 0x90, 0xE0, 0x90, 0xE0,
        0xF0, 0x80, 0x80, 0x80, 0xF0,
        0xE0, 0x90, 0x90, 0x90, 0xE0,
        0xF0, 0x80, 0xF0, 0x80, 0xF0,
        0xF0, 0x80, 0xF0, 0x80, 0x80,
    ]
}

/// Memory as it is at power-on: the font, then zeroes.
pub open spec fn initial_memory() -> Seq<u8> {
    Seq::new(MEMORY_SIZE as nat, |a: int| if a < FONT_SIZE { font()[a] } else { 0u8 })
}

/// The memory of the machine.
pub struct Ram {
    /// The bytes at addresses `0x000..=0xFFF`.
    pub mem: [u8; 4096],
}

impl View for Ram {
    type V = Seq<u8>;

    open spec fn view(&self) -> Seq<u8> {
        self.mem@
    }
}

impl Ram {
    /// A fresh memory holding the font at addresses `0x000..0x050` and zero elsewhere.
    pub fn new() -> (ram: Ram)
        ensures
            ram@ == initial_memory(),
    {
        let glyphs: [u8; 80] = [
            0xF0, 0x90, 0x90, 0x90, 0xF0,
            0x20, 0x60, 0x20, 0x20, 0x70,
            0xF0, 0x10, 0xF0, 0x80, 0xF0,
            0xF0, 0x10, 0xF0, 0x10, 0xF0,
            0x90, 0x90, 0xF0, 0x10, 0x10,
            0xF0, 0x80, 0xF0, 0x10, 0xF0,
            0xF0, 0x80, 0xF0, 0x90, 0xF0,
            0xF0, 0x10, 0x20, 0x40, 0x40,
            0xF0, 0x90, 0xF0, 0x90, 0xF0,
            0xF0, 0x90, 0xF0, 0x10, 0xF0,
            0xF0, 0x90, 0xF0, 0x90, 0x90,
            0xE0, 0x90, 0xE0, 0x90, 0xE0,
            0xF0, 0x80, 0x80, 0x80, 0xF0,
            0xE0, 0x90, 0x90, 0x90, 0xE0,
            0xF0, 0x80, 0xF0, 0x80, 0xF0,
            0xF0, 0x80, 0xF0, 0x80, 0x80,
        ];
        assert(glyphs@ =~= font());
        let mut ram = Ram { mem: [0u8; 4096] };
        let mut a: usize = 0;
        while a < 80
            invariant
                a <= 80,
                glyphs@ == font(),
                forall|k: int| 0 <= k < a ==> ram.mem@[k] == font()[k],
                forall|k: int| a <= k < 4096 ==> ram.mem@[k] == 0u8,
            decreases 80 - a,
        {
            ram.mem[a] = glyphs[a];
            a += 1;
        }
        assert(ram@ =~= initial_memory());
        ram
    }

    /// Stores `value` at `address`; every other byte keeps its value.
    pub fn write_byte(&mut self, address: u16, value: u8)
        requires
            address < MEMORY_SIZE,
        ensures
            final(self)@ == old(self)@.update(address as int, value),
    {
        self.mem[address as usize] = value;
    }

    /// The byte stored at `address`.
    pub fn read_byte(&mut self, address: u16) -> (value: u8)
        requires
            address < MEMORY_SIZE,
        ensures
            value == old(self)@[address as int],
            *final(self) == *old(self),
    {
        self.mem[address as usize]
    }
}

} // verus!
