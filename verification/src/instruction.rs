//! The instruction set: one variant per opcode, and the decoder from
//! 16-bit instruction words.

use vstd::prelude::*;
use vstd::arithmetic::div_mod::lemma_fundamental_div_mod_converse;

verus! {

/// A decoded instruction. `x` and `y` name registers, `nnn` is a 12-bit
/// address, `nn` an 8-bit constant and `n` a 4-bit constant.
#[derive(Clone, Copy, Debug, PartialEq, Eq, Structural)]
pub enum Instruction {
    /// `00E0`: clear the display.
    ClearScreen,
    /// `00EE`: return from a subroutine.
    Return,
    /// `1nnn`: jump to `nnn`.
    Jump { nnn: u16 },
    /// `2nnn`: call the subroutine at `nnn`.
    Call { nnn: u16 },
    /// `3xnn`: skip the next instruction if `Vx == nn`.
    SkipEqImm { x: u8, nn: u8 },
    /// `4xnn`: skip the next instruction if `Vx != nn`.
    SkipNeImm { x: u8, nn: u8 },
    /// `5xy0`: skip the next instruction if `Vx == Vy`.
    SkipEqReg { x: u8, y: u8 },
    /// `6xnn`: `Vx = nn`.
    LoadImm { x: u8, nn: u8 },
    /// `7xnn`: `Vx = Vx + nn`, wrapping, flag untouched.
    AddImm { x: u8, nn: u8 },
    /// `8xy0`: `Vx = Vy`.
    Move { x: u8, y: u8 },
    /// `8xy1`: `Vx = Vx | Vy`.
    Or { x: u8, y: u8 },
    /// `8xy2`: `Vx = Vx & Vy`.
    And { x: u8, y: u8 },
    /// `8xy3`: `Vx = Vx ^ Vy`.
    Xor { x: u8, y: u8 },
    /// `8xy4`: `Vx = Vx + Vy`, `VF` = carry.
    Add { x: u8, y: u8 },
    /// `8xy5`: `Vx = Vx - Vy`, `VF` = no borrow.
    Sub { x: u8, y: u8 },
    /// `8xy6`: `VF` = lowest bit of `Vy`, `Vx = Vy >> 1`.
    ShiftRight { x: u8, y: u8 },
    /// `8xy7`: `Vx = Vy - Vx`, `VF` = no borrow.
    SubFrom { x: u8, y: u8 },
    /// `8xyE`: `VF` = highest bit of `Vx`, `Vx = Vx << 1`.
    ShiftLeft { x: u8, y: u8 },
    /// `9xy0`: skip the next instruction if `Vx != Vy`.
    SkipNeReg { x: u8, y: u8 },
    /// `Annn`: `I = nnn`.
    LoadIndex { nnn: u16 },
    /// `Bnnn`: jump to `V0 + nnn`.
    JumpOffset { nnn: u16 },
    /// `Cxnn`: `Vx = random & nn`.
    Random { x: u8, nn: u8 },
    /// `Dxyn`: draw the `n`-byte sprite at `I` at `(Vx, Vy)`, `VF` = collision.
    Draw { x: u8, y: u8, n: u8 },
    /// `Ex9E`: skip the next instruction if key `Vx` is held.
    SkipKeyDown { x: u8 },
    /// `ExA1`: skip the next instruction if key `Vx` is not held.
    SkipKeyUp { x: u8 },
    /// `Fx07`: `Vx` = delay timer.
    ReadDelay { x: u8 },
    /// `Fx0A`: wait for a key, then `Vx` = that key.
    WaitKey { x: u8 },
    /// `Fx15`: delay timer = `Vx`.
    SetDelay { x: u8 },
    /// `Fx18`: sound timer = `Vx`.
    SetSound { x: u8 },
    /// `Fx1E`: `I = I + Vx`.
    AddIndex { x: u8 },
    /// `Fx29`: `I` = address of the glyph for `Vx`.
    LoadGlyph { x: u8 },
    /// `Fx33`: store the three decimal digits of `Vx` at `I`, `I+1`, `I+2`.
    StoreBcd { x: u8 },
    /// `Fx55`: store `V0..=Vx` at `I`, then `I = I + x + 1`.
    StoreRegs { x: u8 },
    /// `Fx65`: load `V0..=Vx` from `I`, then `I = I + x + 1`.
    LoadRegs { x: u8 },
}

impl Instruction {
    /// Operands are within their widths: register indices and `n` below 16,
    /// addresses below 4096.
    pub open spec fn wf(self) -> bool {
        match self {
            Instruction::ClearScreen | Instruction::Return => true,
            Instruction::Jump { nnn }
            | Instruction::Call { nnn }
            | Instruction::LoadIndex { nnn }
            | Instruction::JumpOffset { nnn } => nnn < 0x1000,
            Instruction::SkipEqImm { x, nn }
            | Instruction::SkipNeImm { x, nn }
            | Instruction::LoadImm { x, nn }
            | Instruction::AddImm { x, nn }
            | Instruction::Random { x, nn } => x < 16,
            Instruction::SkipEqReg { x, y }
            | Instruction::Move { x, y }
            | Instruction::Or { x, y }
            | Instruction::And { x, y }
            | Instruction::Xor { x, y }
            | Instruction::Add { x, y }
            | Instruction::Sub { x, y }
            | Instruction::ShiftRight { x, y }
            | Instruction::SubFrom { x, y }
            | Instruction::ShiftLeft { x, y }
            | Instruction::SkipNeReg { x, y } => x < 16 && y < 16,
            Instruction::Draw { x, y, n } => x < 16 && y < 16 && n < 16,
            Instruction::SkipKeyDown { x }
            | Instruction::SkipKeyUp { x }
            | Instruction::ReadDelay { x }
            | Instruction::WaitKey { x }
            | Instruction::SetDelay { x }
            | Instruction::SetSound { x }
            | Instruction::AddIndex { x }
            | Instruction::LoadGlyph { x }
            | Instruction::StoreBcd { x }
            | Instruction::StoreRegs { x }
            | Instruction::LoadRegs { x } => x < 16,
        }
    }
}

/// The opcode family of an instruction word: its top four bits.
pub open spec fn family_of(word: u16) -> int {
    word as int / 0x1000
}

/// The operand `x` of an instruction word: bits 8 to 11.
pub open spec fn x_of(word: u16) -> u8 {
    ((word as int / 0x100) % 0x10) as u8
}

/// The operand `y` of an instruction word: bits 4 to 7.
pub open spec fn y_of(word: u16) -> u8 {
    ((word as int / 0x10) % 0x10) as u8
}

/// The operand `n` of an instruction word: its low four bits.
pub open spec fn n_of(word: u16) -> u8 {
    (word as int % 0x10) as u8
}

/// The operand `nn` of an instruction word: its low eight bits.
pub open spec fn nn_of(word: u16) -> u8 {
    (word as int % 0x100) as u8
}

/// The operand `nnn` of an instruction word: its low twelve bits.
pub open spec fn nnn_of(word: u16) -> u16 {
    (word as int % 0x1000) as u16
}

/// The instruction that `word` encodes, or `None` where it encodes none.
///
/// The family selects the instruction. Families `0x0`, `0xE` and `0xF` are
/// told apart further by `nn`, family `0x8` by `n`; the other families hold
/// one instruction each, and bits that are no operand of it are not looked at.
pub open spec fn decode_spec(word: u16) -> Option<Instruction> {
    let x = x_of(word);
    let y = y_of(word);
    let n = n_of(word);
    let nn = nn_of(word);
    let nnn = nnn_of(word);
    let family = family_of(word);
    if family == 0x0 {
        if nn == 0xE0 {
            Some(Instruction::ClearScreen)
        } else if nn == 0xEE {
            Some(Instruction::Return)
        } else {
            None
        }
    } else if family == 0x1 {
        Some(Instruction::Jump { nnn })
    } else if family == 0x2 {
        Some(Instruction::Call { nnn })
    } else if family == 0x3 {
        Some(Instruction::SkipEqImm { x, nn })
    } else if family == 0x4 {
        Some(Instruction::SkipNeImm { x, nn })
    } else if family == 0x5 {
        Some(Instruction::SkipEqReg { x, y })
    } else if family == 0x6 {
        Some(Instruction::LoadImm { x, nn })
    } else if family == 0x7 {
        Some(Instruction::AddImm { x, nn })
    } else if family == 0x8 {
        if n == 0x0 {
            Some(Instruction::Move { x, y })
        } else if n == 0x1 {
            Some(Instruction::Or { x, y })
        } else if n == 0x2 {
            Some(Instruction::And { x, y })
        } else if n == 0x3 {
            Some(Instruction::Xor { x, y })
        } else if n == 0x4 {
            Some(Instruction::Add { x, y })
        } else if n == 0x5 {
            Some(Instruction::Sub { x, y })
        } else if n == 0x6 {
            Some(Instruction::ShiftRight { x, y })
        } else if n == 0x7 {
            Some(Instruction::SubFrom { x, y })
        } else if n == 0xE {
            Some(Instruction::ShiftLeft { x, y })
        } else {
            None
        }
    } else if family == 0x9 {
        Some(Instruction::SkipNeReg { x, y })
    } else if family == 0xA {
        Some(Instruction::LoadIndex { nnn })
    } else if family == 0xB {
        Some(Instruction::JumpOffset { nnn })
    } else if family == 0xC {
        Some(Instruction::Random { x, nn })
    } else if family == 0xD {
        Some(Instruction::Draw { x, y, n })
    } else if family == 0xE {
        if nn == 0x9E {
            Some(Instruction::SkipKeyDown { x })
        } else if nn == 0xA1 {
            Some(Instruction::SkipKeyUp { x })
        } else {
            None
        }
    } else {
        if nn == 0x07 {
            Some(Instruction::ReadDelay { x })
        } else if nn == 0x0A {
            Some(Instruction::WaitKey { x })
        } else if nn == 0x15 {
            Some(Instruction::SetDelay { x })
        } else if nn == 0x18 {
            Some(Instruction::SetSound { x })
        } else if nn == 0x1E {
            Some(Instruction::AddIndex { x })
        } else if nn == 0x29 {
            Some(Instruction::LoadGlyph { x })
        } else if nn == 0x33 {
            Some(Instruction::StoreBcd { x })
        } else if nn == 0x55 {
            Some(Instruction::StoreRegs { x })
        } else if nn == 0x65 {
            Some(Instruction::LoadRegs { x })
        } else {
            None
        }
    }
}

/// The instruction word for `instr`, with the bits that are no operand of it
/// left zero.
pub open spec fn encode_spec(instr: Instruction) -> u16 {
    match instr {
        Instruction::ClearScreen => 0x00E0,
        Instruction::Return => 0x00EE,
        Instruction::Jump { nnn } => (0x1000 + nnn) as u16,
        Instruction::Call { nnn } => (0x2000 + nnn) as u16,
        Instruction::SkipEqImm { x, nn } => (0x3000 + x * 0x100 + nn) as u16,
        Instruction::SkipNeImm { x, nn } => (0x4000 + x * 0x100 + nn) as u16,
        Instruction::SkipEqReg { x, y } => (0x5000 + x * 0x100 + y * 0x10) as u16,
        Instruction::LoadImm { x, nn } => (0x6000 + x * 0x100 + nn) as u16,
        Instruction::AddImm { x, nn } => (0x7000 + x * 0x100 + nn) as u16,
        Instruction::Move { x, y } => (0x8000 + x * 0x100 + y * 0x10) as u16,
        Instruction::Or { x, y } => (0x8001 + x * 0x100 + y * 0x10) as u16,
        Instruction::And { x, y } => (0x8002 + x * 0x100 + y * 0x10) as u16,
        Instruction::Xor { x, y } => (0x8003 + x * 0x100 + y * 0x10) as u16,
        Instruction::Add { x, y } => (0x8004 + x * 0x100 + y * 0x10) as u16,
        Instruction::Sub { x, y } => (0x8005 + x * 0x100 + y * 0x10) as u16,
        Instruction::ShiftRight { x, y } => (0x8006 + x * 0x100 + y * 0x10) as u16,
        Instruction::SubFrom { x, y } => (0x8007 + x * 0x100 + y * 0x10) as u16,
        Instruction::ShiftLeft { x, y } => (0x800E + x * 0x100 + y * 0x10) as u16,
        Instruction::SkipNeReg { x, y } => (0x9000 + x * 0x100 + y * 0x10) as u16,
        Instruction::LoadIndex { nnn } => (0xA000 + nnn) as u16,
        Instruction::JumpOffset { nnn } => (0xB000 + nnn) as u16,
        Instruction::Random { x, nn } => (0xC000 + x * 0x100 + nn) as u16,
        Instruction::Draw { x, y, n } => (0xD000 + x * 0x100 + y * 0x10 + n) as u16,
        Instruction::SkipKeyDown { x } => (0xE09E + x * 0x100) as u16,
        Instruction::SkipKeyUp { x } => (0xE0A1 + x * 0x100) as u16,
        Instruction::ReadDelay { x } => (0xF007 + x * 0x100) as u16,
        Instruction::WaitKey { x } => (0xF00A + x * 0x100) as u16,
        Instruction::SetDelay { x } => (0xF015 + x * 0x100) as u16,
        Instruction::SetSound { x } => (0xF018 + x * 0x100) as u16,
        Instruction::AddIndex { x } => (0xF01E + x * 0x100) as u16,
        Instruction::LoadGlyph { x } => (0xF029 + x * 0x100) as u16,
        Instruction::StoreBcd { x } => (0xF033 + x * 0x100) as u16,
        Instruction::StoreRegs { x } => (0xF055 + x * 0x100) as u16,
        Instruction::LoadRegs { x } => (0xF065 + x * 0x100) as u16,
    }
}

/// The word made of four nibbles gives each of them back as its field.
proof fn lemma_fields(family: int, x: int, y: int, n: int)
    requires
        0 <= family < 16,
        0 <= x < 16,
        0 <= y < 16,
        0 <= n < 16,
    ensures
        ({
            let word = (family * 0x1000 + x * 0x100 + y * 0x10 + n) as u16;
            &&& word == family * 0x1000 + x * 0x100 + y * 0x10 + n
            &&& family_of(word) == family
            &&& x_of(word) == x
            &&& y_of(word) == y
            &&& n_of(word) == n
            &&& nn_of(word) == y * 0x10 + n
            &&& nnn_of(word) == x * 0x100 + y * 0x10 + n
        }),
{
    let word = family * 0x1000 + x * 0x100 + y * 0x10 + n;
    lemma_fundamental_div_mod_converse(word, 0x1000, family, x * 0x100 + y * 0x10 + n);
    lemma_fundamental_div_mod_converse(word, 0x100, family * 0x10 + x, y * 0x10 + n);
    lemma_fundamental_div_mod_converse(family * 0x10 + x, 0x10, family, x);
    lemma_fundamental_div_mod_converse(word, 0x10, family * 0x100 + x * 0x10 + y, n);
    lemma_fundamental_div_mod_converse(family * 0x100 + x * 0x10 + y, 0x10, family * 0x10 + x, y);
}

/// Every instruction is what the decoder makes of its word.
pub proof fn lemma_decode_encode(instr: Instruction)
    requires
        instr.wf(),
    ensures
        decode_spec(encode_spec(instr)) == Some(instr),
{
    match instr {
        Instruction::ClearScreen => lemma_fields(0x0, 0, 0xE, 0x0),
        Instruction::Return => lemma_fields(0x0, 0, 0xE, 0xE),
        Instruction::Jump { nnn } => lemma_address_fields(0x1, nnn),
        Instruction::Call { nnn } => lemma_address_fields(0x2, nnn),
        Instruction::SkipEqImm { x, nn } => lemma_constant_fields(0x3, x, nn),
        Instruction::SkipNeImm { x, nn } => lemma_constant_fields(0x4, x, nn),
        Instruction::SkipEqReg { x, y } => lemma_fields(0x5, x as int, y as int, 0),
        Instruction::LoadImm { x, nn } => lemma_constant_fields(0x6, x, nn),
        Instruction::AddImm { x, nn } => lemma_constant_fields(0x7, x, nn),
        Instruction::Move { x, y } => lemma_fields(0x8, x as int, y as int, 0x0),
        Instruction::Or { x, y } => lemma_fields(0x8, x as int, y as int, 0x1),
        Instruction::And { x, y } => lemma_fields(0x8, x as int, y as int, 0x2),
        Instruction::Xor { x, y } => lemma_fields(0x8, x as int, y as int, 0x3),
        Instruction::Add { x, y } => lemma_fields(0x8, x as int, y as int, 0x4),
        Instruction::Sub { x, y } => lemma_fields(0x8, x as int, y as int, 0x5),
        Instruction::ShiftRight { x, y } => lemma_fields(0x8, x as int, y as int, 0x6),
        Instruction::SubFrom { x, y } => lemma_fields(0x8, x as int, y as int, 0x7),
        Instruction::ShiftLeft { x, y } => lemma_fields(0x8, x as int, y as int, 0xE),
        Instruction::SkipNeReg { x, y } => lemma_fields(0x9, x as int, y as int, 0),
        Instruction::LoadIndex { nnn } => lemma_address_fields(0xA, nnn),
        Instruction::JumpOffset { nnn } => lemma_address_fields(0xB, nnn),
        Instruction::Random { x, nn } => lemma_constant_fields(0xC, x, nn),
        Instruction::Draw { x, y, n } => lemma_fields(0xD, x as int, y as int, n as int),
        Instruction::SkipKeyDown { x } => lemma_constant_fields(0xE, x, 0x9E),
        Instruction::SkipKeyUp { x } => lemma_constant_fields(0xE, x, 0xA1),
        Instruction::ReadDelay { x } => lemma_constant_fields(0xF, x, 0x07),
        Instruction::WaitKey { x } => lemma_constant_fields(0xF, x, 0x0A),
        Instruction::SetDelay { x } => lemma_constant_fields(0xF, x, 0x15),
        Instruction::SetSound { x } => lemma_constant_fields(0xF, x, 0x18),
        Instruction::AddIndex { x } => lemma_constant_fields(0xF, x, 0x1E),
        Instruction::LoadGlyph { x } => lemma_constant_fields(0xF, x, 0x29),
        Instruction::StoreBcd { x } => lemma_constant_fields(0xF, x, 0x33),
        Instruction::StoreRegs { x } => lemma_constant_fields(0xF, x, 0x55),
        Instruction::LoadRegs { x } => lemma_constant_fields(0xF, x, 0x65),
    }
}

/// The word made of a family, a register and an 8-bit constant gives them back.
proof fn lemma_constant_fields(family: int, x: u8, nn: u8)
    requires
        0 <= family < 16,
        x < 16,
    ensures
        ({
            let word = (family * 0x1000 + x * 0x100 + nn) as u16;
            &&& word == family * 0x1000 + x * 0x100 + nn
            &&& family_of(word) == family
            &&& x_of(word) == x
            &&& nn_of(word) == nn
            &&& n_of(word) == nn % 0x10
        }),
{
    lemma_fields(family, x as int, nn as int / 0x10, nn as int % 0x10);
}

/// The word made of a family and a 12-bit address gives them back.
proof fn lemma_address_fields(family: int, nnn: u16)
    requires
        0 <= family < 16,
        nnn < 0x1000,
    ensures
        ({
            let word = (family * 0x1000 + nnn) as u16;
            &&& word == family * 0x1000 + nnn
            &&& family_of(word) == family
            &&& nnn_of(word) == nnn
        }),
{
    lemma_fields(family, nnn as int / 0x100, (nnn as int / 0x10) % 0x10, nnn as int % 0x10);
}

/// Every decoded instruction has operands within their widths.
pub proof fn lemma_decode_wf(word: u16)
    ensures
        decode_spec(word) matches Some(instr) ==> instr.wf(),
{
}

/// Decodes an instruction word.
pub fn decode(word: u16) -> (instr: Option<Instruction>)
    ensures
        instr == decode_spec(word),
        instr matches Some(i) ==> i.wf(),
{
    let family: u16 = word >> 12;
    let x: u8 = ((word >> 8) & 0xF) as u8;
    let y: u8 = ((word >> 4) & 0xF) as u8;
    let n: u8 = (word & 0xF) as u8;
    let nn: u8 = (word & 0xFF) as u8;
    let nnn: u16 = word & 0xFFF;
    proof {
        assert(word >> 12 == word / 0x1000) by (bit_vector);
        assert((word >> 8) & 0xF == (word / 0x100) % 0x10) by (bit_vector);
        assert((word >> 4) & 0xF == (word / 0x10) % 0x10) by (bit_vector);
        assert(word & 0xF == word % 0x10) by (bit_vector);
        assert(word & 0xFF == word % 0x100) by (bit_vector);
        assert(word & 0xFFF == word % 0x1000) by (bit_vector);
        lemma_decode_wf(word);
    }
    match family {
        0x0 => match nn {
            0xE0 => Some(Instruction::ClearScreen),
            0xEE => Some(Instruction::Return),
            _ => None,
        },
        0x1 => Some(Instruction::Jump { nnn }),
        0x2 => Some(Instruction::Call { nnn }),
        0x3 => Some(Instruction::SkipEqImm { x, nn }),
        0x4 => Some(Instruction::SkipNeImm { x, nn }),
        0x5 => Some(Instruction::SkipEqReg { x, y }),
        0x6 => Some(Instruction::LoadImm { x, nn }),
        0x7 => Some(Instruction::AddImm { x, nn }),
        0x8 => match n {
            0x0 => Some(Instruction::Move { x, y }),
            0x1 => Some(Instruction::Or { x, y }),
            0x2 => Some(Instruction::And { x, y }),
            0x3 => Some(Instruction::Xor { x, y }),
            0x4 => Some(Instruction::Add { x, y }),
            0x5 => Some(Instruction::Sub { x, y }),
            0x6 => Some(Instruction::ShiftRight { x, y }),
            0x7 => Some(Instruction::SubFrom { x, y }),
            0xE => Some(Instruction::ShiftLeft { x, y }),
            _ => None,
        },
        0x9 => Some(Instruction::SkipNeReg { x, y }),
        0xA => Some(Instruction::LoadIndex { nnn }),
        0xB => Some(Instruction::JumpOffset { nnn }),
        0xC => Some(Instruction::Random { x, nn }),
        0xD => Some(Instruction::Draw { x, y, n }),
        0xE => match nn {
            0x9E => Some(Instruction::SkipKeyDown { x }),
            0xA1 => Some(Instruction::SkipKeyUp { x }),
            _ => None,
        },
        _ => match nn {
            0x07 => Some(Instruction::ReadDelay { x }),
            0x0A => Some(Instruction::WaitKey { x }),
            0x15 => Some(Instruction::SetDelay { x }),
            0x18 => Some(Instruction::SetSound { x }),
            0x1E => Some(Instruction::AddIndex { x }),
            0x29 => Some(Instruction::LoadGlyph { x }),
            0x33 => Some(Instruction::StoreBcd { x }),
            0x55 => Some(Instruction::StoreRegs { x }),
            0x65 => Some(Instruction::LoadRegs { x }),
            _ => None,
        },
    }
}

} // verus!
