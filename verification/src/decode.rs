//! Instruction words: their fields and the operation each one names.

use vstd::prelude::*;
use crate::state::Chip8Error;

verus! {

/// The first register index of an instruction word: bits 8 to 11.
pub open spec fn op_x(word: u16) -> u8 {
    ((word & 0x0F00) >> 8) as u8
}

/// The second register index of an instruction word: bits 4 to 7.
pub open spec fn op_y(word: u16) -> u8 {
    ((word & 0x00F0) >> 4) as u8
}

/// The lowest nibble of an instruction word.
pub open spec fn op_n(word: u16) -> u8 {
    (word & 0x000F) as u8
}

/// The immediate byte of an instruction word.
pub open spec fn op_kk(word: u16) -> u8 {
    (word & 0x00FF) as u8
}

/// The 12-bit address of an instruction word.
pub open spec fn op_nnn(word: u16) -> u16 {
    word & 0x0FFF
}

/// The instruction family: the top nibble of the word.
pub open spec fn op_family(word: u16) -> u8 {
    (word >> 12) as u8
}

/// Extracts the first register index, which is always below 16.
pub fn field_x(word: u16) -> (x: u8)
    ensures
        x == op_x(word),
        x < 16,
{
    assert((word & 0x0F00) >> 8 < 16) by (bit_vector);
    ((word & 0x0F00) >> 8) as u8
}

/// Extracts the second register index, which is always below 16.
pub fn field_y(word: u16) -> (y: u8)
    ensures
        y == op_y(word),
        y < 16,
{
    assert((word & 0x00F0) >> 4 < 16) by (bit_vector);
    ((word & 0x00F0) >> 4) as u8
}

/// Extracts the lowest nibble.
pub fn field_n(word: u16) -> (n: u8)
    ensures
        n == op_n(word),
        n < 16,
{
    assert(word & 0x000F < 16) by (bit_vector);
    (word & 0x000F) as u8
}

/// Extracts the immediate byte.
pub fn field_kk(word: u16) -> (kk: u8)
    ensures
        kk == op_kk(word),
{
    assert(word & 0x00FF < 256) by (bit_vector);
    (word & 0x00FF) as u8
}

/// Extracts the 12-bit address, which is always a valid memory address.
pub fn field_nnn(word: u16) -> (nnn: u16)
    ensures
        nnn == op_nnn(word),
        nnn < 4096,
{
    assert(word & 0x0FFF < 4096) by (bit_vector);
    word & 0x0FFF
}

/// Extracts the instruction family.
pub fn field_family(word: u16) -> (f: u8)
    ensures
        f == op_family(word),
        f < 16,
{
    assert(word >> 12 < 16) by (bit_vector);
    (word >> 12) as u8
}

/// One variant per operation of the instruction set, with its operands.
#[derive(Debug, Clone, Copy, PartialEq, Eq, Structural)]
pub enum Instruction {
    /// `00E0`: clear the display.
    Cls,
    /// `00EE`: return from a subroutine.
    Ret,
    /// `0nnn`: machine-code routine; ignored.
    Sys(u16),
    /// `1nnn`: jump.
    Jp(u16),
    /// `2nnn`: call a subroutine.
    Call(u16),
    /// `3xkk`: skip if Vx equals the byte.
    SeByte(u8, u8),
    /// `4xkk`: skip if Vx differs from the byte.
    SneByte(u8, u8),
    /// `5xy_`: skip if Vx equals Vy.
    SeReg(u8, u8),
    /// `6xkk`: load the byte into Vx.
    LdByte(u8, u8),
    /// `7xkk`: add the byte to Vx.
    AddByte(u8, u8),
    /// `8xy0`: copy Vy into Vx.
    LdReg(u8, u8),
    /// `8xy1`: bitwise or.
    Or(u8, u8),
    /// `8xy2`: bitwise and.
    And(u8, u8),
    /// `8xy3`: bitwise exclusive or.
    Xor(u8, u8),
    /// `8xy4`: add with carry flag.
    AddReg(u8, u8),
    /// `8xy5`: subtract Vy from Vx.
    Sub(u8, u8),
    /// `8xy6`: shift right.
    Shr(u8, u8),
    /// `8xy7`: subtract Vx from Vy.
    Subn(u8, u8),
    /// `8xyE`: shift left.
    Shl(u8, u8),
    /// `9xy_`: skip if Vx differs from Vy.
    SneReg(u8, u8),
    /// `Annn`: load the index register.
    LdI(u16),
    /// `Bnnn`: jump to the address plus V0.
    JpV0(u16),
    /// `Cxkk`: random byte masked by the immediate.
    Rnd(u8, u8),
    /// `Dxyn`: draw a sprite of n rows.
    Drw(u8, u8, u8),
    /// `Ex9E`: skip if the key in Vx is down.
    Skp(u8),
    /// `ExA1`: skip if the key in Vx is up.
    Sknp(u8),
    /// `Fx07`: read the delay timer.
    LdVxDt(u8),
    /// `Fx0A`: wait for a key press.
    LdVxK(u8),
    /// `Fx15`: set the delay timer.
    LdDtVx(u8),
    /// `Fx18`: set the sound timer.
    LdStVx(u8),
    /// `Fx1E`: add Vx to the index register.
    AddI(u8),
    /// `Fx29`: point the index register at a digit sprite.
    LdF(u8),
    /// `Fx33`: store the decimal digits of Vx.
    LdB(u8),
    /// `Fx55`: store V0 to Vx in memory.
    StoreBlock(u8),
    /// `Fx65`: load V0 to Vx from memory.
    LoadBlock(u8),
}

/// The operation that an instruction word names, or `None` where the word's
/// secondary key (the low nibble in family 8, the low byte in families E and F)
/// matches no operation.
pub open spec fn decode_spec(word: u16) -> Option<Instruction> {
    let x = op_x(word);
    let y = op_y(word);
    let n = op_n(word);
    let kk = op_kk(word);
    let nnn = op_nnn(word);
    let family = op_family(word);
    if family == 0x0 {
        if word == 0x00E0 {
            Some(Instruction::Cls)
        } else if word == 0x00EE {
            Some(Instruction::Ret)
        } else {
            Some(Instruction::Sys(nnn))
        }
    } else if family == 0x1 {
        Some(Instruction::Jp(nnn))
    } else if family == 0x2 {
        Some(Instruction::Call(nnn))
    } else if family == 0x3 {
        Some(Instruction::SeByte(x, kk))
    } else if family == 0x4 {
        Some(Instruction::SneByte(x, kk))
    } else if family == 0x5 {
        Some(Instruction::SeReg(x, y))
    } else if family == 0x6 {
        Some(Instruction::LdByte(x, kk))
    } else if family == 0x7 {
        Some(Instruction::AddByte(x, kk))
    } else if family == 0x8 {
        if n == 0x0 {
            Some(Instruction::LdReg(x, y))
        } else if n == 0x1 {
            Some(Instruction::Or(x, y))
        } else if n == 0x2 {
            Some(Instruction::And(x, y))
        } else if n == 0x3 {
            Some(Instruction::Xor(x, y))
        } else if n == 0x4 {
            Some(Instruction::AddReg(x, y))
        } else if n == 0x5 {
            Some(Instruction::Sub(x, y))
        } else if n == 0x6 {
            Some(Instruction::Shr(x, y))
        } else if n == 0x7 {
            Some(Instruction::Subn(x, y))
        } else if n == 0xE {
            Some(Instruction::Shl(x, y))
        } else {
            None
        }
    } else if family == 0x9 {
        Some(Instruction::SneReg(x, y))
    } else if family == 0xA {
        Some(Instruction::LdI(nnn))
    } else if family == 0xB {
        Some(Instruction::JpV0(nnn))
    } else if family == 0xC {
        Some(Instruction::Rnd(x, kk))
    } else if family == 0xD {
        Some(Instruction::Drw(x, y, n))
    } else if family == 0xE {
        if kk == 0x9E {
            Some(Instruction::Skp(x))
        } else if kk == 0xA1 {
            Some(Instruction::Sknp(x))
        } else {
            None
        }
    } else {
        if kk == 0x07 {
            Some(Instruction::LdVxDt(x))
        } else if kk == 0x0A {
            Some(Instruction::LdVxK(x))
        } else if kk == 0x15 {
            Some(Instruction::LdDtVx(x))
        } else if kk == 0x18 {
            Some(Instruction::LdStVx(x))
        } else if kk == 0x1E {
            Some(Instruction::AddI(x))
        } else if kk == 0x29 {
            Some(Instruction::LdF(x))
        } else if kk == 0x33 {
            Some(Instruction::LdB(x))
        } else if kk == 0x55 {
            Some(Instruction::StoreBlock(x))
        } else if kk == 0x65 {
            Some(Instruction::LoadBlock(x))
        } else {
            None
        }
    }
}

/// Decodes an instruction word. A word that names no operation is reported as
/// `UnimplementedOpcode` with the word itself; every other word decodes.
pub fn decode(word: u16) -> (r: Result<Instruction, Chip8Error>)
    ensures
        match r {
            Ok(i) => decode_spec(word) == Some(i),
            Err(e) => decode_spec(word).is_none() && e == Chip8Error::UnimplementedOpcode(word),
        },
{
    let x = field_x(word);
    let y = field_y(word);
    let n = field_n(word);
    let kk = field_kk(word);
    let nnn = field_nnn(word);
    let family = field_family(word);
    match family {
        0x0 => {
            if word == 0x00E0 {
                Ok(Instruction::Cls)
            } else if word == 0x00EE {
                Ok(Instruction::Ret)
            } else {
                Ok(Instruction::Sys(nnn))
            }
        },
        0x1 => Ok(Instruction::Jp(nnn)),
        0x2 => Ok(Instruction::Call(nnn)),
        0x3 => Ok(Instruction::SeByte(x, kk)),
        0x4 => Ok(Instruction::SneByte(x, kk)),
        0x5 => Ok(Instruction::SeReg(x, y)),
        0x6 => Ok(Instruction::LdByte(x, kk)),
        0x7 => Ok(Instruction::AddByte(x, kk)),
        0x8 => match n {
            0x0 => Ok(Instruction::LdReg(x, y)),
            0x1 => Ok(Instruction::Or(x, y)),
            0x2 => Ok(Instruction::And(x, y)),
            0x3 => Ok(Instruction::Xor(x, y)),
            0x4 => Ok(Instruction::AddReg(x, y)),
            0x5 => Ok(Instruction::Sub(x, y)),
            0x6 => Ok(Instruction::Shr(x, y)),
            0x7 => Ok(Instruction::Subn(x, y)),
            0xE => Ok(Instruction::Shl(x, y)),
            _ => Err(Chip8Error::UnimplementedOpcode(word)),
        },
        0x9 => Ok(Instruction::SneReg(x, y)),
        0xA => Ok(Instruction::LdI(nnn)),
        0xB => Ok(Instruction::JpV0(nnn)),
        0xC => Ok(Instruction::Rnd(x, kk)),
        0xD => Ok(Instruction::Drw(x, y, n)),
        0xE => match kk {
            0x9E => Ok(Instruction::Skp(x)),
            0xA1 => Ok(Instruction::Sknp(x)),
            _ => Err(Chip8Error::UnimplementedOpcode(word)),
        },
        _ => match kk {
            0x07 => Ok(Instruction::LdVxDt(x)),
            0x0A => Ok(Instruction::LdVxK(x)),
            0x15 => Ok(Instruction::LdDtVx(x)),
            0x18 => Ok(Instruction::LdStVx(x)),
            0x1E => Ok(Instruction::AddI(x)),
            0x29 => Ok(Instruction::LdF(x)),
            0x33 => Ok(Instruction::LdB(x)),
            0x55 => Ok(Instruction::StoreBlock(x)),
            0x65 => Ok(Instruction::LoadBlock(x)),
            _ => Err(Chip8Error::UnimplementedOpcode(word)),
        },
    }
}

} // verus!
