//! The built-in sprites of the sixteen hexadecimal digits.
//!
//! Each sprite is five rows high and four pixels wide. The sprite of digit `d`
//! stands at address `5 * d`, at the bottom of the area below the program base.

use vstd::prelude::*;
use crate::state::{Cpu, Machine};

verus! {

/// The five rows of the sprite for the low hexadecimal digit of `digit`.
pub open spec fn glyph_rows(digit: u8) -> Seq<u8> {
    let d = digit % 16;
    if d == 0 {
        seq![0xF0u8, 0x90u8, 0x90u8, 0x90u8, 0xF0u8]
    } else if d == 1 {
        seq![0x20u8, 0x60u8, 0x20u8, 0x20u8, 0x70u8]
    } else if d == 2 {
        seq![0xF0u8, 0x10u8, 0xF0u8, 0x80u8, 0xF0u8]
    } else if d == 3 {
        seq![0xF0u8, 0x10u8, 0xF0u8, 0x10u8, 0xF0u8]
    } else if d == 4 {
        seq![0x90u8, 0x90u8, 0xF0u8, 0x10u8, 0x10u8]
    } else if d == 5 {
        seq![0xF0u8, 0x80u8, 0xF0u8, 0x10u8, 0xF0u8]
    } else if d == 6 {
        seq![0xF0u8, 0x80u8, 0xF0u8, 0x90u8, 0xF0u8]
    } else if d == 7 {
        seq![0xF0u8, 0x10u8, 0x20u8, 0x40u8, 0x40u8]
    } else if d == 8 {
        seq![0xF0u8, 0x90u8, 0xF0u8, 0x90u8, 0xF0u8]
    } else if d == 9 {
        seq![0xF0u8, 0x90u8, 0xF0u8, 0x10u8, 0xF0u8]
    } else if d == 10 {
        seq![0xF0u8, 0x90u8, 0xF0u8, 0x90u8, 0x90u8]
    } else if d == 11 {
        seq![0xE0u8, 0x90u8, 0xE0u8, 0x90u8, 0xE0u8]
    } else if d == 12 {
        seq![0xF0u8, 0x80u8, 0x80u8, 0x80u8, 0xF0u8]
    } else if d == 13 {
        seq![0xE0u8, 0x90u8, 0x90u8, 0x90u8, 0xE0u8]
    } else if d == 14 {
        seq![0xF0u8, 0x80u8, 0xF0u8, 0x80u8, 0xF0u8]
    } else {
        seq![0xF0u8, 0x80u8, 0xF0u8, 0x80u8, 0x80u8]
    }
}

/// The state after the sprites are installed: they fill the first 80 cells.
pub open spec fn after_font(s: Machine) -> Machine {
    Machine {
        ram: Seq::new(
            4096,
            |a: int|
                if 0 <= a < 80 {
                    glyph_rows((a / 5) as u8)[a % 5]
                } else {
                    s.ram[a]
                },
        ),
        ..s
    }
}

/// The five rows of the sprite for the low hexadecimal digit of `digit`.
pub fn glyph(digit: u8) -> (rows: [u8; 5])
    ensures
        rows@ == glyph_rows(digit),
{
    let rows: [u8; 5] = match digit % 16 {
        0 => [0xF0u8, 0x90u8, 0x90u8, 0x90u8, 0xF0u8],
        1 => [0x20u8, 0x60u8, 0x20u8, 0x20u8, 0x70u8],
        2 => [0xF0u8, 0x10u8, 0xF0u8, 0x80u8, 0xF0u8],
        3 => [0xF0u8, 0x10u8, 0xF0u8, 0x10u8, 0xF0u8],
        4 => [0x90u8, 0x90u8, 0xF0u8, 0x10u8, 0x10u8],
        5 => [0xF0u8, 0x80u8, 0xF0u8, 0x10u8, 0xF0u8],
        6 => [0xF0u8, 0x80u8, 0xF0u8, 0x90u8, 0xF0u8],
        7 => [0xF0u8, 0x10u8, 0x20u8, 0x40u8, 0x40u8],
        8 => [0xF0u8, 0x90u8, 0xF0u8, 0x90u8, 0xF0u8],
        9 => [0xF0u8, 0x90u8, 0xF0u8, 0x10u8, 0xF0u8],
        10 => [0xF0u8, 0x90u8, 0xF0u8, 0x90u8, 0x90u8],
        11 => [0xE0u8, 0x90u8, 0xE0u8, 0x90u8, 0xE0u8],
        12 => [0xF0u8, 0x80u8, 0x80u8, 0x80u8, 0xF0u8],
        13 => [0xE0u8, 0x90u8, 0x90u8, 0x90u8, 0xE0u8],
        14 => [0xF0u8, 0x80u8, 0xF0u8, 0x80u8, 0xF0u8],
        _ => [0xF0u8, 0x80u8, 0xF0u8, 0x80u8, 0x80u8],
    };
    proof {
        assert(rows@ =~= glyph_rows(digit));
    }
    rows
}

/// Writes the sixteen digit sprites to the first 80 cells of memory, digit `d`
/// at address `5 * d`. Nothing else changes.
pub fn install_font(cpu: &mut Cpu)
    ensures
        final(cpu)@ =~= after_font(old(cpu)@),
{
    let mut digit: u8 = 0;
    while digit < 16
        invariant
            digit <= 16,
            cpu.v == old(cpu).v,
            cpu.i_reg == old(cpu).i_reg,
            cpu.pc == old(cpu).pc,
            cpu.sp == old(cpu).sp,
            cpu.stack == old(cpu).stack,
            cpu.sound == old(cpu).sound,
            cpu.delay == old(cpu).delay,
            cpu.run == old(cpu).run,
            forall|a: int|
                0 <= a < 4096 ==> cpu.ram@[a] == if a < 5 * digit {
                    glyph_rows((a / 5) as u8)[a % 5]
                } else {
                    old(cpu).ram@[a]
                },
        decreases 16 - digit,
    {
        let rows: [u8; 5] = glyph(digit);
        let base: usize = 5 * (digit as usize);
        let mut r: usize = 0;
        while r < 5
            invariant
                digit < 16,
                r <= 5,
                base == 5 * digit,
                rows@ == glyph_rows(digit),
                cpu.v == old(cpu).v,
                cpu.i_reg == old(cpu).i_reg,
                cpu.pc == old(cpu).pc,
                cpu.sp == old(cpu).sp,
                cpu.stack == old(cpu).stack,
                cpu.sound == old(cpu).sound,
                cpu.delay == old(cpu).delay,
                cpu.run == old(cpu).run,
                forall|a: int|
                    0 <= a < 4096 ==> cpu.ram@[a] == if a < base + r {
                        glyph_rows((a / 5) as u8)[a % 5]
                    } else {
                        old(cpu).ram@[a]
                    },
            decreases 5 - r,
        {
            cpu.ram[base + r] = rows[r];
            r = r + 1;
        }
        digit = digit + 1;
    }
    proof {
        assert(cpu.ram@.len() == 4096);
        assert(cpu.ram@ =~= after_font(old(cpu)@).ram);
    }
}

} // verus!
