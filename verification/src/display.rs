//! The 64 by 32 monochrome frame buffer and the sprite blit.
//!
//! Pixel (px, py) is cell `py * 64 + px`. A sprite is a sequence of at most 15
//! bytes, one per row, the highest bit leftmost. It is drawn with its top left
//! corner at (x0 mod 64, y0 mod 32), wraps round both edges, and is combined
//! with the buffer by exclusive or.

use vstd::prelude::*;
use crate::state::{Chip8Error, Cpu};
use crate::decode::{op_x, op_y, op_n, field_x, field_y, field_n};
use crate::ops::{block_fits, with_reg};

verus! {

/// The frame buffer.
#[derive(Debug, Clone, PartialEq, Eq)]
pub struct Display {
    pub pixels: [bool; 2048],
}

impl View for Display {
    type V = Seq<bool>;

    open spec fn view(&self) -> Seq<bool> {
        self.pixels@
    }
}

/// The frame buffer with every pixel off.
pub open spec fn blank() -> Seq<bool> {
    Seq::new(2048, |p: int| false)
}

/// The column of cell `p` counted from the sprite's left edge, wrapping at 64.
pub open spec fn sprite_col(x0: u8, p: int) -> int {
    (p % 64 + 64 - x0 % 64) % 64
}

/// The row of cell `p` counted from the sprite's top edge, wrapping at 32.
pub open spec fn sprite_row(y0: u8, p: int) -> int {
    (p / 64 + 32 - y0 % 32) % 32
}

/// Whether column `c` of a sprite row is set: bit 7 is column 0.
pub open spec fn sprite_bit(row: u8, c: u8) -> bool {
    row & (0x80u8 >> c) != 0
}

/// Whether the sprite, drawn at (x0, y0), has a set pixel on cell `p`.
pub open spec fn covers(sprite: Seq<u8>, x0: u8, y0: u8, p: int) -> bool {
    let r = sprite_row(y0, p);
    let c = sprite_col(x0, p);
    r < sprite.len() && c < 8 && sprite_bit(sprite[r], c as u8)
}

/// The frame buffer after the sprite is drawn at (x0, y0): the cells that the
/// sprite covers are flipped, the others stay.
pub open spec fn blit_spec(d: Seq<bool>, sprite: Seq<u8>, x0: u8, y0: u8) -> Seq<bool> {
    Seq::new(2048, |p: int| d[p] != covers(sprite, x0, y0, p))
}

/// Whether drawing the sprite at (x0, y0) turns a lit pixel off.
pub open spec fn collides(d: Seq<bool>, sprite: Seq<u8>, x0: u8, y0: u8) -> bool {
    exists|p: int| 0 <= p < 2048 && #[trigger] erased(d, sprite, x0, y0, p)
}

/// Whether cell `p` is lit and the sprite covers it.
pub open spec fn erased(d: Seq<bool>, sprite: Seq<u8>, x0: u8, y0: u8, p: int) -> bool {
    d[p] && covers(sprite, x0, y0, p)
}

/// Whether the sprite covers cell `p` with a pixel that comes, row by row and
/// left to right, before column `c` of row `r`.
pub open spec fn drawn(sprite: Seq<u8>, x0: u8, y0: u8, r: int, c: int, p: int) -> bool {
    covers(sprite, x0, y0, p) && (sprite_row(y0, p) < r || (sprite_row(y0, p) == r && sprite_col(
        x0,
        p,
    ) < c))
}

/// Whether cell `p` is lit and `drawn` holds of it.
pub open spec fn erased_before(
    d: Seq<bool>,
    sprite: Seq<u8>,
    x0: u8,
    y0: u8,
    r: int,
    c: int,
    p: int,
) -> bool {
    d[p] && drawn(sprite, x0, y0, r, c, p)
}

/// The cell on which column `c` of row `r` of a sprite at (x0, y0) falls.
pub open spec fn cell_of(x0: u8, y0: u8, r: int, c: int) -> int {
    ((y0 + r) % 32) * 64 + (x0 + c) % 64
}

/// `cell_of` is the one cell with the given sprite row and column.
pub proof fn lemma_cell_of(x0: u8, y0: u8, r: int, c: int)
    requires
        0 <= r < 32,
        0 <= c < 64,
    ensures
        0 <= cell_of(x0, y0, r, c) < 2048,
        sprite_row(y0, cell_of(x0, y0, r, c)) == r,
        sprite_col(x0, cell_of(x0, y0, r, c)) == c,
        forall|p: int|
            0 <= p < 2048 && sprite_row(y0, p) == r && sprite_col(x0, p) == c ==> p == cell_of(
                x0,
                y0,
                r,
                c,
            ),
{
}

impl Display {
    /// Creates a frame buffer with every pixel off.
    pub fn new() -> (d: Display)
        ensures
            d@ =~= blank(),
    {
        let pixels = [false; 2048];
        proof {
            assert(pixels@ =~= blank());
        }
        Display { pixels }
    }

    /// Draws the `n` bytes of `ram` from `start` on as a sprite at (x0, y0), and
    /// reports whether a lit pixel was turned off. A sprite has at most 15 rows,
    /// and its bytes lie in memory.
    pub fn blit(&mut self, ram: &[u8; 4096], start: usize, n: usize, x0: u8, y0: u8) -> (hit: bool)
        requires
            n <= 15,
            start + n <= 4096,
        ensures
            final(self)@ =~= blit_spec(old(self)@, ram@.subrange(start as int, start + n), x0, y0),
            hit == collides(old(self)@, ram@.subrange(start as int, start + n), x0, y0),
    {
        let ghost sprite = ram@.subrange(start as int, start + n);
        let ghost d = self@;
        let mut hit = false;
        let mut r: usize = 0;
        while r < n
            invariant
                r <= n <= 15,
                start + n <= 4096,
                sprite == ram@.subrange(start as int, start + n),
                sprite.len() == n,
                d.len() == 2048,
                forall|p: int|
                    0 <= p < 2048 ==> self.pixels@[p] == (d[p] != drawn(sprite, x0, y0, r as int, 0, p)),
                hit <==> exists|p: int|
                    0 <= p < 2048 && #[trigger] erased_before(d, sprite, x0, y0, r as int, 0, p),
            decreases n - r,
        {
            let row: u8 = ram[start + r];
            let py: usize = (y0 as usize + r) % 32;
            let mut c: u8 = 0;
            while c < 8
                invariant
                    r < n <= 15,
                    c <= 8,
                    sprite.len() == n,
                    row == sprite[r as int],
                    py == (y0 + r) % 32,
                    d.len() == 2048,
                    forall|p: int|
                        0 <= p < 2048 ==> self.pixels@[p] == (d[p] != drawn(
                            sprite,
                            x0,
                            y0,
                            r as int,
                            c as int,
                            p,
                        )),
                    hit <==> exists|p: int|
                        0 <= p < 2048 && #[trigger] erased_before(
                            d,
                            sprite,
                            x0,
                            y0,
                            r as int,
                            c as int,
                            p,
                        ),
                decreases 8 - c,
            {
                let px: usize = (x0 as usize + c as usize) % 64;
                let cell: usize = py * 64 + px;
                proof {
                    lemma_cell_of(x0, y0, r as int, c as int);
                    assert(cell == cell_of(x0, y0, r as int, c as int));
                }
                let ghost before = hit;
                if row & (0x80u8 >> c) != 0 {
                    if self.pixels[cell] {
                        hit = true;
                    }
                    self.pixels[cell] = !self.pixels[cell];
                }
                proof {
                    let r0 = r as int;
                    let c0 = c as int;
                    assert forall|p: int| 0 <= p < 2048 implies self.pixels@[p] == (d[p] != drawn(
                        sprite,
                        x0,
                        y0,
                        r0,
                        c0 + 1,
                        p,
                    )) by {
                        assert(drawn(sprite, x0, y0, r0, c0 + 1, p) == (drawn(
                            sprite,
                            x0,
                            y0,
                            r0,
                            c0,
                            p,
                        ) || (p == cell && sprite_bit(row, c))));
                    }
                    assert(!drawn(sprite, x0, y0, r0, c0, cell as int));
                    if hit {
                        if before {
                            let p = choose|p: int|
                                0 <= p < 2048 && #[trigger] erased_before(
                                    d,
                                    sprite,
                                    x0,
                                    y0,
                                    r0,
                                    c0,
                                    p,
                                );
                            assert(erased_before(d, sprite, x0, y0, r0, c0 + 1, p));
                        } else {
                            assert(erased_before(d, sprite, x0, y0, r0, c0 + 1, cell as int));
                        }
                    } else {
                        assert forall|p: int| 0 <= p < 2048 implies !#[trigger] erased_before(
                            d,
                            sprite,
                            x0,
                            y0,
                            r0,
                            c0 + 1,
                            p,
                        ) by {
                            assert(!erased_before(d, sprite, x0, y0, r0, c0, p));
                        }
                    }
                }
                c = c + 1;
            }
            proof {
                let r0 = r as int;
                assert forall|p: int| 0 <= p < 2048 implies drawn(sprite, x0, y0, r0, 8, p) == drawn(
                    sprite,
                    x0,
                    y0,
                    r0 + 1,
                    0,
                    p,
                ) by {}
                assert forall|p: int| 0 <= p < 2048 implies erased_before(
                    d,
                    sprite,
                    x0,
                    y0,
                    r0,
                    8,
                    p,
                ) == #[trigger] erased_before(d, sprite, x0, y0, r0 + 1, 0, p) by {}
                if hit {
                    let p = choose|p: int|
                        0 <= p < 2048 && #[trigger] erased_before(d, sprite, x0, y0, r0, 8, p);
                    assert(erased_before(d, sprite, x0, y0, r0 + 1, 0, p));
                }
            }
            r = r + 1;
        }
        proof {
            assert forall|p: int| 0 <= p < 2048 implies drawn(sprite, x0, y0, n as int, 0, p)
                == covers(sprite, x0, y0, p) by {}
            assert(self@ =~= blit_spec(d, sprite, x0, y0));
            if hit {
                let p = choose|p: int|
                    0 <= p < 2048 && #[trigger] erased_before(d, sprite, x0, y0, n as int, 0, p);
                assert(erased(d, sprite, x0, y0, p));
            }
            if collides(d, sprite, x0, y0) {
                let p = choose|p: int| 0 <= p < 2048 && #[trigger] erased(d, sprite, x0, y0, p);
                assert(erased_before(d, sprite, x0, y0, n as int, 0, p));
            }
        }
        hit
    }
}

/// `00E0` CLS: turns every pixel off.
pub fn cls(display: &mut Display)
    ensures
        final(display)@ =~= blank(),
{
    let mut p: usize = 0;
    while p < 2048
        invariant
            p <= 2048,
            forall|q: int| 0 <= q < p ==> !display.pixels@[q],
        decreases 2048 - p,
    {
        display.pixels[p] = false;
        p = p + 1;
    }
}

/// `Dxyn` DRW: draws the n bytes at I as a sprite at (Vx, Vy), and sets VF to 1
/// if a lit pixel was turned off, to 0 if none was. Fails with
/// `MemoryOutOfBounds`, changing nothing, exactly when the n bytes do not all
/// lie in memory.
pub fn drw(cpu: &mut Cpu, display: &mut Display, opcode: u16) -> (r: Result<(), Chip8Error>)
    ensures
        ({
            let s = old(cpu)@;
            let n = op_n(opcode);
            let sprite = s.ram.subrange(s.i_reg as int, s.i_reg + n);
            let x0 = s.v[op_x(opcode) as int];
            let y0 = s.v[op_y(opcode) as int];
            match r {
                Ok(_) => {
                    &&& block_fits(s, n as int)
                    &&& final(display)@ =~= blit_spec(old(display)@, sprite, x0, y0)
                    &&& final(cpu)@ =~= with_reg(
                        s,
                        15,
                        if collides(old(display)@, sprite, x0, y0) {
                            1
                        } else {
                            0
                        },
                    )
                },
                Err(e) => {
                    &&& !block_fits(s, n as int)
                    &&& e == Chip8Error::MemoryOutOfBounds
                    &&& final(cpu)@ == s
                    &&& final(display)@ == old(display)@
                },
            }
        }),
{
    let x: u8 = field_x(opcode);
    let y: u8 = field_y(opcode);
    let n: u8 = field_n(opcode);
    if cpu.i_reg as u32 + n as u32 > 4096 {
        return Err(Chip8Error::MemoryOutOfBounds);
    }
    let hit = display.blit(&cpu.ram, cpu.i_reg as usize, n as usize, cpu.v[x as usize], cpu.v[y as usize]);
    cpu.v[15] = if hit { 1 } else { 0 };
    Ok(())
}

} // verus!
