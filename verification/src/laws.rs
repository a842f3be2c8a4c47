//! Laws of the machine that relate several operations.

use vstd::prelude::*;
use crate::state::{Chip8Error, Machine, RunState};
use crate::font::{after_font, glyph_rows};
use crate::decode::{decode_spec, Instruction};
use crate::display::{blit_spec, cell_of, collides, covers, erased, lemma_cell_of, sprite_bit};
use crate::ops::{
    after_add_byte, after_add_reg, after_call, after_ret, glyph_address, with_index, with_reg,
};
use crate::step::{can_fetch, cycle_spec, execute_spec, word_at};

verus! {

/// Loading byte `a` into Vx and then adding byte `b` to it leaves
/// (a + b) mod 256 in Vx and changes nothing else: every other register, the
/// flag register among them when x is not F, keeps its value.
pub proof fn law_load_then_add(s: Machine, x: u8, a: u8, b: u8)
    requires
        s.wf(),
        x < 16,
    ensures
        after_add_byte(with_reg(s, x, a), x, b).v[x as int] == (a + b) % 256,
        forall|j: int|
            0 <= j < 16 && j != x ==> after_add_byte(with_reg(s, x, a), x, b).v[j] == s.v[j],
        after_add_byte(with_reg(s, x, a), x, b) == (Machine {
            v: after_add_byte(with_reg(s, x, a), x, b).v,
            ..s
        }),
{
}

/// A register-register addition sets the flag register to 1 if the sum of the
/// two registers exceeds 255, and to 0 if it does not.
pub proof fn law_add_carry(s: Machine, x: u8, y: u8)
    requires
        s.wf(),
        x < 16,
        y < 16,
    ensures
        after_add_reg(s, x, y).v[15] == 1 <==> s.v[x as int] + s.v[y as int] > 255,
        after_add_reg(s, x, y).v[15] == 0 <==> s.v[x as int] + s.v[y as int] <= 255,
        x != 15 ==> after_add_reg(s, x, y).v[x as int] == (s.v[x as int] + s.v[y as int]) % 256,
{
}

/// A call that is followed at once by a return brings back the program counter
/// and the stack pointer that the call found; the return cannot underflow.
pub proof fn law_call_then_ret(s: Machine, nnn: u16)
    requires
        s.wf(),
        s.sp < 16,
    ensures
        after_call(s, nnn).sp > 0,
        after_ret(after_call(s, nnn)).pc == s.pc,
        after_ret(after_call(s, nnn)).sp == s.sp,
{
}

/// Two cycles, of which the first executes a call and the second, at the call's
/// target, a return, end without a fault, with the program counter just past
/// the call and the stack pointer where it was.
pub proof fn law_call_ret_cycles(
    s: Machine,
    d: Seq<bool>,
    keys: Seq<bool>,
    random: u8,
    nnn: u16,
)
    requires
        s.wf(),
        s.run == RunState::Running,
        s.sp < 16,
        can_fetch(s.pc),
        can_fetch(nnn),
        decode_spec(word_at(s.ram, s.pc)) == Some(Instruction::Call(nnn)),
        decode_spec(word_at(s.ram, nnn)) == Some(Instruction::Ret),
    ensures
        cycle_spec(s, d, keys, random).fault.is_none(),
        cycle_spec(s, d, keys, random).cpu.pc == nnn,
        cycle_spec(cycle_spec(s, d, keys, random).cpu, d, keys, random).fault.is_none(),
        cycle_spec(cycle_spec(s, d, keys, random).cpu, d, keys, random).cpu.pc == s.pc + 2,
        cycle_spec(cycle_spec(s, d, keys, random).cpu, d, keys, random).cpu.sp == s.sp,
{
}

/// The state after the calls to `targets`, in order, each on the state that the
/// one before it left.
pub open spec fn after_calls(s: Machine, targets: Seq<u16>) -> Machine
    decreases targets.len(),
{
    if targets.len() == 0 {
        s
    } else {
        after_call(after_calls(s, targets.drop_last()), targets.last())
    }
}

/// Calls succeed as long as the stack has a free slot: on an empty stack, any
/// run of at most 16 calls finds a free slot at every call and leaves as many
/// slots in use as there were calls. After 16 of them the stack is full, which
/// is the state in which a call fails with `StackOverflow`.
pub proof fn law_stack_depth(s: Machine, targets: Seq<u16>)
    requires
        s.wf(),
        s.sp == 0,
        targets.len() <= 16,
    ensures
        after_calls(s, targets).wf(),
        after_calls(s, targets).sp == targets.len(),
        forall|k: int|
            0 <= k < targets.len() ==> (#[trigger] after_calls(s, targets.take(k))).sp < 16,
    decreases targets.len(),
{
    if targets.len() > 0 {
        let front = targets.drop_last();
        law_stack_depth(s, front);
        assert forall|k: int| 0 <= k < targets.len() implies (#[trigger] after_calls(
            s,
            targets.take(k),
        )).sp < 16 by {
            if k < front.len() {
                assert(targets.take(k) =~= front.take(k));
            } else {
                assert(targets.take(k) =~= front);
            }
        }
    }
}

/// A call on a full stack faults with `StackOverflow`, and a return on an empty
/// stack with `StackUnderflow`; with a free slot, or a call outstanding, they
/// do not fault.
pub proof fn law_stack_bounds(
    s: Machine,
    d: Seq<bool>,
    keys: Seq<bool>,
    random: u8,
    call_word: u16,
    nnn: u16,
    ret_word: u16,
)
    requires
        s.wf(),
        decode_spec(call_word) == Some(Instruction::Call(nnn)),
        decode_spec(ret_word) == Some(Instruction::Ret),
    ensures
        execute_spec(s, d, call_word, keys, random).fault == if s.sp == 16 {
            Some(Chip8Error::StackOverflow)
        } else {
            None
        },
        execute_spec(s, d, ret_word, keys, random).fault == if s.sp == 0 {
            Some(Chip8Error::StackUnderflow)
        } else {
            None
        },
{
}

/// A byte that is not zero has a set bit in one of its eight columns.
pub proof fn lemma_set_column(row: u8) -> (c: u8)
    requires
        row != 0,
    ensures
        c < 8,
        sprite_bit(row, c),
{
    assert(row != 0 ==> (row & (0x80u8 >> 0u8) != 0 || row & (0x80u8 >> 1u8) != 0 || row & (0x80u8
        >> 2u8) != 0 || row & (0x80u8 >> 3u8) != 0 || row & (0x80u8 >> 4u8) != 0 || row & (0x80u8
        >> 5u8) != 0 || row & (0x80u8 >> 6u8) != 0 || row & (0x80u8 >> 7u8) != 0)) by (bit_vector);
    if sprite_bit(row, 0) {
        0
    } else if sprite_bit(row, 1) {
        1
    } else if sprite_bit(row, 2) {
        2
    } else if sprite_bit(row, 3) {
        3
    } else if sprite_bit(row, 4) {
        4
    } else if sprite_bit(row, 5) {
        5
    } else if sprite_bit(row, 6) {
        6
    } else {
        7
    }
}

/// Drawing a sprite twice at the same place gives back the frame buffer that
/// was there before, whatever it held.
pub proof fn law_blit_twice_restores(d: Seq<bool>, sprite: Seq<u8>, x0: u8, y0: u8)
    requires
        d.len() == 2048,
    ensures
        blit_spec(blit_spec(d, sprite, x0, y0), sprite, x0, y0) =~= d,
{
}

/// Whether cell `p` is off and the sprite, drawn at (x0, y0), covers it: the
/// draw lights the cell.
pub open spec fn lit_by(d: Seq<bool>, sprite: Seq<u8>, x0: u8, y0: u8, p: int) -> bool {
    !d[p] && covers(sprite, x0, y0, p)
}

/// The second of two draws of a sprite at the same place reports a collision
/// exactly when the first one lit a pixel, that is, when the sprite covers a
/// cell that was off before the first draw.
pub proof fn law_second_blit_collides(d: Seq<bool>, sprite: Seq<u8>, x0: u8, y0: u8)
    requires
        d.len() == 2048,
    ensures
        collides(blit_spec(d, sprite, x0, y0), sprite, x0, y0) <==> exists|p: int|
            0 <= p < 2048 && #[trigger] lit_by(d, sprite, x0, y0, p),
{
    let once = blit_spec(d, sprite, x0, y0);
    if collides(once, sprite, x0, y0) {
        let p = choose|p: int| 0 <= p < 2048 && #[trigger] erased(once, sprite, x0, y0, p);
        assert(lit_by(d, sprite, x0, y0, p));
    }
    if exists|p: int| 0 <= p < 2048 && #[trigger] lit_by(d, sprite, x0, y0, p) {
        let p = choose|p: int| 0 <= p < 2048 && #[trigger] lit_by(d, sprite, x0, y0, p);
        assert(erased(once, sprite, x0, y0, p));
    }
}

/// A sprite with a byte that is not zero, drawn on cells that are all off,
/// erases nothing; drawn there a second time it erases a pixel, so that the
/// second draw reports a collision, and the cells are off again.
pub proof fn law_blit_twice_collides(d: Seq<bool>, sprite: Seq<u8>, x0: u8, y0: u8)
    requires
        d.len() == 2048,
        sprite.len() <= 15,
        exists|r: int| 0 <= r < sprite.len() && sprite[r] != 0,
        forall|p: int| 0 <= p < 2048 && covers(sprite, x0, y0, p) ==> !d[p],
    ensures
        !collides(d, sprite, x0, y0),
        collides(blit_spec(d, sprite, x0, y0), sprite, x0, y0),
        blit_spec(blit_spec(d, sprite, x0, y0), sprite, x0, y0) =~= d,
{
    let r = choose|r: int| 0 <= r < sprite.len() && sprite[r] != 0;
    let c = lemma_set_column(sprite[r]);
    lemma_cell_of(x0, y0, r, c as int);
    let p = cell_of(x0, y0, r, c as int);
    assert(covers(sprite, x0, y0, p));
    assert(erased(blit_spec(d, sprite, x0, y0), sprite, x0, y0, p));
    assert forall|q: int| 0 <= q < 2048 implies !#[trigger] erased(d, sprite, x0, y0, q) by {}
}

/// Once the digit sprites are installed, the address that the index register
/// gets for a register value `a` is where the five rows of the sprite for the
/// low hexadecimal digit of `a` stand.
pub proof fn law_glyph_is_found(s: Machine, a: u8)
    requires
        s.wf(),
    ensures
        with_index(after_font(s), glyph_address(a)).ram.subrange(
            glyph_address(a) as int,
            glyph_address(a) + 5,
        ) =~= glyph_rows(a),
{
    let d = a % 16;
    let at = glyph_address(a) as int;
    assert(at == 5 * d);
    let ram = after_font(s).ram;
    assert forall|r: int| 0 <= r < 5 implies ram[at + r] == glyph_rows(a)[r] by {
        assert((at + r) / 5 == d);
        assert((at + r) % 5 == r);
        assert(glyph_rows(d) == glyph_rows(a));
    }
}

/// An instruction that faults changes nothing: the processor state and the
/// frame buffer are the ones it found. The same holds of a whole cycle, so that
/// after a fault the program counter is the address of the faulting instruction.
pub proof fn law_fault_changes_nothing(
    s: Machine,
    d: Seq<bool>,
    word: u16,
    keys: Seq<bool>,
    random: u8,
)
    ensures
        execute_spec(s, d, word, keys, random).fault.is_some() ==> execute_spec(
            s,
            d,
            word,
            keys,
            random,
        ).cpu == s && execute_spec(s, d, word, keys, random).display == d,
        cycle_spec(s, d, keys, random).fault.is_some() ==> cycle_spec(s, d, keys, random).cpu == s
            && cycle_spec(s, d, keys, random).display == d,
{
}

/// A cycle keeps a well-formed state well-formed.
pub proof fn law_cycle_keeps_wf(s: Machine, d: Seq<bool>, keys: Seq<bool>, random: u8)
    requires
        s.wf(),
    ensures
        cycle_spec(s, d, keys, random).cpu.wf(),
{
    let t = Machine { pc: (s.pc + 2) as u16, ..s };
    lemma_execute_keeps_wf(t, d, word_at(s.ram, s.pc), keys, random);
}

/// Executing one instruction keeps a well-formed state well-formed.
pub proof fn lemma_execute_keeps_wf(s: Machine, d: Seq<bool>, word: u16, keys: Seq<bool>, random: u8)
    requires
        s.wf(),
    ensures
        execute_spec(s, d, word, keys, random).cpu.wf(),
{
    assert(((word & 0x0F00) >> 8) < 16) by (bit_vector);
}

/// Executing `LD Vx, a` and then `ADD Vx, b` faults at neither, leaves
/// (a + b) mod 256 in Vx, and leaves every other register as it was, the flag
/// register among them when x is not F.
pub proof fn law_load_then_add_executed(
    s: Machine,
    d: Seq<bool>,
    keys: Seq<bool>,
    random: u8,
    load: u16,
    add: u16,
    x: u8,
    a: u8,
    b: u8,
)
    requires
        s.wf(),
        decode_spec(load) == Some(Instruction::LdByte(x, a)),
        decode_spec(add) == Some(Instruction::AddByte(x, b)),
    ensures
        execute_spec(s, d, load, keys, random).fault.is_none(),
        execute_spec(execute_spec(s, d, load, keys, random).cpu, d, add, keys, random).fault.is_none(),
        execute_spec(execute_spec(s, d, load, keys, random).cpu, d, add, keys, random).cpu.v[x as int]
            == (a + b) % 256,
        forall|j: int|
            0 <= j < 16 && j != x ==> execute_spec(
                execute_spec(s, d, load, keys, random).cpu,
                d,
                add,
                keys,
                random,
            ).cpu.v[j] == s.v[j],
{
    assert(((load & 0x0F00) >> 8) < 16) by (bit_vector);
    law_load_then_add(s, x, a, b);
}

/// Executing the same draw instruction twice, with coordinate registers other
/// than VF, a sprite that has a byte that is not zero, and a frame buffer that
/// is off where the sprite falls: the first draw sets VF to 0, the second sets
/// VF to 1 and gives back the frame buffer from before the first.
pub proof fn law_draw_twice_executed(
    s: Machine,
    d: Seq<bool>,
    keys: Seq<bool>,
    random: u8,
    word: u16,
    x: u8,
    y: u8,
    n: u8,
)
    requires
        s.wf(),
        d.len() == 2048,
        decode_spec(word) == Some(Instruction::Drw(x, y, n)),
        x != 15,
        y != 15,
        s.i_reg + n <= 4096,
        exists|a: int| s.i_reg <= a < s.i_reg + n && s.ram[a] != 0,
        forall|p: int|
            0 <= p < 2048 && covers(
                s.ram.subrange(s.i_reg as int, s.i_reg + n),
                s.v[x as int],
                s.v[y as int],
                p,
            ) ==> !d[p],
    ensures
        ({
            let first = execute_spec(s, d, word, keys, random);
            let second = execute_spec(first.cpu, first.display, word, keys, random);
            &&& first.fault.is_none()
            &&& first.cpu.v[15] == 0
            &&& second.fault.is_none()
            &&& second.cpu.v[15] == 1
            &&& second.display =~= d
        }),
{
    assert(((word & 0x0F00) >> 8) < 16 && ((word & 0x00F0) >> 4) < 16 && (word & 0x000F) < 16)
        by (bit_vector);
    let sprite = s.ram.subrange(s.i_reg as int, s.i_reg + n);
    let a = choose|a: int| s.i_reg <= a < s.i_reg + n && s.ram[a] != 0;
    assert(sprite[a - s.i_reg] != 0);
    law_blit_twice_collides(d, sprite, s.v[x as int], s.v[y as int]);
    let first = execute_spec(s, d, word, keys, random);
    assert(first.cpu.ram == s.ram);
    assert(first.cpu.v[x as int] == s.v[x as int]);
    assert(first.cpu.v[y as int] == s.v[y as int]);
}

} // verus!
