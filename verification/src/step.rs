//! The fetch, decode and execute cycle.

use vstd::prelude::*;
use crate::state::{Chip8Error, Cpu, Machine, RunState};
use crate::decode::{decode, decode_spec, Instruction};
use crate::display::{blank, blit_spec, cls, collides, drw, Display};
use crate::ops::{
    add_i_vx, add_vx_byte, add_vx_vy, after_add_byte, after_add_reg, after_bcd, after_call, after_load_block,
    after_ret, after_shl, after_shr, after_skip, after_store_block, after_sub, after_subn,
    and_vx_vy, block_fits, call, glyph_address, index_plus, jp_addr, jp_v0_addr, key_down,
    ld_b_vx, ld_dt_vx, ld_f_vx, ld_i_addr, ld_iref_vx, ld_st_vx, ld_vx_byte, ld_vx_dt,
    ld_vx_iref, ld_vx_k, ld_vx_vy, or_vx_vy, ret, rnd, se_vx_byte, se_vx_vy, shl_vx_vy,
    shr_vx_vy, sknp_vx, skip_fits, skp_vx, sne_vx_byte, sne_vx_vy, sub_vx_vy, subn_vx_vy, sys,
    with_index, with_pc, with_reg, xor_vx_vy,
};

verus! {

/// What one instruction, or one cycle, leaves behind: the fault if any, the
/// processor state and the frame buffer.
pub struct Outcome {
    /// The fault that stopped the instruction, if one did.
    pub fault: Option<Chip8Error>,
    pub cpu: Machine,
    pub display: Seq<bool>,
}

/// An outcome without a fault.
pub open spec fn done(s: Machine, d: Seq<bool>) -> Outcome {
    Outcome { fault: None, cpu: s, display: d }
}

/// A fault, which leaves state `s` and frame buffer `d` as they were.
pub open spec fn fault(e: Chip8Error, s: Machine, d: Seq<bool>) -> Outcome {
    Outcome { fault: Some(e), cpu: s, display: d }
}

/// Whether a result agrees with an outcome: `Ok` where there is no fault, else that fault.
pub open spec fn reports(r: Result<(), Chip8Error>, o: Outcome) -> bool {
    match r {
        Ok(_) => o.fault.is_none(),
        Err(e) => o.fault == Some(e),
    }
}

/// The outcome of an operation on the processor alone that succeeds when `ok`
/// holds, giving `t`, and otherwise fails with `e`.
pub open spec fn guarded(ok: bool, e: Chip8Error, s: Machine, t: Machine, d: Seq<bool>) -> Outcome {
    if ok {
        done(t, d)
    } else {
        fault(e, s, d)
    }
}

/// The outcome of a conditional skip.
pub open spec fn skip_outcome(s: Machine, d: Seq<bool>, taken: bool) -> Outcome {
    guarded(skip_fits(s, taken), Chip8Error::MemoryOutOfBounds, s, after_skip(s, taken), d)
}

/// The instruction word at address `pc`: the byte there is the high half, the next one the low half.
pub open spec fn word_at(ram: Seq<u8>, pc: u16) -> u16 {
    ((ram[pc as int] as u16) << 8) | (ram[pc + 1] as u16)
}

/// Whether a whole instruction word lies in memory at `pc`.
pub open spec fn can_fetch(pc: u16) -> bool {
    pc + 1 < 4096
}

/// The outcome of executing instruction `word` in state `s` with frame buffer
/// `d`, keypad `keys` and the random byte `random`.
pub open spec fn execute_spec(
    s: Machine,
    d: Seq<bool>,
    word: u16,
    keys: Seq<bool>,
    random: u8,
) -> Outcome {
    match decode_spec(word) {
        None => fault(Chip8Error::UnimplementedOpcode(word), s, d),
        Some(Instruction::Cls) => done(s, blank()),
        Some(Instruction::Ret) => guarded(s.sp > 0, Chip8Error::StackUnderflow, s, after_ret(s), d),
        Some(Instruction::Sys(_)) => done(s, d),
        Some(Instruction::Jp(nnn)) => done(with_pc(s, nnn), d),
        Some(Instruction::Call(nnn)) => guarded(
            s.sp < 16,
            Chip8Error::StackOverflow,
            s,
            after_call(s, nnn),
            d,
        ),
        Some(Instruction::SeByte(x, kk)) => skip_outcome(s, d, s.v[x as int] == kk),
        Some(Instruction::SneByte(x, kk)) => skip_outcome(s, d, s.v[x as int] != kk),
        Some(Instruction::SeReg(x, y)) => skip_outcome(s, d, s.v[x as int] == s.v[y as int]),
        Some(Instruction::SneReg(x, y)) => skip_outcome(s, d, s.v[x as int] != s.v[y as int]),
        Some(Instruction::LdByte(x, kk)) => done(with_reg(s, x, kk), d),
        Some(Instruction::AddByte(x, kk)) => done(after_add_byte(s, x, kk), d),
        Some(Instruction::LdReg(x, y)) => done(with_reg(s, x, s.v[y as int]), d),
        Some(Instruction::Or(x, y)) => done(with_reg(s, x, s.v[x as int] | s.v[y as int]), d),
        Some(Instruction::And(x, y)) => done(with_reg(s, x, s.v[x as int] & s.v[y as int]), d),
        Some(Instruction::Xor(x, y)) => done(with_reg(s, x, s.v[x as int] ^ s.v[y as int]), d),
        Some(Instruction::AddReg(x, y)) => done(after_add_reg(s, x, y), d),
        Some(Instruction::Sub(x, y)) => done(after_sub(s, x, y), d),
        Some(Instruction::Shr(x, _)) => done(after_shr(s, x), d),
        Some(Instruction::Subn(x, y)) => done(after_subn(s, x, y), d),
        Some(Instruction::Shl(x, _)) => done(after_shl(s, x), d),
        Some(Instruction::LdI(nnn)) => done(with_index(s, nnn), d),
        Some(Instruction::JpV0(nnn)) => done(with_pc(s, (nnn + s.v[0]) as u16), d),
        Some(Instruction::Rnd(x, kk)) => done(with_reg(s, x, random & kk), d),
        Some(Instruction::Drw(x, y, n)) => {
            let sprite = s.ram.subrange(s.i_reg as int, s.i_reg + n);
            let x0 = s.v[x as int];
            let y0 = s.v[y as int];
            if block_fits(s, n as int) {
                done(
                    with_reg(s, 15, if collides(d, sprite, x0, y0) { 1 } else { 0 }),
                    blit_spec(d, sprite, x0, y0),
                )
            } else {
                fault(Chip8Error::MemoryOutOfBounds, s, d)
            }
        },
        Some(Instruction::Skp(x)) => skip_outcome(s, d, key_down(keys, s.v[x as int])),
        Some(Instruction::Sknp(x)) => skip_outcome(s, d, !key_down(keys, s.v[x as int])),
        Some(Instruction::LdVxDt(x)) => done(with_reg(s, x, s.delay), d),
        Some(Instruction::LdVxK(x)) => done(Machine { run: RunState::WaitingForKey(x), ..s }, d),
        Some(Instruction::LdDtVx(x)) => done(Machine { delay: s.v[x as int], ..s }, d),
        Some(Instruction::LdStVx(x)) => done(Machine { sound: s.v[x as int], ..s }, d),
        Some(Instruction::AddI(x)) => done(with_index(s, index_plus(s.i_reg, s.v[x as int])), d),
        Some(Instruction::LdF(x)) => done(with_index(s, glyph_address(s.v[x as int])), d),
        Some(Instruction::LdB(x)) => guarded(
            block_fits(s, 3),
            Chip8Error::MemoryOutOfBounds,
            s,
            after_bcd(s, s.v[x as int]),
            d,
        ),
        Some(Instruction::StoreBlock(x)) => guarded(
            block_fits(s, x + 1),
            Chip8Error::MemoryOutOfBounds,
            s,
            after_store_block(s, x),
            d,
        ),
        Some(Instruction::LoadBlock(x)) => guarded(
            block_fits(s, x + 1),
            Chip8Error::MemoryOutOfBounds,
            s,
            after_load_block(s, x),
            d,
        ),
    }
}

/// The outcome of one cycle. A processor that waits for a key does nothing. A
/// running one fetches the word at the program counter, moves the program
/// counter past it, and executes the word; a fault anywhere leaves the state as
/// it was before the cycle, the program counter still at the faulting instruction.
pub open spec fn cycle_spec(s: Machine, d: Seq<bool>, keys: Seq<bool>, random: u8) -> Outcome {
    if s.run != RunState::Running {
        done(s, d)
    } else if !can_fetch(s.pc) {
        fault(Chip8Error::MemoryOutOfBounds, s, d)
    } else {
        let o = execute_spec(
            with_pc(s, (s.pc + 2) as u16),
            d,
            word_at(s.ram, s.pc),
            keys,
            random,
        );
        match o.fault {
            None => o,
            Some(e) => fault(e, s, d),
        }
    }
}

/// Reads the instruction word at the program counter. Fails with
/// `MemoryOutOfBounds` exactly when the word does not lie in memory.
pub fn fetch(cpu: &Cpu) -> (r: Result<u16, Chip8Error>)
    ensures
        match r {
            Ok(word) => can_fetch(cpu.pc) && word == word_at(cpu@.ram, cpu.pc),
            Err(e) => !can_fetch(cpu.pc) && e == Chip8Error::MemoryOutOfBounds,
        },
{
    if cpu.pc > 4094 {
        return Err(Chip8Error::MemoryOutOfBounds);
    }
    let hi: u16 = cpu.ram[cpu.pc as usize] as u16;
    let lo: u16 = cpu.ram[cpu.pc as usize + 1] as u16;
    Ok((hi << 8) | lo)
}

/// Decodes and executes one instruction word. The program counter must already
/// point past the instruction. A fault changes nothing.
pub fn execute(
    cpu: &mut Cpu,
    display: &mut Display,
    word: u16,
    keys: &[bool; 16],
    random: u8,
) -> (r: Result<(), Chip8Error>)
    requires
        old(cpu).wf(),
    ensures
        final(cpu).wf(),
        ({
            let o = execute_spec(old(cpu)@, old(display)@, word, keys@, random);
            &&& reports(r, o)
            &&& final(cpu)@ =~= o.cpu
            &&& final(display)@ =~= o.display
        }),
{
    let instruction = match decode(word) {
        Ok(i) => i,
        Err(e) => {
            return Err(e);
        },
    };
    match instruction {
        Instruction::Cls => {
            cls(display);
            Ok(())
        },
        Instruction::Ret => ret(cpu),
        Instruction::Sys(_) => {
            sys(cpu, word);
            Ok(())
        },
        Instruction::Jp(_) => {
            jp_addr(cpu, word);
            Ok(())
        },
        Instruction::Call(_) => call(cpu, word),
        Instruction::SeByte(_, _) => se_vx_byte(cpu, word),
        Instruction::SneByte(_, _) => sne_vx_byte(cpu, word),
        Instruction::SeReg(_, _) => se_vx_vy(cpu, word),
        Instruction::SneReg(_, _) => sne_vx_vy(cpu, word),
        Instruction::LdByte(_, _) => {
            ld_vx_byte(cpu, word);
            Ok(())
        },
        Instruction::AddByte(_, _) => {
            add_vx_byte(cpu, word);
            Ok(())
        },
        Instruction::LdReg(_, _) => {
            ld_vx_vy(cpu, word);
            Ok(())
        },
        Instruction::Or(_, _) => {
            or_vx_vy(cpu, word);
            Ok(())
        },
        Instruction::And(_, _) => {
            and_vx_vy(cpu, word);
            Ok(())
        },
        Instruction::Xor(_, _) => {
            xor_vx_vy(cpu, word);
            Ok(())
        },
        Instruction::AddReg(_, _) => {
            add_vx_vy(cpu, word);
            Ok(())
        },
        Instruction::Sub(_, _) => {
            sub_vx_vy(cpu, word);
            Ok(())
        },
        Instruction::Shr(_, _) => {
            shr_vx_vy(cpu, word);
            Ok(())
        },
        Instruction::Subn(_, _) => {
            subn_vx_vy(cpu, word);
            Ok(())
        },
        Instruction::Shl(_, _) => {
            shl_vx_vy(cpu, word);
            Ok(())
        },
        Instruction::LdI(_) => {
            ld_i_addr(cpu, word);
            Ok(())
        },
        Instruction::JpV0(_) => {
            jp_v0_addr(cpu, word);
            Ok(())
        },
        Instruction::Rnd(_, _) => {
            rnd(cpu, word, random);
            Ok(())
        },
        Instruction::Drw(_, _, _) => drw(cpu, display, word),
        Instruction::Skp(_) => skp_vx(cpu, word, keys),
        Instruction::Sknp(_) => sknp_vx(cpu, word, keys),
        Instruction::LdVxDt(_) => {
            ld_vx_dt(cpu, word);
            Ok(())
        },
        Instruction::LdVxK(_) => {
            ld_vx_k(cpu, word);
            Ok(())
        },
        Instruction::LdDtVx(_) => {
            ld_dt_vx(cpu, word);
            Ok(())
        },
        Instruction::LdStVx(_) => {
            ld_st_vx(cpu, word);
            Ok(())
        },
        Instruction::AddI(_) => {
            add_i_vx(cpu, word);
            Ok(())
        },
        Instruction::LdF(_) => {
            ld_f_vx(cpu, word);
            Ok(())
        },
        Instruction::LdB(_) => ld_b_vx(cpu, word),
        Instruction::StoreBlock(_) => ld_iref_vx(cpu, word),
        Instruction::LoadBlock(_) => ld_vx_iref(cpu, word),
    }
}

/// Runs one cycle: fetch, advance the program counter, decode, execute. A
/// processor that waits for a key is left alone. On a fault the state is the
/// one before the cycle, so the program counter names the faulting instruction.
pub fn next_opcode(
    cpu: &mut Cpu,
    display: &mut Display,
    keys: &[bool; 16],
    random: u8,
) -> (r: Result<(), Chip8Error>)
    requires
        old(cpu).wf(),
    ensures
        final(cpu).wf(),
        ({
            let o = cycle_spec(old(cpu)@, old(display)@, keys@, random);
            &&& reports(r, o)
            &&& final(cpu)@ =~= o.cpu
            &&& final(display)@ =~= o.display
        }),
{
    match cpu.run {
        RunState::WaitingForKey(_) => {
            return Ok(());
        },
        RunState::Running => {},
    }
    let word: u16 = match fetch(cpu) {
        Ok(w) => w,
        Err(e) => {
            return Err(e);
        },
    };
    let at: u16 = cpu.pc;
    cpu.pc = at + 2;
    match execute(cpu, display, word, keys, random) {
        Ok(_) => Ok(()),
        Err(e) => {
            cpu.pc = at;
            Err(e)
        },
    }
}

} // verus!
