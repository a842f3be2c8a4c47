//! The operations on the processor alone: control flow, register arithmetic,
//! timers, the index register and memory transfers.
//!
//! Each operation has a spec function that gives the state after it, and a
//! handler that performs it on a `Cpu`. Handlers take the instruction word and
//! read their operands from its fields. A handler that fails leaves the state
//! as it was.
//!
//! Where an arithmetic operation writes both Vx and the flag register VF, the
//! result is written first and the flag last, so that with x = F the flag stays.

use vstd::prelude::*;
use crate::state::{Chip8Error, Cpu, Machine, RunState};
use crate::decode::{op_x, op_y, op_kk, op_nnn, field_x, field_y, field_kk, field_nnn};

verus! {

/// The state with register `x` set to `val`.
pub open spec fn with_reg(s: Machine, x: u8, val: u8) -> Machine {
    Machine { v: s.v.update(x as int, val), ..s }
}

/// The state with register `x` set to `val`, and then VF set to `flag`.
pub open spec fn with_flag(s: Machine, x: u8, val: u8, flag: u8) -> Machine {
    Machine { v: s.v.update(x as int, val).update(15, flag), ..s }
}

/// The state with the program counter set to `pc`.
pub open spec fn with_pc(s: Machine, pc: u16) -> Machine {
    Machine { pc, ..s }
}

/// The state with the index register set to `i`.
pub open spec fn with_index(s: Machine, i: u16) -> Machine {
    Machine { i_reg: i, ..s }
}

/// Whether a skip can be taken: the program counter after it is still a 16-bit value.
pub open spec fn skip_fits(s: Machine, taken: bool) -> bool {
    taken ==> s.pc <= 0xFFFD
}

/// The state after a conditional skip: the program counter two further on if taken.
pub open spec fn after_skip(s: Machine, taken: bool) -> Machine {
    if taken {
        with_pc(s, (s.pc + 2) as u16)
    } else {
        s
    }
}

/// The state after a return: the newest return address popped into the program counter.
pub open spec fn after_ret(s: Machine) -> Machine {
    Machine { sp: (s.sp - 1) as u8, pc: s.stack[s.sp - 1], ..s }
}

/// The state after a call: the program counter pushed, then set to the target.
pub open spec fn after_call(s: Machine, nnn: u16) -> Machine {
    Machine { stack: s.stack.update(s.sp as int, s.pc), sp: (s.sp + 1) as u8, pc: nnn, ..s }
}

/// The state after adding a byte to Vx: the sum modulo 256, no flag.
pub open spec fn after_add_byte(s: Machine, x: u8, kk: u8) -> Machine {
    with_reg(s, x, ((s.v[x as int] + kk) % 256) as u8)
}

/// The state after a register-register addition: sum modulo 256, VF the carry.
pub open spec fn after_add_reg(s: Machine, x: u8, y: u8) -> Machine {
    let sum = s.v[x as int] + s.v[y as int];
    with_flag(s, x, (sum % 256) as u8, if sum > 255 { 1 } else { 0 })
}

/// The state after Vx = Vx - Vy modulo 256, VF set when no borrow occurs.
pub open spec fn after_sub(s: Machine, x: u8, y: u8) -> Machine {
    let a = s.v[x as int];
    let b = s.v[y as int];
    with_flag(s, x, ((a - b) % 256) as u8, if a >= b { 1 } else { 0 })
}

/// The state after Vx = Vy - Vx modulo 256, VF set when no borrow occurs.
pub open spec fn after_subn(s: Machine, x: u8, y: u8) -> Machine {
    let a = s.v[x as int];
    let b = s.v[y as int];
    with_flag(s, x, ((b - a) % 256) as u8, if b >= a { 1 } else { 0 })
}

/// The state after a right shift of Vx by one: VF is the bit shifted out.
pub open spec fn after_shr(s: Machine, x: u8) -> Machine {
    let a = s.v[x as int];
    with_flag(s, x, a / 2, a % 2)
}

/// The state after a left shift of Vx by one: VF is the bit shifted out.
pub open spec fn after_shl(s: Machine, x: u8) -> Machine {
    let a = s.v[x as int];
    with_flag(s, x, ((a * 2) % 256) as u8, a / 128)
}

/// The index register after adding a register to it: the sum wraps at 12 bits.
pub open spec fn index_plus(i: u16, a: u8) -> u16 {
    ((i + a) % 4096) as u16
}

/// The address of the built-in sprite for the low hexadecimal digit of `a`.
pub open spec fn glyph_address(a: u8) -> u16 {
    ((a % 16) * 5) as u16
}

/// Whether a block of `len` cells starting at the index register lies in memory.
pub open spec fn block_fits(s: Machine, len: int) -> bool {
    s.i_reg + len <= 4096
}

/// The state after storing the three decimal digits of `a` at I, I+1 and I+2.
pub open spec fn after_bcd(s: Machine, a: u8) -> Machine {
    let i = s.i_reg as int;
    Machine {
        ram: s.ram.update(i, a / 100).update(i + 1, (a / 10) % 10).update(i + 2, a % 10),
        ..s
    }
}

/// The state after storing V0 to Vx at I, I+1, ...: I ends x + 1 further on.
pub open spec fn after_store_block(s: Machine, x: u8) -> Machine {
    Machine {
        ram: Seq::new(
            4096,
            |a: int|
                if s.i_reg <= a <= s.i_reg + x {
                    s.v[a - s.i_reg]
                } else {
                    s.ram[a]
                },
        ),
        i_reg: (s.i_reg + x + 1) as u16,
        ..s
    }
}

/// The state after loading V0 to Vx from I, I+1, ...: I ends x + 1 further on.
pub open spec fn after_load_block(s: Machine, x: u8) -> Machine {
    Machine {
        v: Seq::new(
            16,
            |j: int|
                if j <= x {
                    s.ram[s.i_reg + j]
                } else {
                    s.v[j]
                },
        ),
        i_reg: (s.i_reg + x + 1) as u16,
        ..s
    }
}

/// Whether key `k` is held down on a keypad of 16 keys; no key has a value above 15.
pub open spec fn key_down(keys: Seq<bool>, k: u8) -> bool {
    k < 16 && keys[k as int]
}

/// The state after a key press arrives: a waiting processor stores the key in
/// the register it waits on and runs again; otherwise nothing changes.
pub open spec fn after_key(s: Machine, key: u8) -> Machine {
    match s.run {
        RunState::WaitingForKey(x) if key < 16 => Machine {
            v: s.v.update(x as int, key),
            run: RunState::Running,
            ..s
        },
        _ => s,
    }
}

/// Advances the program counter by one instruction if `taken`. Fails with
/// `MemoryOutOfBounds`, changing nothing, only where the new program counter
/// would not be a 16-bit value.
pub fn skip_when(cpu: &mut Cpu, taken: bool) -> (r: Result<(), Chip8Error>)
    ensures
        match r {
            Ok(_) => skip_fits(old(cpu)@, taken) && final(cpu)@ == after_skip(old(cpu)@, taken),
            Err(e) => !skip_fits(old(cpu)@, taken) && e == Chip8Error::MemoryOutOfBounds
                && final(cpu)@ == old(cpu)@,
        },
{
    if taken {
        if cpu.pc > 0xFFFD {
            return Err(Chip8Error::MemoryOutOfBounds);
        }
        cpu.pc = cpu.pc + 2;
    }
    Ok(())
}

/// `00EE` RET: pops the newest return address into the program counter.
/// Fails with `StackUnderflow` exactly when the stack is empty.
pub fn ret(cpu: &mut Cpu) -> (r: Result<(), Chip8Error>)
    requires
        old(cpu).wf(),
    ensures
        final(cpu).wf(),
        match r {
            Ok(_) => old(cpu).sp > 0 && final(cpu)@ == after_ret(old(cpu)@),
            Err(e) => old(cpu).sp == 0 && e == Chip8Error::StackUnderflow && final(cpu)@ == old(cpu)@,
        },
{
    if cpu.sp == 0 {
        return Err(Chip8Error::StackUnderflow);
    }
    cpu.sp = cpu.sp - 1;
    cpu.pc = cpu.stack[cpu.sp as usize];
    Ok(())
}

/// `0nnn` SYS: a call into machine code of the host, which this machine ignores.
pub fn sys(cpu: &mut Cpu, opcode: u16)
    ensures
        final(cpu)@ == old(cpu)@,
{
}

/// `1nnn` JP: sets the program counter to nnn.
pub fn jp_addr(cpu: &mut Cpu, opcode: u16)
    ensures
        final(cpu)@ == with_pc(old(cpu)@, op_nnn(opcode)),
{
    cpu.pc = field_nnn(opcode);
}

/// `2nnn` CALL: pushes the program counter, which the fetch has already moved
/// to the following instruction, and jumps to nnn. Fails with `StackOverflow`
/// exactly when all 16 slots are in use.
pub fn call(cpu: &mut Cpu, opcode: u16) -> (r: Result<(), Chip8Error>)
    requires
        old(cpu).wf(),
    ensures
        final(cpu).wf(),
        match r {
            Ok(_) => old(cpu).sp < 16 && final(cpu)@ =~= after_call(old(cpu)@, op_nnn(opcode)),
            Err(e) => old(cpu).sp == 16 && e == Chip8Error::StackOverflow && final(cpu)@ == old(cpu)@,
        },
{
    if cpu.sp >= 16 {
        return Err(Chip8Error::StackOverflow);
    }
    cpu.stack[cpu.sp as usize] = cpu.pc;
    cpu.sp = cpu.sp + 1;
    cpu.pc = field_nnn(opcode);
    Ok(())
}

/// `3xkk` SE: skips the next instruction if Vx equals kk.
pub fn se_vx_byte(cpu: &mut Cpu, opcode: u16) -> (r: Result<(), Chip8Error>)
    ensures
        ({
            let s = old(cpu)@;
            let taken = s.v[op_x(opcode) as int] == op_kk(opcode);
            match r {
                Ok(_) => skip_fits(s, taken) && final(cpu)@ == after_skip(s, taken),
                Err(e) => !skip_fits(s, taken) && e == Chip8Error::MemoryOutOfBounds && final(cpu)@ == s,
            }
        }),
{
    let x: u8 = field_x(opcode);
    let kk: u8 = field_kk(opcode);
    let taken = cpu.v[x as usize] == kk;
    skip_when(cpu, taken)
}

/// `4xkk` SNE: skips the next instruction if Vx differs from kk.
pub fn sne_vx_byte(cpu: &mut Cpu, opcode: u16) -> (r: Result<(), Chip8Error>)
    ensures
        ({
            let s = old(cpu)@;
            let taken = s.v[op_x(opcode) as int] != op_kk(opcode);
            match r {
                Ok(_) => skip_fits(s, taken) && final(cpu)@ == after_skip(s, taken),
                Err(e) => !skip_fits(s, taken) && e == Chip8Error::MemoryOutOfBounds
                    && final(cpu)@ == s,
            }
        }),
{
    let x: u8 = field_x(opcode);
    let kk: u8 = field_kk(opcode);
    let taken = cpu.v[x as usize] != kk;
    skip_when(cpu, taken)
}

/// `5xy_` SE: skips the next instruction if Vx equals Vy.
pub fn se_vx_vy(cpu: &mut Cpu, opcode: u16) -> (r: Result<(), Chip8Error>)
    ensures
        ({
            let s = old(cpu)@;
            let taken = s.v[op_x(opcode) as int] == s.v[op_y(opcode) as int];
            match r {
                Ok(_) => skip_fits(s, taken) && final(cpu)@ == after_skip(s, taken),
                Err(e) => !skip_fits(s, taken) && e == Chip8Error::MemoryOutOfBounds
                    && final(cpu)@ == s,
            }
        }),
{
    let x: u8 = field_x(opcode);
    let y: u8 = field_y(opcode);
    let taken = cpu.v[x as usize] == cpu.v[y as usize];
    skip_when(cpu, taken)
}

/// `9xy_` SNE: skips the next instruction if Vx differs from Vy.
pub fn sne_vx_vy(cpu: &mut Cpu, opcode: u16) -> (r: Result<(), Chip8Error>)
    ensures
        ({
            let s = old(cpu)@;
            let taken = s.v[op_x(opcode) as int] != s.v[op_y(opcode) as int];
            match r {
                Ok(_) => skip_fits(s, taken) && final(cpu)@ == after_skip(s, taken),
                Err(e) => !skip_fits(s, taken) && e == Chip8Error::MemoryOutOfBounds
                    && final(cpu)@ == s,
            }
        }),
{
    let x: u8 = field_x(opcode);
    let y: u8 = field_y(opcode);
    let taken = cpu.v[x as usize] != cpu.v[y as usize];
    skip_when(cpu, taken)
}

/// `Ex9E` SKP: skips the next instruction if the key whose value is Vx is down.
pub fn skp_vx(cpu: &mut Cpu, opcode: u16, keys: &[bool; 16]) -> (r: Result<(), Chip8Error>)
    ensures
        ({
            let s = old(cpu)@;
            let taken = key_down(keys@, s.v[op_x(opcode) as int]);
            match r {
                Ok(_) => skip_fits(s, taken) && final(cpu)@ == after_skip(s, taken),
                Err(e) => !skip_fits(s, taken) && e == Chip8Error::MemoryOutOfBounds
                    && final(cpu)@ == s,
            }
        }),
{
    let x: u8 = field_x(opcode);
    let k: u8 = cpu.v[x as usize];
    let taken = k < 16 && keys[k as usize];
    skip_when(cpu, taken)
}

/// `ExA1` SKNP: skips the next instruction if the key whose value is Vx is not down.
pub fn sknp_vx(cpu: &mut Cpu, opcode: u16, keys: &[bool; 16]) -> (r: Result<(), Chip8Error>)
    ensures
        ({
            let s = old(cpu)@;
            let taken = !key_down(keys@, s.v[op_x(opcode) as int]);
            match r {
                Ok(_) => skip_fits(s, taken) && final(cpu)@ == after_skip(s, taken),
                Err(e) => !skip_fits(s, taken) && e == Chip8Error::MemoryOutOfBounds
                    && final(cpu)@ == s,
            }
        }),
{
    let x: u8 = field_x(opcode);
    let k: u8 = cpu.v[x as usize];
    let taken = !(k < 16 && keys[k as usize]);
    skip_when(cpu, taken)
}

/// `6xkk` LD: Vx = kk.
pub fn ld_vx_byte(cpu: &mut Cpu, opcode: u16)
    ensures
        final(cpu)@ =~= with_reg(old(cpu)@, op_x(opcode), op_kk(opcode)),
{
    let x: u8 = field_x(opcode);
    cpu.v[x as usize] = field_kk(opcode);
}

/// `7xkk` ADD: Vx = (Vx + kk) mod 256. The flag register is not written.
pub fn add_vx_byte(cpu: &mut Cpu, opcode: u16)
    ensures
        ({
            let s = old(cpu)@;
            let x = op_x(opcode);
            final(cpu)@ =~= after_add_byte(s, x, op_kk(opcode))
        }),
{
    let x: u8 = field_x(opcode);
    let kk: u8 = field_kk(opcode);
    let sum: u16 = cpu.v[x as usize] as u16 + kk as u16;
    cpu.v[x as usize] = (sum % 256) as u8;
}

/// `8xy0` LD: Vx = Vy.
pub fn ld_vx_vy(cpu: &mut Cpu, opcode: u16)
    ensures
        ({
            let s = old(cpu)@;
            let x = op_x(opcode);
            let y = op_y(opcode);
            final(cpu)@ =~= with_reg(s, x, s.v[y as int])
        }),
{
    let x: u8 = field_x(opcode);
    let y: u8 = field_y(opcode);
    cpu.v[x as usize] = cpu.v[y as usize];
}

/// `8xy1` OR: Vx = Vx | Vy.
pub fn or_vx_vy(cpu: &mut Cpu, opcode: u16)
    ensures
        ({
            let s = old(cpu)@;
            let x = op_x(opcode);
            let y = op_y(opcode);
            final(cpu)@ =~= with_reg(s, x, s.v[x as int] | s.v[y as int])
        }),
{
    let x: u8 = field_x(opcode);
    let y: u8 = field_y(opcode);
    cpu.v[x as usize] = cpu.v[x as usize] | cpu.v[y as usize];
}

/// `8xy2` AND: Vx = Vx & Vy.
pub fn and_vx_vy(cpu: &mut Cpu, opcode: u16)
    ensures
        ({
            let s = old(cpu)@;
            let x = op_x(opcode);
            let y = op_y(opcode);
            final(cpu)@ =~= with_reg(s, x, s.v[x as int] & s.v[y as int])
        }),
{
    let x: u8 = field_x(opcode);
    let y: u8 = field_y(opcode);
    cpu.v[x as usize] = cpu.v[x as usize] & cpu.v[y as usize];
}

/// `8xy3` XOR: Vx = Vx ^ Vy.
pub fn xor_vx_vy(cpu: &mut Cpu, opcode: u16)
    ensures
        ({
            let s = old(cpu)@;
            let x = op_x(opcode);
            let y = op_y(opcode);
            final(cpu)@ =~= with_reg(s, x, s.v[x as int] ^ s.v[y as int])
        }),
{
    let x: u8 = field_x(opcode);
    let y: u8 = field_y(opcode);
    cpu.v[x as usize] = cpu.v[x as usize] ^ cpu.v[y as usize];
}

/// `8xy4` ADD: Vx = (Vx + Vy) mod 256, and VF = 1 exactly when the sum exceeds 255.
pub fn add_vx_vy(cpu: &mut Cpu, opcode: u16)
    ensures
        final(cpu)@ =~= after_add_reg(old(cpu)@, op_x(opcode), op_y(opcode)),
        final(cpu).v[15] == 1 <==> old(cpu).v[op_x(opcode) as int] + old(cpu).v[op_y(opcode) as int] > 255,
{
    let x: u8 = field_x(opcode);
    let y: u8 = field_y(opcode);
    let sum: u16 = cpu.v[x as usize] as u16 + cpu.v[y as usize] as u16;
    cpu.v[x as usize] = (sum % 256) as u8;
    cpu.v[15] = if sum > 255 { 1 } else { 0 };
}

/// `8xy5` SUB: Vx = (Vx - Vy) mod 256, and VF = 1 exactly when Vx >= Vy.
pub fn sub_vx_vy(cpu: &mut Cpu, opcode: u16)
    ensures
        ({
            let s = old(cpu)@;
            let x = op_x(opcode);
            let y = op_y(opcode);
            final(cpu)@ =~= after_sub(s, x, y)
        }),
{
    let x: u8 = field_x(opcode);
    let y: u8 = field_y(opcode);
    let a: u8 = cpu.v[x as usize];
    let b: u8 = cpu.v[y as usize];
    let diff: u16 = (256 + a as u16 - b as u16) % 256;
    cpu.v[x as usize] = diff as u8;
    cpu.v[15] = if a >= b { 1 } else { 0 };
}

/// `8xy6` SHR: VF = the lowest bit of Vx, and Vx is halved. Vy is not read.
pub fn shr_vx_vy(cpu: &mut Cpu, opcode: u16)
    ensures
        ({
            let s = old(cpu)@;
            let x = op_x(opcode);
            let y = op_y(opcode);
            final(cpu)@ =~= after_shr(s, x)
        }),
{
    let x: u8 = field_x(opcode);
    let y: u8 = field_y(opcode);
    let a: u8 = cpu.v[x as usize];
    cpu.v[x as usize] = a / 2;
    cpu.v[15] = a % 2;
}

/// `8xy7` SUBN: Vx = (Vy - Vx) mod 256, and VF = 1 exactly when Vy >= Vx.
pub fn subn_vx_vy(cpu: &mut Cpu, opcode: u16)
    ensures
        ({
            let s = old(cpu)@;
            let x = op_x(opcode);
            let y = op_y(opcode);
            final(cpu)@ =~= after_subn(s, x, y)
        }),
{
    let x: u8 = field_x(opcode);
    let y: u8 = field_y(opcode);
    let a: u8 = cpu.v[x as usize];
    let b: u8 = cpu.v[y as usize];
    let diff: u16 = (256 + b as u16 - a as u16) % 256;
    cpu.v[x as usize] = diff as u8;
    cpu.v[15] = if b >= a { 1 } else { 0 };
}

/// `8xyE` SHL: VF = the highest bit of Vx, and Vx is doubled modulo 256. Vy is not read.
pub fn shl_vx_vy(cpu: &mut Cpu, opcode: u16)
    ensures
        ({
            let s = old(cpu)@;
            let x = op_x(opcode);
            let y = op_y(opcode);
            final(cpu)@ =~= after_shl(s, x)
        }),
{
    let x: u8 = field_x(opcode);
    let y: u8 = field_y(opcode);
    let a: u8 = cpu.v[x as usize];
    cpu.v[x as usize] = ((a as u16 * 2) % 256) as u8;
    cpu.v[15] = a / 128;
}

/// `Annn` LD I: I = nnn.
pub fn ld_i_addr(cpu: &mut Cpu, opcode: u16)
    ensures
        final(cpu)@ == with_index(old(cpu)@, op_nnn(opcode)),
{
    cpu.i_reg = field_nnn(opcode);
}

/// `Bnnn` JP V0: sets the program counter to nnn + V0.
pub fn jp_v0_addr(cpu: &mut Cpu, opcode: u16)
    ensures
        final(cpu)@ == with_pc(old(cpu)@, (op_nnn(opcode) + old(cpu).v[0]) as u16),
        final(cpu).pc == op_nnn(opcode) + old(cpu).v[0],
{
    let nnn: u16 = field_nnn(opcode);
    cpu.pc = nnn + cpu.v[0] as u16;
}

/// `Cxkk` RND: Vx = `random` & kk, where `random` is a byte that the caller drew.
pub fn rnd(cpu: &mut Cpu, opcode: u16, random: u8)
    ensures
        final(cpu)@ =~= with_reg(old(cpu)@, op_x(opcode), random & op_kk(opcode)),
{
    let x: u8 = field_x(opcode);
    let kk: u8 = field_kk(opcode);
    cpu.v[x as usize] = random & kk;
}

/// `Fx07` LD Vx, DT: Vx = the delay timer.
pub fn ld_vx_dt(cpu: &mut Cpu, opcode: u16)
    ensures
        final(cpu)@ =~= with_reg(old(cpu)@, op_x(opcode), old(cpu).delay),
{
    let x: u8 = field_x(opcode);
    cpu.v[x as usize] = cpu.delay;
}

/// `Fx0A` LD Vx, K: suspends the processor until a key press arrives, which
/// `key_pressed` then stores in Vx. Nothing else changes.
pub fn ld_vx_k(cpu: &mut Cpu, opcode: u16)
    requires
        old(cpu).wf(),
    ensures
        final(cpu).wf(),
        final(cpu)@ == (Machine { run: RunState::WaitingForKey(op_x(opcode)), ..old(cpu)@ }),
{
    let x: u8 = field_x(opcode);
    cpu.run = RunState::WaitingForKey(x);
}

/// Delivers a key press. A processor that waits for a key stores the key's
/// value in the register it waits on and resumes running. A running processor,
/// or a value that is no key (above 15), leaves the state as it is.
pub fn key_pressed(cpu: &mut Cpu, key: u8)
    requires
        old(cpu).wf(),
    ensures
        final(cpu).wf(),
        final(cpu)@ =~= after_key(old(cpu)@, key),
{
    match cpu.run {
        RunState::WaitingForKey(x) => {
            if key < 16 {
                cpu.v[x as usize] = key;
                cpu.run = RunState::Running;
            }
        },
        RunState::Running => {},
    }
}

/// `Fx15` LD DT, Vx: the delay timer = Vx.
pub fn ld_dt_vx(cpu: &mut Cpu, opcode: u16)
    ensures
        final(cpu)@ == (Machine { delay: old(cpu).v[op_x(opcode) as int], ..old(cpu)@ }),
{
    let x: u8 = field_x(opcode);
    cpu.delay = cpu.v[x as usize];
}

/// `Fx18` LD ST, Vx: the sound timer = Vx.
pub fn ld_st_vx(cpu: &mut Cpu, opcode: u16)
    ensures
        final(cpu)@ == (Machine { sound: old(cpu).v[op_x(opcode) as int], ..old(cpu)@ }),
{
    let x: u8 = field_x(opcode);
    cpu.sound = cpu.v[x as usize];
}

/// `Fx1E` ADD I, Vx: I = (I + Vx) mod 4096, so that I stays a 12-bit address.
/// The flag register is not written.
pub fn add_i_vx(cpu: &mut Cpu, opcode: u16)
    ensures
        final(cpu)@ == with_index(
            old(cpu)@,
            index_plus(old(cpu).i_reg, old(cpu).v[op_x(opcode) as int]),
        ),
{
    let x: u8 = field_x(opcode);
    let sum: u32 = cpu.i_reg as u32 + cpu.v[x as usize] as u32;
    cpu.i_reg = (sum % 4096) as u16;
}

/// `Fx29` LD F, Vx: I = the address of the built-in sprite for the low
/// hexadecimal digit of Vx. The sprites are five bytes each and start at address 0.
pub fn ld_f_vx(cpu: &mut Cpu, opcode: u16)
    ensures
        final(cpu)@ == with_index(old(cpu)@, glyph_address(old(cpu).v[op_x(opcode) as int])),
{
    let x: u8 = field_x(opcode);
    let digit: u16 = (cpu.v[x as usize] % 16) as u16;
    cpu.i_reg = digit * 5;
}

/// `Fx33` LD B, Vx: stores the hundreds, tens and ones digit of Vx at I, I+1
/// and I+2. Fails with `MemoryOutOfBounds`, changing nothing, exactly when
/// these three cells do not all lie in memory.
pub fn ld_b_vx(cpu: &mut Cpu, opcode: u16) -> (r: Result<(), Chip8Error>)
    ensures
        ({
            let s = old(cpu)@;
            match r {
                Ok(_) => block_fits(s, 3) && final(cpu)@ =~= after_bcd(s, s.v[op_x(opcode) as int]),
                Err(e) => !block_fits(s, 3) && e == Chip8Error::MemoryOutOfBounds
                    && final(cpu)@ == s,
            }
        }),
{
    let x: u8 = field_x(opcode);
    if cpu.i_reg > 4093 {
        return Err(Chip8Error::MemoryOutOfBounds);
    }
    let a: u8 = cpu.v[x as usize];
    let i: usize = cpu.i_reg as usize;
    cpu.ram[i] = a / 100;
    cpu.ram[i + 1] = (a / 10) % 10;
    cpu.ram[i + 2] = a % 10;
    Ok(())
}

/// `Fx55` LD [I], Vx: stores V0 to Vx at I, I+1, ..., I+x; afterwards I is
/// I + x + 1. The index register stays put while the cells are written. Fails
/// with `MemoryOutOfBounds`, changing nothing, exactly when the x + 1 cells do
/// not all lie in memory.
pub fn ld_iref_vx(cpu: &mut Cpu, opcode: u16) -> (r: Result<(), Chip8Error>)
    ensures
        ({
            let s = old(cpu)@;
            let x = op_x(opcode);
            match r {
                Ok(_) => block_fits(s, x + 1) && final(cpu)@ =~= after_store_block(s, x),
                Err(e) => !block_fits(s, x + 1) && e == Chip8Error::MemoryOutOfBounds
                    && final(cpu)@ == s,
            }
        }),
{
    let x: u8 = field_x(opcode);
    if cpu.i_reg as u32 + x as u32 + 1 > 4096 {
        return Err(Chip8Error::MemoryOutOfBounds);
    }
    let base: usize = cpu.i_reg as usize;
    let mut j: usize = 0;
    while j <= x as usize
        invariant
            x < 16,
            j <= x + 1,
            base == old(cpu).i_reg,
            base + x + 1 <= 4096,
            cpu.v == old(cpu).v,
            cpu.i_reg == old(cpu).i_reg,
            cpu.pc == old(cpu).pc,
            cpu.sp == old(cpu).sp,
            cpu.stack == old(cpu).stack,
            cpu.sound == old(cpu).sound,
            cpu.delay == old(cpu).delay,
            cpu.run == old(cpu).run,
            forall|a: int|
                0 <= a < 4096 ==> cpu.ram@[a] == if base <= a < base + j {
                    old(cpu).v@[a - base]
                } else {
                    old(cpu).ram@[a]
                },
        decreases x + 1 - j,
    {
        cpu.ram[base + j] = cpu.v[j];
        j = j + 1;
    }
    cpu.i_reg = cpu.i_reg + x as u16 + 1;
    proof {
        let t = after_store_block(old(cpu)@, x);
        assert(cpu.ram@.len() == 4096);
        assert(cpu.ram@ =~= t.ram);
    }
    Ok(())
}

/// `Fx65` LD Vx, [I]: loads V0 to Vx from I, I+1, ..., I+x; afterwards I is
/// I + x + 1. The index register stays put while the cells are read. Fails
/// with `MemoryOutOfBounds`, changing nothing, exactly when the x + 1 cells do
/// not all lie in memory.
pub fn ld_vx_iref(cpu: &mut Cpu, opcode: u16) -> (r: Result<(), Chip8Error>)
    ensures
        ({
            let s = old(cpu)@;
            let x = op_x(opcode);
            match r {
                Ok(_) => block_fits(s, x + 1) && final(cpu)@ =~= after_load_block(s, x),
                Err(e) => !block_fits(s, x + 1) && e == Chip8Error::MemoryOutOfBounds
                    && final(cpu)@ == s,
            }
        }),
{
    let x: u8 = field_x(opcode);
    if cpu.i_reg as u32 + x as u32 + 1 > 4096 {
        return Err(Chip8Error::MemoryOutOfBounds);
    }
    let base: usize = cpu.i_reg as usize;
    let mut j: usize = 0;
    while j <= x as usize
        invariant
            x < 16,
            j <= x + 1,
            base == old(cpu).i_reg,
            base + x + 1 <= 4096,
            cpu.ram == old(cpu).ram,
            cpu.i_reg == old(cpu).i_reg,
            cpu.pc == old(cpu).pc,
            cpu.sp == old(cpu).sp,
            cpu.stack == old(cpu).stack,
            cpu.sound == old(cpu).sound,
            cpu.delay == old(cpu).delay,
            cpu.run == old(cpu).run,
            forall|k: int|
                0 <= k < 16 ==> cpu.v@[k] == if k < j {
                    old(cpu).ram@[base + k]
                } else {
                    old(cpu).v@[k]
                },
        decreases x + 1 - j,
    {
        cpu.v[j] = cpu.ram[base + j];
        j = j + 1;
    }
    cpu.i_reg = cpu.i_reg + x as u16 + 1;
    proof {
        let t = after_load_block(old(cpu)@, x);
        assert(cpu.v@.len() == 16);
        assert(cpu.v@ =~= t.v);
    }
    Ok(())
}

} // verus!
