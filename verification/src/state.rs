//! The processor state and its mathematical model.

use vstd::prelude::*;

verus! {

/// The faults that stop the machine.
#[derive(Debug, Clone, Copy, PartialEq, Eq, Structural)]
pub enum Chip8Error {
    /// A program image does not fit between the program base and the end of memory.
    LoadError,
    /// The instruction word names no known operation.
    UnimplementedOpcode(u16),
    /// A call with all stack slots in use.
    StackOverflow,
    /// A return with no call outstanding.
    StackUnderflow,
    /// The program counter or the index register left the addressable range.
    MemoryOutOfBounds,
}

/// Whether the processor fetches instructions or waits for a key press.
#[derive(Debug, Clone, Copy, PartialEq, Eq, Structural)]
pub enum RunState {
    Running,
    /// Suspended until a key press arrives; the payload is the register that receives the key.
    WaitingForKey(u8),
}

/// The processor state.
#[derive(Debug, Clone, PartialEq, Eq)]
pub struct Cpu {
    pub ram: [u8; 4096],
    pub v: [u8; 16],
    pub i_reg: u16,
    pub pc: u16,
    pub sp: u8,
    pub stack: [u16; 16],
    pub sound: u8,
    pub delay: u8,
    pub run: RunState,
}

/// The processor state as a mathematical value.
pub struct Machine {
    pub ram: Seq<u8>,
    pub v: Seq<u8>,
    pub i_reg: u16,
    pub pc: u16,
    pub sp: u8,
    pub stack: Seq<u16>,
    pub sound: u8,
    pub delay: u8,
    pub run: RunState,
}

impl Machine {
    /// The shape every reachable state has: full-size memory, register file and
    /// stack, a stack pointer of at most 16, and a valid register to wait on.
    pub open spec fn wf(self) -> bool {
        &&& self.ram.len() == 4096
        &&& self.v.len() == 16
        &&& self.stack.len() == 16
        &&& self.sp <= 16
        &&& match self.run {
            RunState::Running => true,
            RunState::WaitingForKey(x) => x < 16,
        }
    }
}

impl View for Cpu {
    type V = Machine;

    open spec fn view(&self) -> Machine {
        Machine {
            ram: self.ram@,
            v: self.v@,
            i_reg: self.i_reg,
            pc: self.pc,
            sp: self.sp,
            stack: self.stack@,
            sound: self.sound,
            delay: self.delay,
            run: self.run,
        }
    }
}

impl Cpu {
    /// Well-formedness of the concrete state: that of its model.
    pub open spec fn wf(&self) -> bool {
        self@.wf()
    }

    /// Tests well-formedness: the stack pointer is at most 16, and a processor
    /// that waits for a key waits on one of the 16 registers.
    pub fn is_valid(&self) -> (ok: bool)
        ensures
            ok == self.wf(),
    {
        let run_ok = match self.run {
            RunState::Running => true,
            RunState::WaitingForKey(x) => x < 16,
        };
        self.sp <= 16 && run_ok
    }
}

/// The state at power-on: everything zero, processor running.
pub open spec fn power_on() -> Machine {
    Machine {
        ram: Seq::new(4096, |i: int| 0u8),
        v: Seq::new(16, |i: int| 0u8),
        i_reg: 0,
        pc: 0,
        sp: 0,
        stack: Seq::new(16, |i: int| 0u16),
        sound: 0,
        delay: 0,
        run: RunState::Running,
    }
}

/// Creates a processor with every field zeroed.
pub fn create_cpu() -> (cpu: Cpu)
    ensures
        cpu@ =~= power_on(),
        cpu.wf(),
{
    let ram = [0u8; 4096];
    let v = [0u8; 16];
    let stack = [0u16; 16];
    proof {
        assert(ram@ =~= power_on().ram);
        assert(v@ =~= power_on().v);
        assert(stack@ =~= power_on().stack);
    }
    Cpu {
        ram,
        v,
        i_reg: 0,
        pc: 0,
        sp: 0,
        stack,
        sound: 0,
        delay: 0,
        run: RunState::Running,
    }
}

/// The value of a timer one tick of the 60 Hz clock later.
pub open spec fn timer_tick(t: u8) -> u8 {
    if t > 0 { (t - 1) as u8 } else { 0 }
}

/// The state after one tick of the timer clock.
pub open spec fn tick(s: Machine) -> Machine {
    Machine { delay: timer_tick(s.delay), sound: timer_tick(s.sound), ..s }
}

/// One tick of the 60 Hz timer clock: each timer that is not yet zero goes down by one.
pub fn tick_timers(cpu: &mut Cpu)
    ensures
        final(cpu)@ == tick(old(cpu)@),
{
    if cpu.delay > 0 {
        cpu.delay = cpu.delay - 1;
    }
    if cpu.sound > 0 {
        cpu.sound = cpu.sound - 1;
    }
}

/// Whether the tone generator should sound: the sound timer has not run out.
pub fn sound_active(cpu: &Cpu) -> (on: bool)
    ensures
        on == (cpu.sound > 0),
{
    cpu.sound > 0
}

/// Whether a program image of `len` bytes fits between the program base and
/// the end of memory.
pub open spec fn program_fits(len: int) -> bool {
    len <= 4096 - 0x200
}

/// The state after a program image is loaded: its bytes stand from the program
/// base on, and the program counter is at the program base.
pub open spec fn after_load(s: Machine, image: Seq<u8>) -> Machine {
    Machine {
        ram: Seq::new(
            4096,
            |a: int|
                if 0x200 <= a < 0x200 + image.len() {
                    image[a - 0x200]
                } else {
                    s.ram[a]
                },
        ),
        pc: 0x200,
        ..s
    }
}

/// Copies a program image into memory from the program base on and points the
/// program counter at it. Fails with `LoadError`, changing nothing, exactly
/// when the image is longer than the memory above the program base.
pub fn load_program(cpu: &mut Cpu, image: &[u8]) -> (r: Result<(), Chip8Error>)
    ensures
        match r {
            Ok(_) => program_fits(image@.len() as int) && final(cpu)@ =~= after_load(
                old(cpu)@,
                image@,
            ),
            Err(e) => !program_fits(image@.len() as int) && e == Chip8Error::LoadError
                && final(cpu)@ == old(cpu)@,
        },
{
    let len: usize = image.len();
    if len > 4096 - 0x200 {
        return Err(Chip8Error::LoadError);
    }
    let mut k: usize = 0;
    while k < len
        invariant
            k <= len,
            len == image@.len(),
            len <= 4096 - 0x200,
            cpu.v == old(cpu).v,
            cpu.i_reg == old(cpu).i_reg,
            cpu.pc == old(cpu).pc,
            cpu.sp == old(cpu).sp,
            cpu.stack == old(cpu).stack,
            cpu.sound == old(cpu).sound,
            cpu.delay == old(cpu).delay,
            cpu.run == old(cpu).run,
            forall|a: int|
                0 <= a < 4096 ==> cpu.ram@[a] == if 0x200 <= a < 0x200 + k {
                    image@[a - 0x200]
                } else {
                    old(cpu).ram@[a]
                },
        decreases len - k,
    {
        cpu.ram[0x200 + k] = image[k];
        k = k + 1;
    }
    cpu.pc = 0x200;
    proof {
        assert(cpu.ram@.len() == 4096);
        assert(cpu.ram@ =~= after_load(old(cpu)@, image@).ram);
    }
    Ok(())
}

} // verus!
