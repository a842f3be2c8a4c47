use chip8::display::Display;
use chip8::state::{
    create_cpu, load_program, sound_active, tick_timers, Chip8Error, RunState,
};
use chip8::step::{execute, fetch, next_opcode};

#[test]
fn a_new_processor_is_all_zero() {
    let cpu = create_cpu();
    assert!(cpu.ram.iter().all(|b| *b == 0));
    assert_eq!(cpu.v, [0u8; 16]);
    assert_eq!(cpu.stack, [0u16; 16]);
    assert_eq!((cpu.i_reg, cpu.pc, cpu.sp, cpu.sound, cpu.delay), (0, 0, 0, 0, 0));
    assert_eq!(cpu.run, RunState::Running);
}

#[test]
fn load_places_the_image_at_the_program_base() {
    let mut cpu = create_cpu();
    cpu.ram[0x1FF] = 0xAA;
    assert_eq!(load_program(&mut cpu, &[1, 2, 3]), Ok(()));
    assert_eq!(&cpu.ram[0x1FF..0x204], &[0xAA, 1, 2, 3, 0]);
    assert_eq!(cpu.pc, 0x200);
}

#[test]
fn load_rejects_an_image_that_is_too_long() {
    let mut cpu = create_cpu();
    let fits = vec![0x11u8; 3584];
    assert_eq!(load_program(&mut cpu, &fits), Ok(()));
    assert_eq!(cpu.ram[4095], 0x11);
    let mut other = create_cpu();
    let before = other.clone();
    let long = vec![0x11u8; 3585];
    assert_eq!(load_program(&mut other, &long), Err(Chip8Error::LoadError));
    assert_eq!(other, before);
}

#[test]
fn fetch_joins_two_bytes_big_endian() {
    let mut cpu = create_cpu();
    cpu.ram[0x200] = 0x12;
    cpu.ram[0x201] = 0x34;
    cpu.pc = 0x200;
    assert_eq!(fetch(&cpu), Ok(0x1234));
    assert_eq!(cpu.pc, 0x200);
}

#[test]
fn fetch_needs_both_bytes_in_memory() {
    let mut cpu = create_cpu();
    cpu.ram[4094] = 0xAB;
    cpu.ram[4095] = 0xCD;
    cpu.pc = 4094;
    assert_eq!(fetch(&cpu), Ok(0xABCD));
    cpu.pc = 4095;
    assert_eq!(fetch(&cpu), Err(Chip8Error::MemoryOutOfBounds));
    cpu.pc = 4096;
    assert_eq!(fetch(&cpu), Err(Chip8Error::MemoryOutOfBounds));
}

#[test]
fn load_and_add_program_runs() {
    let mut cpu = create_cpu();
    let mut display = Display::new();
    let keys = [false; 16];
    assert_eq!(load_program(&mut cpu, &[0x60, 0x05, 0x70, 0x03]), Ok(()));
    let start = cpu.pc;
    assert_eq!(next_opcode(&mut cpu, &mut display, &keys, 0), Ok(()));
    assert_eq!(next_opcode(&mut cpu, &mut display, &keys, 0), Ok(()));
    assert_eq!(cpu.v[0], 8);
    assert_eq!(cpu.pc, start + 4);
}

#[test]
fn call_and_return_program_runs() {
    let mut cpu = create_cpu();
    let mut display = Display::new();
    let keys = [false; 16];
    let mut image = vec![0u8; 0x102];
    image[0] = 0x23;
    image[1] = 0x00;
    image[0x100] = 0x00;
    image[0x101] = 0xEE;
    assert_eq!(load_program(&mut cpu, &image), Ok(()));
    assert_eq!(next_opcode(&mut cpu, &mut display, &keys, 0), Ok(()));
    assert_eq!(cpu.pc, 0x300);
    assert_eq!(cpu.sp, 1);
    assert_eq!(cpu.stack[0], 0x202);
    assert_eq!(next_opcode(&mut cpu, &mut display, &keys, 0), Ok(()));
    assert_eq!(cpu.pc, 0x202);
    assert_eq!(cpu.sp, 0);
}

#[test]
fn seventeenth_nested_call_overflows() {
    let mut cpu = create_cpu();
    let mut display = Display::new();
    let keys = [false; 16];
    assert_eq!(load_program(&mut cpu, &[0x22, 0x00]), Ok(()));
    for _ in 0..16 {
        assert_eq!(next_opcode(&mut cpu, &mut display, &keys, 0), Ok(()));
    }
    assert_eq!(cpu.sp, 16);
    let before = cpu.clone();
    assert_eq!(next_opcode(&mut cpu, &mut display, &keys, 0), Err(Chip8Error::StackOverflow));
    assert_eq!(cpu, before);
    assert_eq!(cpu.pc, 0x200);
}

#[test]
fn return_without_call_underflows() {
    let mut cpu = create_cpu();
    let mut display = Display::new();
    let keys = [false; 16];
    assert_eq!(load_program(&mut cpu, &[0x00, 0xEE]), Ok(()));
    assert_eq!(next_opcode(&mut cpu, &mut display, &keys, 0), Err(Chip8Error::StackUnderflow));
    assert_eq!(cpu.pc, 0x200);
    assert_eq!(cpu.sp, 0);
}

#[test]
fn unknown_opcode_is_reported_and_leaves_the_state() {
    let mut cpu = create_cpu();
    let mut display = Display::new();
    let keys = [false; 16];
    assert_eq!(load_program(&mut cpu, &[0x81, 0x28]), Ok(()));
    let before = cpu.clone();
    assert_eq!(
        next_opcode(&mut cpu, &mut display, &keys, 0),
        Err(Chip8Error::UnimplementedOpcode(0x8128))
    );
    assert_eq!(cpu, before);
    assert_eq!(
        execute(&mut cpu, &mut display, 0xE1FF, &keys, 0),
        Err(Chip8Error::UnimplementedOpcode(0xE1FF))
    );
    assert_eq!(cpu, before);
}

#[test]
fn running_off_the_end_of_memory_faults() {
    let mut cpu = create_cpu();
    let mut display = Display::new();
    let keys = [false; 16];
    cpu.pc = 4094;
    assert_eq!(next_opcode(&mut cpu, &mut display, &keys, 0), Ok(()));
    assert_eq!(cpu.pc, 4096);
    assert_eq!(next_opcode(&mut cpu, &mut display, &keys, 0), Err(Chip8Error::MemoryOutOfBounds));
    assert_eq!(cpu.pc, 4096);
}

#[test]
fn skip_in_a_cycle_passes_over_one_instruction() {
    let mut cpu = create_cpu();
    let mut display = Display::new();
    let keys = [false; 16];
    assert_eq!(load_program(&mut cpu, &[0x30, 0x00, 0x61, 0x01, 0x62, 0x02]), Ok(()));
    assert_eq!(next_opcode(&mut cpu, &mut display, &keys, 0), Ok(()));
    assert_eq!(cpu.pc, 0x204);
    assert_eq!(next_opcode(&mut cpu, &mut display, &keys, 0), Ok(()));
    assert_eq!((cpu.v[1], cpu.v[2]), (0, 2));
}

#[test]
fn random_byte_reaches_the_register() {
    let mut cpu = create_cpu();
    let mut display = Display::new();
    let keys = [false; 16];
    assert_eq!(load_program(&mut cpu, &[0xC4, 0x3C]), Ok(()));
    assert_eq!(next_opcode(&mut cpu, &mut display, &keys, 0xFF), Ok(()));
    assert_eq!(cpu.v[4], 0x3C);
}

#[test]
fn a_waiting_processor_does_not_fetch() {
    let mut cpu = create_cpu();
    let mut display = Display::new();
    let keys = [false; 16];
    assert_eq!(load_program(&mut cpu, &[0xF2, 0x0A, 0x63, 0x07]), Ok(()));
    assert_eq!(next_opcode(&mut cpu, &mut display, &keys, 0), Ok(()));
    assert_eq!(cpu.run, RunState::WaitingForKey(2));
    assert_eq!(cpu.pc, 0x202);
    let waiting = cpu.clone();
    assert_eq!(next_opcode(&mut cpu, &mut display, &keys, 0), Ok(()));
    assert_eq!(cpu, waiting);
    chip8::ops::key_pressed(&mut cpu, 9);
    assert_eq!(cpu.v[2], 9);
    assert_eq!(next_opcode(&mut cpu, &mut display, &keys, 0), Ok(()));
    assert_eq!(cpu.v[3], 7);
    assert_eq!(cpu.pc, 0x204);
}

#[test]
fn timers_run_down_to_zero_and_stay() {
    let mut cpu = create_cpu();
    cpu.delay = 3;
    cpu.sound = 1;
    assert!(sound_active(&cpu));
    tick_timers(&mut cpu);
    assert_eq!((cpu.delay, cpu.sound), (2, 0));
    assert!(!sound_active(&cpu));
    tick_timers(&mut cpu);
    tick_timers(&mut cpu);
    assert_eq!((cpu.delay, cpu.sound), (0, 0));
    tick_timers(&mut cpu);
    assert_eq!((cpu.delay, cpu.sound), (0, 0));
}

#[test]
fn a_full_timer_needs_255_ticks() {
    let mut cpu = create_cpu();
    cpu.delay = 255;
    for _ in 0..254 {
        tick_timers(&mut cpu);
    }
    assert_eq!(cpu.delay, 1);
    tick_timers(&mut cpu);
    assert_eq!(cpu.delay, 0);
}

#[test]
fn many_ticks_at_once_equal_single_ticks() {
    let mut cpu = create_cpu();
    cpu.delay = 200;
    cpu.sound = 3;
    chip8::clock::tick_many(&mut cpu, 5);
    assert_eq!((cpu.delay, cpu.sound), (195, 0));
    chip8::clock::tick_many(&mut cpu, 0);
    assert_eq!((cpu.delay, cpu.sound), (195, 0));
    chip8::clock::tick_many(&mut cpu, 195);
    assert_eq!(cpu.delay, 0);
    cpu.delay = 255;
    chip8::clock::tick_many(&mut cpu, u32::MAX);
    assert_eq!(cpu.delay, 0);
}

#[test]
fn clock_turns_one_second_into_sixty_ticks() {
    let mut clock = chip8::clock::TimerClock::new();
    assert_eq!(clock.advance(1_000_000), 60);
    assert_eq!(clock.pending, 0);
    assert_eq!(clock.advance(16_666), 0);
    assert_eq!(clock.pending, 999_960);
    assert_eq!(clock.advance(1), 1);
    assert_eq!(clock.pending, 20);
    assert_eq!(clock.advance(u32::MAX), 257_698);
    assert!(clock.is_valid());
}

#[test]
fn a_timer_set_to_n_is_zero_after_n_sixtieths_of_a_second() {
    let mut cpu = create_cpu();
    let mut clock = chip8::clock::TimerClock::new();
    cpu.delay = 120;
    let mut ticks = 0;
    for _ in 0..2000 {
        let due = clock.advance(1_000);
        chip8::clock::tick_many(&mut cpu, due);
        ticks += due;
    }
    assert_eq!(ticks, 120);
    assert_eq!(cpu.delay, 0);
}

#[test]
fn validity_is_stack_pointer_and_wait_register() {
    let mut cpu = create_cpu();
    assert!(cpu.is_valid());
    cpu.sp = 16;
    assert!(cpu.is_valid());
    cpu.sp = 17;
    assert!(!cpu.is_valid());
    cpu.sp = 0;
    cpu.run = RunState::WaitingForKey(16);
    assert!(!cpu.is_valid());
    cpu.run = RunState::WaitingForKey(15);
    assert!(cpu.is_valid());
}

#[test]
fn font_fills_the_first_eighty_cells() {
    let mut cpu = create_cpu();
    cpu.ram[80] = 0x77;
    chip8::font::install_font(&mut cpu);
    assert_eq!(&cpu.ram[0..5], &[0xF0, 0x90, 0x90, 0x90, 0xF0]);
    assert_eq!(&cpu.ram[5..10], &[0x20, 0x60, 0x20, 0x20, 0x70]);
    assert_eq!(&cpu.ram[75..81], &[0xF0, 0x80, 0xF0, 0x80, 0x80, 0x77]);
    assert_eq!(chip8::font::glyph(0x1A), [0xF0, 0x90, 0xF0, 0x90, 0x90]);
    cpu.v[3] = 0xA;
    chip8::ops::ld_f_vx(&mut cpu, 0xF329);
    let at = cpu.i_reg as usize;
    assert_eq!(&cpu.ram[at..at + 5], &chip8::font::glyph(0xA));
}
