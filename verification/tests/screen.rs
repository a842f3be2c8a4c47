use chip8::display::{cls, drw, Display};
use chip8::state::{create_cpu, Chip8Error};
use chip8::step::next_opcode;

fn lit(display: &Display) -> Vec<usize> {
    (0..2048).filter(|p| display.pixels[*p]).collect()
}

#[test]
fn a_new_display_is_blank() {
    let display = Display::new();
    assert_eq!(lit(&display), Vec::<usize>::new());
}

#[test]
fn draw_sets_the_sprite_pixels() {
    let mut cpu = create_cpu();
    let mut display = Display::new();
    cpu.i_reg = 0x300;
    cpu.ram[0x300] = 0b1010_0000;
    cpu.ram[0x301] = 0b0000_0001;
    cpu.v[1] = 4;
    cpu.v[2] = 2;
    cpu.v[15] = 5;
    assert_eq!(drw(&mut cpu, &mut display, 0xD122), Ok(()));
    assert_eq!(lit(&display), vec![2 * 64 + 4, 2 * 64 + 6, 3 * 64 + 11]);
    assert_eq!(cpu.v[15], 0);
    assert_eq!(cpu.i_reg, 0x300);
}

#[test]
fn drawing_twice_erases_and_sets_the_flag() {
    let mut cpu = create_cpu();
    let mut display = Display::new();
    cpu.i_reg = 0x300;
    cpu.ram[0x300] = 0xF0;
    cpu.ram[0x301] = 0x90;
    cpu.v[1] = 10;
    cpu.v[2] = 5;
    assert_eq!(drw(&mut cpu, &mut display, 0xD122), Ok(()));
    assert_eq!(cpu.v[15], 0);
    assert_eq!(lit(&display).len(), 6);
    assert_eq!(drw(&mut cpu, &mut display, 0xD122), Ok(()));
    assert_eq!(cpu.v[15], 1);
    assert_eq!(lit(&display), Vec::<usize>::new());
}

#[test]
fn sprites_wrap_at_both_edges() {
    let mut cpu = create_cpu();
    let mut display = Display::new();
    cpu.i_reg = 0x300;
    cpu.ram[0x300] = 0b1100_0000;
    cpu.ram[0x301] = 0b1100_0000;
    cpu.v[1] = 63;
    cpu.v[2] = 31;
    assert_eq!(drw(&mut cpu, &mut display, 0xD122), Ok(()));
    assert_eq!(lit(&display), vec![0, 63, 31 * 64, 31 * 64 + 63]);
}

#[test]
fn coordinates_are_taken_modulo_the_screen() {
    let mut cpu = create_cpu();
    let mut display = Display::new();
    cpu.i_reg = 0x300;
    cpu.ram[0x300] = 0x80;
    cpu.v[1] = 64 + 3;
    cpu.v[2] = 32 + 1;
    assert_eq!(drw(&mut cpu, &mut display, 0xD121), Ok(()));
    assert_eq!(lit(&display), vec![64 + 3]);
}

#[test]
fn partial_overlap_flips_and_reports() {
    let mut cpu = create_cpu();
    let mut display = Display::new();
    display.pixels[0] = true;
    display.pixels[5] = true;
    cpu.i_reg = 0x300;
    cpu.ram[0x300] = 0b1100_0000;
    assert_eq!(drw(&mut cpu, &mut display, 0xD001), Ok(()));
    assert_eq!(lit(&display), vec![1, 5]);
    assert_eq!(cpu.v[15], 1);
}

#[test]
fn a_sprite_of_no_rows_draws_nothing() {
    let mut cpu = create_cpu();
    let mut display = Display::new();
    display.pixels[7] = true;
    cpu.i_reg = 4096;
    cpu.v[15] = 1;
    assert_eq!(drw(&mut cpu, &mut display, 0xD000), Ok(()));
    assert_eq!(lit(&display), vec![7]);
    assert_eq!(cpu.v[15], 0);
}

#[test]
fn a_sprite_must_lie_in_memory() {
    let mut cpu = create_cpu();
    let mut display = Display::new();
    cpu.i_reg = 4090;
    cpu.ram[4090] = 0xFF;
    let before = cpu.clone();
    assert_eq!(drw(&mut cpu, &mut display, 0xD007), Err(Chip8Error::MemoryOutOfBounds));
    assert_eq!(cpu, before);
    assert_eq!(lit(&display), Vec::<usize>::new());
    assert_eq!(drw(&mut cpu, &mut display, 0xD006), Ok(()));
    assert_eq!(lit(&display).len(), 8);
}

#[test]
fn cls_turns_every_pixel_off() {
    let mut display = Display::new();
    display.pixels[0] = true;
    display.pixels[2047] = true;
    cls(&mut display);
    assert_eq!(lit(&display), Vec::<usize>::new());
    cls(&mut display);
    assert_eq!(lit(&display), Vec::<usize>::new());
}

#[test]
fn cls_in_a_cycle_leaves_the_processor() {
    let mut cpu = create_cpu();
    let mut display = Display::new();
    let keys = [false; 16];
    display.pixels[100] = true;
    cpu.ram[0x200] = 0x00;
    cpu.ram[0x201] = 0xE0;
    cpu.pc = 0x200;
    assert_eq!(next_opcode(&mut cpu, &mut display, &keys, 0), Ok(()));
    assert_eq!(lit(&display), Vec::<usize>::new());
    assert_eq!(cpu.pc, 0x202);
}

#[test]
fn drawing_twice_on_lit_cells_restores_them() {
    let mut cpu = create_cpu();
    let mut display = Display::new();
    display.pixels[0] = true;
    cpu.i_reg = 0x300;
    cpu.ram[0x300] = 0x80;
    assert_eq!(drw(&mut cpu, &mut display, 0xD121), Ok(()));
    assert_eq!(cpu.v[15], 1);
    assert_eq!(lit(&display), Vec::<usize>::new());
    assert_eq!(drw(&mut cpu, &mut display, 0xD121), Ok(()));
    assert_eq!(cpu.v[15], 0);
    assert_eq!(lit(&display), vec![0]);
}
