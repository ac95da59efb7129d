use chip8::instruction::Instruction;
use chip8::{Chip8, Quirks};

const NO_KEYS: [u8; 16] = [0; 16];

fn machine() -> Chip8 {
    Chip8::new(Quirks::default())
}

fn lit_pixels(chip8: &Chip8) -> Vec<usize> {
    let display = chip8.get_display();
    (0..display.len()).filter(|p| display[*p] != 0).collect()
}

#[test]
fn fresh_display_is_blank_and_has_2048_pixels() {
    let chip8 = machine();
    assert_eq!(chip8.get_display().len(), 64 * 32);
    assert!(lit_pixels(&chip8).is_empty());
    assert_eq!(chip8.get_v(), &[0u8; 16]);
    assert_eq!(chip8.get_stack(), &[0u16; 16]);
    assert_eq!(chip8.get_i(), 0);
    assert_eq!(chip8.get_timer_delay(), 0);
    assert_eq!(chip8.get_timer_sound(), 0);
}

#[test]
fn scenario_load_five_and_add_ten() {
    let mut chip8 = machine();
    chip8.load_rom(&[0x60, 0x05, 0x70, 0x0A]);
    chip8.tick(NO_KEYS);
    chip8.tick(NO_KEYS);
    assert_eq!(chip8.get_v_at(0), 15);
    assert_eq!(chip8.get_pc(), 0x204);
}

#[test]
fn scenario_skip_advances_by_four_or_by_two() {
    let mut chip8 = machine();
    chip8.load_rom(&[0x30, 0x55]);
    chip8.set_v(0, 0x55);
    let before = chip8.get_pc();
    chip8.tick(NO_KEYS);
    assert_eq!(chip8.get_pc(), before + 4);

    let mut chip8 = machine();
    chip8.load_rom(&[0x30, 0x55]);
    chip8.set_v(0, 0xAA);
    let before = chip8.get_pc();
    chip8.tick(NO_KEYS);
    assert_eq!(chip8.get_pc(), before + 2);
}

#[test]
fn draw_glyph_zero_at_origin() {
    let mut chip8 = machine();
    // I = glyph 0 (F0 90 90 90 F0), draw five rows at (V0, V1) = (0, 0).
    chip8.execute_opcode(0xA000, NO_KEYS);
    chip8.execute_opcode(0xD015, NO_KEYS);
    let expected: Vec<usize> = vec![
        0, 1, 2, 3,
        64, 67,
        128, 131,
        192, 195,
        256, 257, 258, 259,
    ];
    assert_eq!(lit_pixels(&chip8), expected);
    assert_eq!(chip8.get_v_at(0xF), 0);
    assert!(chip8.get_display().iter().all(|p| *p == 0 || *p == 1));
}

#[test]
fn draw_twice_restores_the_display_and_reports_the_collision() {
    let mut chip8 = machine();
    chip8.set_v(0, 10);
    chip8.set_v(1, 5);
    chip8.execute_opcode(0xA00A, NO_KEYS); // glyph 2
    chip8.execute_opcode(0xD015, NO_KEYS);
    assert_eq!(chip8.get_v_at(0xF), 0);
    assert!(!lit_pixels(&chip8).is_empty());
    chip8.execute_opcode(0xD015, NO_KEYS);
    assert_eq!(chip8.get_v_at(0xF), 1);
    assert!(lit_pixels(&chip8).is_empty());
}

#[test]
fn draw_twice_over_a_background_restores_it() {
    let mut chip8 = machine();
    chip8.execute_opcode(0xA000, NO_KEYS);
    chip8.execute_opcode(0xD005, NO_KEYS); // background: glyph 0 at (0, 0)
    let background = chip8.get_display().to_vec();

    chip8.set_v(1, 2);
    chip8.set_v(2, 1);
    chip8.execute_opcode(0xA005, NO_KEYS); // glyph 1
    chip8.execute_opcode(0xD125, NO_KEYS);
    let first_flag = chip8.get_v_at(0xF);
    assert_ne!(chip8.get_display(), &background[..]);
    chip8.execute_opcode(0xD125, NO_KEYS);
    assert_eq!(chip8.get_display(), &background[..]);
    // Glyph 1 has bits that land on unlit pixels, so the second draw hits them.
    assert_eq!(chip8.get_v_at(0xF), 1);
    // Row 0 of glyph 1 (0x20) lands on pixel 4, which was off; row 1 (0x60)
    // lands on pixels 131 and 132, of which 131 was on.
    assert_eq!(first_flag, 1);
}

#[test]
fn collision_flag_is_kept_by_later_bits_that_do_not_collide() {
    let mut chip8 = machine();
    // Light pixel 0 only: sprite row 0x80 at (0, 0).
    chip8.load_rom(&[0x80, 0xFF, 0xFF]);
    chip8.execute_opcode(0xA200, NO_KEYS);
    chip8.execute_opcode(0xD011, NO_KEYS);
    assert_eq!(lit_pixels(&chip8), vec![0]);
    // Now draw rows 0x80, 0xFF, 0xFF: only the very first bit collides.
    chip8.execute_opcode(0xD013, NO_KEYS);
    assert_eq!(chip8.get_v_at(0xF), 1);
    assert_eq!(chip8.get_display()[0], 0);
    assert_eq!(chip8.get_display()[64], 1);
    assert_eq!(chip8.get_display()[128 + 7], 1);
}

#[test]
fn draw_without_collision_clears_a_stale_flag() {
    let mut chip8 = machine();
    chip8.set_v(0xF, 1);
    chip8.execute_opcode(0xA000, NO_KEYS);
    chip8.execute_opcode(0xD015, NO_KEYS);
    assert_eq!(chip8.get_v_at(0xF), 0);
}

#[test]
fn draw_wraps_over_the_flattened_buffer() {
    let mut chip8 = machine();
    chip8.load_rom(&[0xFF, 0xFF]);
    chip8.execute_opcode(0xA200, NO_KEYS);
    // At x = 60 the last four bits of a row run on into the next row.
    chip8.set_v(0, 60);
    chip8.set_v(1, 31);
    chip8.execute_opcode(0xD012, NO_KEYS);
    let mut expected: Vec<usize> = Vec::new();
    for col in 0..8usize {
        expected.push((60 + col + 31 * 64) % 2048);
        expected.push((60 + col + 32 * 64) % 2048);
    }
    expected.sort();
    assert_eq!(lit_pixels(&chip8), expected);
    // The first row runs from 2044 over the end of the buffer to 3; the
    // second starts at 60 + 32 * 64 = 2108, which wraps to 60.
    assert_eq!(chip8.get_display()[2044], 1);
    assert_eq!(chip8.get_display()[2047], 1);
    assert_eq!(chip8.get_display()[0], 1);
    assert_eq!(chip8.get_display()[3], 1);
    assert_eq!(chip8.get_display()[4], 0);
    assert_eq!(chip8.get_display()[60], 1);
    assert_eq!(chip8.get_display()[67], 1);
    assert_eq!(chip8.get_display()[68], 0);
}

#[test]
fn draw_with_large_coordinates_stays_in_the_buffer() {
    let mut chip8 = machine();
    chip8.load_rom(&[0x81]);
    chip8.execute_opcode(0xA200, NO_KEYS);
    chip8.set_v(0, 255);
    chip8.set_v(1, 255);
    chip8.execute_opcode(0xD011, NO_KEYS);
    // 255 + 255 * 64 = 16575; 16575 mod 2048 = 191; the last bit is 7 on.
    assert_eq!(lit_pixels(&chip8), vec![191, 198]);
}

#[test]
fn draw_of_no_rows_changes_only_the_flag() {
    let mut chip8 = machine();
    chip8.set_v(0xF, 9);
    chip8.execute_opcode(0xAFFF, NO_KEYS);
    chip8.execute_opcode(0xD010, NO_KEYS);
    assert!(lit_pixels(&chip8).is_empty());
    assert_eq!(chip8.get_v_at(0xF), 0);
}

#[test]
fn clear_after_draw_leaves_a_blank_display() {
    let mut chip8 = machine();
    chip8.set_v(0, 17);
    chip8.set_v(1, 9);
    chip8.execute_opcode(0xA019, NO_KEYS);
    chip8.execute_opcode(0xD015, NO_KEYS);
    assert!(!lit_pixels(&chip8).is_empty());
    chip8.execute_opcode(0x00E0, NO_KEYS);
    assert!(chip8.get_display().iter().all(|p| *p == 0));
    assert_eq!(chip8.get_display().len(), 2048);
}

#[test]
fn seventeenth_nested_call_is_dropped() {
    let mut chip8 = machine();
    for depth in 0..16u16 {
        chip8.execute_opcode(0x2300 + depth * 2, NO_KEYS);
        assert_eq!(chip8.get_sp(), depth as usize + 1);
    }
    let pc = chip8.get_pc();
    let stack = chip8.get_stack().to_vec();
    chip8.execute_opcode(0x2ABC, NO_KEYS);
    assert_eq!(chip8.get_pc(), pc);
    assert_eq!(chip8.get_sp(), 16);
    assert_eq!(chip8.get_stack(), &stack[..]);
    assert_eq!(stack[0], 0x200);
    assert_eq!(stack[15], 0x300 + 14 * 2);

    // Sixteen returns unwind all of it.
    for depth in (0..16usize).rev() {
        chip8.execute_opcode(0x00EE, NO_KEYS);
        assert_eq!(chip8.get_sp(), depth);
        assert_eq!(chip8.get_pc(), stack[depth]);
    }
}

#[test]
fn return_on_an_empty_stack_is_dropped() {
    let mut chip8 = machine();
    chip8.load_rom(&[0x00, 0xEE]);
    assert_eq!(chip8.tick(NO_KEYS), None);
    assert_eq!(chip8.get_pc(), 0x202);
    assert_eq!(chip8.get_sp(), 0);
}

#[test]
fn call_pushes_the_address_after_the_call() {
    let mut chip8 = machine();
    chip8.load_rom(&[0x23, 0x00]);
    chip8.tick(NO_KEYS);
    assert_eq!(chip8.get_pc(), 0x300);
    assert_eq!(chip8.get_stack()[0], 0x202);
    chip8.execute(Instruction::Return, NO_KEYS, 0);
    assert_eq!(chip8.get_pc(), 0x202);
}

#[test]
fn oversized_program_is_cut_at_the_end_of_memory() {
    let mut chip8 = machine();
    let mut rom = vec![0x11u8; 4096];
    let last = 4096 - 0x200 - 1;
    rom[last - 2] = 0xAB;
    rom[last - 1] = 0xCD;
    rom[last] = 0xEF;
    chip8.load_rom(&rom);
    // The last three bytes that fit sit at 0xFFD..=0xFFF.
    chip8.execute_opcode(0xAFFD, NO_KEYS);
    chip8.execute_opcode(0xF265, NO_KEYS);
    assert_eq!(&chip8.get_v()[0..3], &[0xAB, 0xCD, 0xEF]);
    // The font below the program is untouched.
    chip8.execute_opcode(0xA000, NO_KEYS);
    chip8.execute_opcode(0xF065, NO_KEYS);
    assert_eq!(chip8.get_v_at(0), 0xF0);
    // Address 0x1FF, just below the program, is still zero.
    chip8.execute_opcode(0xA1FF, NO_KEYS);
    chip8.execute_opcode(0xF165, NO_KEYS);
    assert_eq!(&chip8.get_v()[0..2], &[0x00, 0x11]);
}

#[test]
fn empty_program_changes_nothing() {
    let mut chip8 = machine();
    chip8.load_rom(&[]);
    chip8.execute_opcode(0xA200, NO_KEYS);
    chip8.execute_opcode(0xF365, NO_KEYS);
    assert_eq!(&chip8.get_v()[0..4], &[0, 0, 0, 0]);
    assert_eq!(chip8.get_pc(), 0x200);
}

#[test]
fn timers_are_independent_and_stop_at_zero() {
    let mut chip8 = machine();
    chip8.set_v(0, 1);
    chip8.set_v(1, 3);
    chip8.execute_opcode(0xF015, NO_KEYS);
    chip8.execute_opcode(0xF118, NO_KEYS);
    chip8.update_timers();
    assert_eq!((chip8.get_timer_delay(), chip8.get_timer_sound()), (0, 2));
    chip8.update_timers();
    assert_eq!((chip8.get_timer_delay(), chip8.get_timer_sound()), (0, 1));
    chip8.update_timers();
    chip8.update_timers();
    assert_eq!((chip8.get_timer_delay(), chip8.get_timer_sound()), (0, 0));
    // A cycle does not touch the timers.
    chip8.execute_opcode(0xF015, NO_KEYS);
    chip8.tick(NO_KEYS);
    assert_eq!(chip8.get_timer_delay(), 1);
}

#[test]
fn fetch_reads_high_byte_first() {
    let mut chip8 = machine();
    chip8.load_rom(&[0x12, 0x34]);
    assert_eq!(chip8.fetch_opcode(), 0x1234);
    assert_eq!(chip8.get_pc(), 0x202);
}

#[test]
fn cycle_is_refused_where_it_would_leave_memory() {
    let mut chip8 = machine();
    assert!(chip8.can_tick());
    // Jump to the last address: the second byte of the word is missing.
    chip8.execute_opcode(0x1FFF, NO_KEYS);
    assert!(!chip8.can_tick());
    chip8.execute_opcode(0x1FFE, NO_KEYS);
    assert!(chip8.can_tick());

    // A store of three digits at 0xFFE would end past the last byte.
    let mut chip8 = machine();
    chip8.load_rom(&[0xF0, 0x33]);
    chip8.execute_opcode(0xAFFE, NO_KEYS);
    assert!(!chip8.can_tick());
    chip8.execute_opcode(0xAFFD, NO_KEYS);
    assert!(chip8.can_tick());

    // A sprite of two rows at 0xFFF would, one of one row would not.
    let mut chip8 = machine();
    chip8.load_rom(&[0xD0, 0x02]);
    chip8.execute_opcode(0xAFFF, NO_KEYS);
    assert!(!chip8.can_tick());
    let mut chip8 = machine();
    chip8.load_rom(&[0xD0, 0x01]);
    chip8.execute_opcode(0xAFFF, NO_KEYS);
    assert!(chip8.can_tick());

    // A key number above 0xF names no key.
    let mut chip8 = machine();
    chip8.load_rom(&[0xE0, 0x9E]);
    chip8.set_v(0, 16);
    assert!(!chip8.can_tick());
    chip8.set_v(0, 15);
    assert!(chip8.can_tick());
}

#[test]
fn instruction_is_refused_where_it_would_leave_its_range() {
    let chip8 = machine();
    assert!(chip8.can_execute(Instruction::StoreRegs { x: 15 }, NO_KEYS));
    assert!(chip8.can_execute(Instruction::WaitKey { x: 0 }, NO_KEYS));

    let mut chip8 = machine();
    chip8.execute_opcode(0xAFF1, NO_KEYS);
    assert!(!chip8.can_execute(Instruction::StoreRegs { x: 15 }, NO_KEYS));
    assert!(chip8.can_execute(Instruction::StoreRegs { x: 14 }, NO_KEYS));
    assert!(!chip8.can_execute(Instruction::LoadRegs { x: 15 }, NO_KEYS));

    // At the start of memory a key wait with no key down cannot step back.
    let mut chip8 = machine();
    chip8.execute_opcode(0x1000, NO_KEYS);
    assert!(!chip8.can_execute(Instruction::WaitKey { x: 0 }, NO_KEYS));
    let mut keys = NO_KEYS;
    keys[3] = 1;
    assert!(chip8.can_execute(Instruction::WaitKey { x: 0 }, keys));
}
