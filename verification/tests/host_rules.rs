use chip8::backend::{
    cycle_color, keypad_from, pixel_rectangles, register_label_position, Rect, KEY_LAYOUT,
    PALETTE_SIZE,
};
use chip8::host::{CycleCounter, EmulatorState, TIMER_PERIOD_NANOS};
use chip8::keypad::scan_keys;
use chip8::platform::UiActions;
use chip8::Quirks;

fn session(target: u32) -> EmulatorState {
    EmulatorState::new(Quirks::default(), &[0x60, 0x2A, 0xF0, 0x18], 20, target)
}

fn actions() -> UiActions {
    UiActions::default()
}

#[test]
fn default_quirks_shift_in_place() {
    assert!(!Quirks::default().shift_vy);
}

#[test]
fn default_actions_ask_for_nothing() {
    let a = UiActions::default();
    assert!(!a.toggle_debug_cycles);
    assert!(!a.toggle_debug_registers);
    assert!(!a.toggle_emulator);
    assert!(!a.increase_speed);
    assert!(!a.decrease_speed);
}

#[test]
fn new_session_shows_the_display_and_no_overlay() {
    let state = session(500);
    assert_eq!(state.pixel_size, 20);
    assert_eq!(state.target_cycles_per_second, 500);
    assert!(state.draw_emulator);
    assert!(!state.draw_debug_cycles_info);
    assert!(!state.draw_debug_registers_info);
    assert_eq!(state.chip8.get_pc(), 0x200);
    assert!(state.debug_info(1, 2).is_none());
}

#[test]
fn toggles_flip_their_flags() {
    let mut state = session(500);
    let mut a = actions();
    a.toggle_debug_cycles = true;
    a.toggle_emulator = true;
    state.handle_ui_actions(a);
    assert!(state.draw_debug_cycles_info);
    assert!(!state.draw_debug_registers_info);
    assert!(!state.draw_emulator);

    let mut a = actions();
    a.toggle_debug_cycles = true;
    a.toggle_debug_registers = true;
    state.handle_ui_actions(a);
    assert!(!state.draw_debug_cycles_info);
    assert!(state.draw_debug_registers_info);
    assert!(!state.draw_emulator);
    assert_eq!(state.target_cycles_per_second, 500);
}

#[test]
fn speed_goes_up_by_a_hundred_to_at_most_ten_thousand() {
    let mut up = actions();
    up.increase_speed = true;
    let mut state = session(500);
    state.handle_ui_actions(up);
    assert_eq!(state.target_cycles_per_second, 600);

    let mut up = actions();
    up.increase_speed = true;
    let mut state = session(9950);
    state.handle_ui_actions(up);
    assert_eq!(state.target_cycles_per_second, 10000);

    let mut up = actions();
    up.increase_speed = true;
    let mut state = session(20000);
    state.handle_ui_actions(up);
    assert_eq!(state.target_cycles_per_second, 10000);
}

#[test]
fn speed_goes_down_by_a_hundred_or_to_ten() {
    let mut down = actions();
    down.decrease_speed = true;
    let mut state = session(500);
    state.handle_ui_actions(down);
    assert_eq!(state.target_cycles_per_second, 400);

    let mut down = actions();
    down.decrease_speed = true;
    let mut state = session(101);
    state.handle_ui_actions(down);
    assert_eq!(state.target_cycles_per_second, 1);

    let mut down = actions();
    down.decrease_speed = true;
    let mut state = session(100);
    state.handle_ui_actions(down);
    assert_eq!(state.target_cycles_per_second, 10);

    let mut down = actions();
    down.decrease_speed = true;
    let mut state = session(10);
    state.handle_ui_actions(down);
    assert_eq!(state.target_cycles_per_second, 10);
}

#[test]
fn speed_up_and_down_in_one_frame() {
    let mut both = actions();
    both.increase_speed = true;
    both.decrease_speed = true;
    let mut state = session(9990);
    state.handle_ui_actions(both);
    // Up to the cap of 10000 first, then down by a step.
    assert_eq!(state.target_cycles_per_second, 9900);
}

#[test]
fn sleep_is_a_thousand_over_the_speed() {
    assert_eq!(session(500).sleep_millis(), 2);
    assert_eq!(session(10).sleep_millis(), 100);
    assert_eq!(session(300).sleep_millis(), 3);
    assert_eq!(session(1001).sleep_millis(), 0);
}

#[test]
fn overlay_carries_flags_counts_and_registers() {
    let mut state = session(500);
    state.chip8.tick([0; 16]); // V0 = 0x2A
    let mut a = actions();
    a.toggle_debug_registers = true;
    state.handle_ui_actions(a);
    let info = state.debug_info(123, 4567);
    assert!(info.is_some());
    let info = info.unwrap();
    assert!(!info.draw_cycles_info);
    assert!(info.draw_registers_info);
    assert_eq!(info.cycles_per_second, 123);
    assert_eq!(info.total_cycles, 4567);
    let mut registers = [0u8; 16];
    registers[0] = 0x2A;
    assert_eq!(info.registers, registers);
}

#[test]
fn frame_shows_the_display_or_a_blank_one() {
    let mut state = EmulatorState::new(Quirks::default(), &[0xA0, 0x00, 0xD0, 0x05], 4, 500);
    state.chip8.tick([0; 16]);
    state.chip8.tick([0; 16]);
    let (pixels, overlay) = state.render(0, 0);
    assert!(overlay.is_none());
    assert_eq!(&pixels[..], state.chip8.get_display());
    assert_eq!(pixels.iter().filter(|p| **p == 1).count(), 14);

    let mut a = actions();
    a.toggle_emulator = true;
    state.handle_ui_actions(a);
    let (pixels, _) = state.render(0, 0);
    assert_eq!(pixels, [0u8; 2048]);
    assert_eq!(state.shown_pixels(), [0u8; 2048]);
    // The machine still holds what it drew.
    assert_eq!(state.chip8.get_display().iter().filter(|p| **p == 1).count(), 14);
}

#[test]
fn beep_follows_the_sound_timer() {
    let mut state = session(500);
    assert!(!state.update_audio());
    state.chip8.tick([0; 16]); // V0 = 0x2A
    state.chip8.tick([0; 16]); // sound timer = V0
    assert!(state.update_audio());
}

#[test]
fn timers_tick_once_a_period_has_gone_by() {
    let mut state = session(500);
    state.chip8.tick([0; 16]);
    state.chip8.tick([0; 16]);
    assert_eq!(state.chip8.get_timer_sound(), 0x2A);
    assert!(!state.update_timers(0));
    assert!(!state.update_timers(TIMER_PERIOD_NANOS as u128 - 1));
    assert_eq!(state.chip8.get_timer_sound(), 0x2A);
    assert!(state.update_timers(TIMER_PERIOD_NANOS as u128));
    assert_eq!(state.chip8.get_timer_sound(), 0x29);
    assert!(state.update_timers(1_000_000_000));
    assert_eq!(state.chip8.get_timer_sound(), 0x28);
    assert_eq!(TIMER_PERIOD_NANOS, 1_000_000_000 / 60);
}

#[test]
fn cycle_counter_takes_the_rate_every_second() {
    let mut counter = CycleCounter::new();
    for _ in 0..750 {
        counter.count_cycle();
    }
    assert!(!counter.update(0));
    assert_eq!((counter.cycles, counter.total_cycles, counter.cycles_per_second), (750, 0, 0));
    assert!(counter.update(1));
    assert_eq!((counter.cycles, counter.total_cycles, counter.cycles_per_second), (0, 750, 750));
    for _ in 0..901 {
        counter.count_cycle();
    }
    assert!(counter.update(2));
    assert_eq!((counter.cycles, counter.total_cycles, counter.cycles_per_second), (0, 1651, 450));
}

#[test]
fn colour_cycles_through_the_palette_both_ways() {
    assert_eq!(PALETTE_SIZE, 19);
    assert_eq!(cycle_color(5, false, false), 5);
    assert_eq!(cycle_color(5, true, false), 4);
    assert_eq!(cycle_color(0, true, false), 18);
    assert_eq!(cycle_color(5, false, true), 6);
    assert_eq!(cycle_color(18, false, true), 0);
    assert_eq!(cycle_color(7, true, true), 7);
    assert_eq!(cycle_color(0, true, true), 0);
}

#[test]
fn host_keys_map_onto_the_pad() {
    let mut layout = KEY_LAYOUT;
    layout.sort();
    assert_eq!(layout.to_vec(), (0..16).collect::<Vec<usize>>());

    assert_eq!(keypad_from(&[false; 16]), [0u8; 16]);
    assert_eq!(keypad_from(&[true; 16]), [1u8; 16]);

    let mut down = [false; 16];
    down[3] = true; // fourth host key is C
    down[13] = true; // fourteenth is 0
    let keys = keypad_from(&down);
    let mut expected = [0u8; 16];
    expected[0xC] = 1;
    expected[0x0] = 1;
    assert_eq!(keys, expected);
}

#[test]
fn highest_pressed_key_is_found() {
    assert_eq!(scan_keys(&[0; 16]), None);
    let mut keys = [0u8; 16];
    keys[0] = 1;
    assert_eq!(scan_keys(&keys), Some(0));
    keys[9] = 255;
    keys[4] = 1;
    assert_eq!(scan_keys(&keys), Some(9));
    keys[15] = 1;
    assert_eq!(scan_keys(&keys), Some(15));
}

#[test]
fn rectangles_of_the_lit_pixels_in_row_major_order() {
    let mut pixels = [0u8; 2048];
    assert!(pixel_rectangles(&pixels, 20).is_empty());
    pixels[0] = 1;
    pixels[65] = 1;
    pixels[63] = 1;
    pixels[2047] = 1;
    pixels[100] = 2; // not a lit pixel
    let rects = pixel_rectangles(&pixels, 20);
    assert_eq!(
        rects,
        vec![
            Rect { x: 0, y: 0, width: 20, height: 20 },
            Rect { x: 1260, y: 0, width: 20, height: 20 },
            Rect { x: 20, y: 20, width: 20, height: 20 },
            Rect { x: 1260, y: 620, width: 20, height: 20 },
        ]
    );
}

#[test]
fn register_labels_go_down_the_right_edge() {
    assert_eq!(register_label_position(0, 1280), (1200, 10));
    assert_eq!(register_label_position(1, 1280), (1200, 30));
    assert_eq!(register_label_position(15, 640), (560, 310));
}
