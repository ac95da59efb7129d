//! What a front end offers to the host loop: a window to draw on, keys to
//! poll and a beeper.
use vstd::prelude::*;

verus! {

/// A front end that shows the display, reads the keys and sounds the beep.
pub trait Platform {
    /// Whether the user asked to quit.
    fn should_close(&self) -> bool;

    /// The sixteen key flags (nonzero means pressed) and the interface
    /// actions asked for since the last call.
    fn process_input(&mut self) -> ([u8; 16], UiActions);

    /// Draws a frame: the pixels, each `pixel_size` wide and high, and the
    /// debug overlay if there is one.
    fn render(&mut self, pixels: &[u8], pixel_size: usize, debug_info: Option<DebugInfo>);

    /// Sounds the beep.
    fn play_beep(&mut self);

    /// Width of the window.
    fn get_screen_width(&self) -> i32;
}

/// What the debug overlay shows.
pub struct DebugInfo {
    pub draw_cycles_info: bool,
    pub draw_registers_info: bool,
    pub cycles_per_second: u64,
    pub total_cycles: u64,
    pub registers: [u8; 16],
}

/// Interface actions that the user asked for in one frame.
pub struct UiActions {
    pub toggle_debug_cycles: bool,
    pub toggle_debug_registers: bool,
    pub toggle_emulator: bool,
    pub increase_speed: bool,
    pub decrease_speed: bool,
}

impl Default for UiActions {
    fn default() -> (actions: Self)
        ensures
            actions == (UiActions {
                toggle_debug_cycles: false,
                toggle_debug_registers: false,
                toggle_emulator: false,
                increase_speed: false,
                decrease_speed: false,
            }),
    {
        UiActions {
            toggle_debug_cycles: false,
            toggle_debug_registers: false,
            toggle_emulator: false,
            increase_speed: false,
            decrease_speed: false,
        }
    }
}

} // verus!
