//! Rules of the host loop: what the interface actions do to the settings,
//! when the timers tick, how fast the machine runs and what a frame shows.
//! The loop itself, with its clock and its window, lives outside.
use crate::machine::Chip8;
use crate::platform::{DebugInfo, UiActions};
use crate::quirks::Quirks;
use crate::sprite::blank_display;
use crate::state::State;
use vstd::prelude::*;

verus! {

/// Cycles per second that one speed action adds or takes away.
pub const SPEED_STEP: u32 = 100;

/// Highest speed that the speed actions lead to.
pub const MAX_SPEED: u32 = 10000;

/// Speed that a slow-down from `SPEED_STEP` or less leads to.
pub const MIN_SPEED: u32 = 10;

/// Nanoseconds between two timer ticks: a sixtieth of a second.
pub const TIMER_PERIOD_NANOS: u64 = 16_666_666;

/// Speed after the speed actions of one frame: first up by a step, capped
/// at `MAX_SPEED`, then down by a step, or to `MIN_SPEED` if a step is all
/// that is left.
pub open spec fn adjusted_speed(speed: int, increase: bool, decrease: bool) -> int {
    let raised = if increase {
        if speed + SPEED_STEP > MAX_SPEED {
            MAX_SPEED as int
        } else {
            speed + SPEED_STEP
        }
    } else {
        speed
    };
    if decrease {
        if raised > SPEED_STEP {
            raised - SPEED_STEP
        } else {
            MIN_SPEED as int
        }
    } else {
        raised
    }
}

/// A machine together with the settings of the session it runs in.
pub struct EmulatorState {
    /// The machine.
    pub chip8: Chip8,
    /// Width and height of one pixel on the screen.
    pub pixel_size: usize,
    /// Cycles to run per second.
    pub target_cycles_per_second: u32,
    /// Whether the overlay shows the cycle counts.
    pub draw_debug_cycles_info: bool,
    /// Whether the overlay shows the registers.
    pub draw_debug_registers_info: bool,
    /// Whether the display is shown at all.
    pub draw_emulator: bool,
}

impl EmulatorState {
    /// A session on a fresh machine with the program `rom` loaded: the
    /// display is shown, the overlay is off.
    pub fn new(quirks: Quirks, rom: &[u8], pixel_size: usize, target_cycles_per_second: u32) -> (state:
        Self)
        ensures
            state.chip8@ == State::initial(quirks).load(rom@),
            state.pixel_size == pixel_size,
            state.target_cycles_per_second == target_cycles_per_second,
            !state.draw_debug_cycles_info,
            !state.draw_debug_registers_info,
            state.draw_emulator,
    {
        let mut chip8 = Chip8::new(quirks);
        chip8.load_rom(rom);
        EmulatorState {
            chip8,
            pixel_size,
            target_cycles_per_second,
            draw_debug_cycles_info: false,
            draw_debug_registers_info: false,
            draw_emulator: true,
        }
    }

    /// Applies the interface actions of one frame: each toggle flips its
    /// flag, and the speed actions change the speed as `adjusted_speed`
    /// says. The machine is not touched.
    pub fn handle_ui_actions(&mut self, actions: UiActions)
        requires
            actions.increase_speed ==> old(self).target_cycles_per_second + SPEED_STEP <= u32::MAX,
        ensures
            final(self).chip8 == old(self).chip8,
            final(self).pixel_size == old(self).pixel_size,
            final(self).draw_debug_cycles_info == (old(self).draw_debug_cycles_info
                != actions.toggle_debug_cycles),
            final(self).draw_debug_registers_info == (old(self).draw_debug_registers_info
                != actions.toggle_debug_registers),
            final(self).draw_emulator == (old(self).draw_emulator != actions.toggle_emulator),
            final(self).target_cycles_per_second == adjusted_speed(
                old(self).target_cycles_per_second as int,
                actions.increase_speed,
                actions.decrease_speed,
            ),
    {
        if actions.toggle_debug_cycles {
            self.draw_debug_cycles_info = !self.draw_debug_cycles_info;
        }
        if actions.toggle_debug_registers {
            self.draw_debug_registers_info = !self.draw_debug_registers_info;
        }
        if actions.toggle_emulator {
            self.draw_emulator = !self.draw_emulator;
        }
        if actions.increase_speed {
            self.target_cycles_per_second += SPEED_STEP;
            if self.target_cycles_per_second > MAX_SPEED {
                self.target_cycles_per_second = MAX_SPEED;
            }
        }
        if actions.decrease_speed {
            if self.target_cycles_per_second > SPEED_STEP {
                self.target_cycles_per_second -= SPEED_STEP;
            } else {
                self.target_cycles_per_second = MIN_SPEED;
            }
        }
    }

    /// Milliseconds to sleep after a cycle: a thousand divided by the speed,
    /// rounded down.
    pub fn sleep_millis(&self) -> (millis: u64)
        requires
            self.target_cycles_per_second > 0,
        ensures
            millis == 1000int / (self.target_cycles_per_second as int),
    {
        1000 / self.target_cycles_per_second as u64
    }

    /// The debug overlay of a frame: none if both overlay flags are off,
    /// else the flags, the given counts and the sixteen registers.
    pub fn debug_info(&self, cycles_per_second: u64, total_cycles: u64) -> (info: Option<DebugInfo>)
        ensures
            info is Some <==> self.draw_debug_cycles_info || self.draw_debug_registers_info,
            info matches Some(d) ==> {
                &&& d.draw_cycles_info == self.draw_debug_cycles_info
                &&& d.draw_registers_info == self.draw_debug_registers_info
                &&& d.cycles_per_second == cycles_per_second
                &&& d.total_cycles == total_cycles
                &&& d.registers@ == self.chip8@.v
            },
    {
        if self.draw_debug_cycles_info || self.draw_debug_registers_info {
            let v = self.chip8.get_v();
            let mut registers = [0u8; 16];
            let mut k: usize = 0;
            while k < 16
                invariant
                    k <= 16,
                    v@ == self.chip8@.v,
                    v@.len() == 16,
                    forall|r: int| 0 <= r < k ==> registers@[r] == v@[r],
                decreases 16 - k,
            {
                registers[k] = v[k];
                k += 1;
            }
            assert(registers@ =~= self.chip8@.v);
            Some(
                DebugInfo {
                    draw_cycles_info: self.draw_debug_cycles_info,
                    draw_registers_info: self.draw_debug_registers_info,
                    cycles_per_second,
                    total_cycles,
                    registers,
                },
            )
        } else {
            None
        }
    }

    /// Whether the beep sounds: the sound timer is running.
    pub fn update_audio(&self) -> (beep: bool)
        ensures
            beep == (self.chip8@.timer_sound > 0),
    {
        self.chip8.get_timer_sound() > 0
    }

    /// Ticks the machine's timers if a timer period has gone by since the
    /// last tick, and says whether it did.
    pub fn update_timers(&mut self, elapsed_nanos: u128) -> (ticked: bool)
        ensures
            ticked == (elapsed_nanos >= TIMER_PERIOD_NANOS),
            final(self).chip8@ == if ticked {
                old(self).chip8@.tick_timers()
            } else {
                old(self).chip8@
            },
            final(self).pixel_size == old(self).pixel_size,
            final(self).target_cycles_per_second == old(self).target_cycles_per_second,
            final(self).draw_debug_cycles_info == old(self).draw_debug_cycles_info,
            final(self).draw_debug_registers_info == old(self).draw_debug_registers_info,
            final(self).draw_emulator == old(self).draw_emulator,
    {
        if elapsed_nanos >= TIMER_PERIOD_NANOS as u128 {
            self.chip8.update_timers();
            true
        } else {
            false
        }
    }

    /// The pixels that a frame shows: the machine's display, or a blank one
    /// if the display is switched off.
    pub fn shown_pixels(&self) -> (pixels: [u8; 2048])
        ensures
            pixels@ == if self.draw_emulator {
                self.chip8@.display
            } else {
                blank_display()
            },
    {
        let mut pixels = [0u8; 2048];
        if self.draw_emulator {
            let display = self.chip8.get_display();
            let mut p: usize = 0;
            while p < 2048
                invariant
                    p <= 2048,
                    display@ == self.chip8@.display,
                    display@.len() == 2048,
                    forall|q: int| 0 <= q < p ==> pixels@[q] == display@[q],
                decreases 2048 - p,
            {
                pixels[p] = display[p];
                p += 1;
            }
            assert(pixels@ =~= self.chip8@.display);
        } else {
            assert(pixels@ =~= blank_display());
        }
        pixels
    }

    /// What a frame shows: the pixels and the debug overlay.
    pub fn render(&self, cycles_per_second: u64, total_cycles: u64) -> (frame: (
        [u8; 2048],
        Option<DebugInfo>,
    ))
        ensures
            frame.0@ == if self.draw_emulator {
                self.chip8@.display
            } else {
                blank_display()
            },
            frame.1 is Some <==> self.draw_debug_cycles_info || self.draw_debug_registers_info,
            frame.1 matches Some(d) ==> {
                &&& d.draw_cycles_info == self.draw_debug_cycles_info
                &&& d.draw_registers_info == self.draw_debug_registers_info
                &&& d.cycles_per_second == cycles_per_second
                &&& d.total_cycles == total_cycles
                &&& d.registers@ == self.chip8@.v
            },
    {
        (self.shown_pixels(), self.debug_info(cycles_per_second, total_cycles))
    }
}

/// Counts of the cycles that a session has run.
pub struct CycleCounter {
    /// Cycles since the count was last taken.
    pub cycles: u64,
    /// Cycles counted up to then.
    pub total_cycles: u64,
    /// Cycles per second as of the last count.
    pub cycles_per_second: u64,
}

impl CycleCounter {
    /// A counter that has counted nothing.
    pub fn new() -> (counter: Self)
        ensures
            counter.cycles == 0,
            counter.total_cycles == 0,
            counter.cycles_per_second == 0,
    {
        CycleCounter { cycles: 0, total_cycles: 0, cycles_per_second: 0 }
    }

    /// Counts one cycle.
    pub fn count_cycle(&mut self)
        requires
            old(self).cycles < u64::MAX,
        ensures
            final(self).cycles == old(self).cycles + 1,
            final(self).total_cycles == old(self).total_cycles,
            final(self).cycles_per_second == old(self).cycles_per_second,
    {
        self.cycles += 1;
    }

    /// Takes the count once a whole second has gone by since the last one:
    /// the rate becomes the cycles counted divided by the seconds gone by,
    /// the cycles go to the total and the count starts again. Says whether
    /// it did, for the caller to restart its clock.
    pub fn update(&mut self, elapsed_secs: u64) -> (taken: bool)
        requires
            elapsed_secs >= 1 ==> old(self).total_cycles + old(self).cycles <= u64::MAX,
        ensures
            taken == (elapsed_secs >= 1),
            taken ==> {
                &&& final(self).cycles_per_second == old(self).cycles / elapsed_secs
                &&& final(self).total_cycles == old(self).total_cycles + old(self).cycles
                &&& final(self).cycles == 0
            },
            !taken ==> *final(self) == *old(self),
    {
        if elapsed_secs >= 1 {
            self.cycles_per_second = self.cycles / elapsed_secs;
            self.total_cycles += self.cycles;
            self.cycles = 0;
            true
        } else {
            false
        }
    }
}

} // verus!
