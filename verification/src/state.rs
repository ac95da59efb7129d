//! The machine as a mathematical value.
//!
//! [`State`] holds everything a machine consists of, and the functions on it
//! say what loading a program, fetching, executing one instruction and
//! ticking the timers do. The executable machine is specified against them.
use crate::font::FONT_SET;
use crate::instruction::Instruction;
use crate::keypad::last_pressed;
use crate::quirks::Quirks;
use crate::sprite::{blank_display, collides, draw_display};
use vstd::prelude::*;

verus! {

/// Complete state of a machine.
#[verifier::ext_equal]
pub struct State {
    /// 4096 bytes of memory.
    pub memory: Seq<u8>,
    /// The sixteen general registers `V0..=VF`.
    pub v: Seq<u8>,
    /// Program counter.
    pub pc: u16,
    /// Index register `I`.
    pub i: u16,
    /// Sixteen slots for return addresses.
    pub stack: Seq<u16>,
    /// Number of return addresses on the stack.
    pub sp: nat,
    /// Delay timer.
    pub timer_delay: u8,
    /// Sound timer.
    pub timer_sound: u8,
    /// 64x32 pixels, row-major, each 0 (off) or 1 (on).
    pub display: Seq<u8>,
    /// Behaviour switches.
    pub quirks: Quirks,
}

impl State {
    /// Every part has its fixed size, the stack depth is at most 16 and
    /// every pixel is 0 or 1.
    pub open spec fn wf(self) -> bool {
        &&& self.memory.len() == 4096
        &&& self.v.len() == 16
        &&& self.stack.len() == 16
        &&& self.sp <= 16
        &&& self.display.len() == 2048
        &&& forall|p: int| 0 <= p < 2048 ==> #[trigger] self.display[p] <= 1
    }

    /// A fresh machine: everything zero but the font at addresses
    /// `0x000..0x050` and the program counter at `0x200`.
    pub open spec fn initial(quirks: Quirks) -> State {
        State {
            memory: Seq::new(
                4096,
                |a: int|
                    if a < 80 {
                        FONT_SET@[a]
                    } else {
                        0u8
                    },
            ),
            v: Seq::new(16, |k: int| 0u8),
            pc: 0x200,
            i: 0,
            stack: Seq::new(16, |k: int| 0u16),
            sp: 0,
            timer_delay: 0,
            timer_sound: 0,
            display: blank_display(),
            quirks,
        }
    }

    /// The state after copying `data` to address `0x200` and up; bytes that
    /// do not fit below the end of memory are dropped.
    pub open spec fn load(self, data: Seq<u8>) -> State {
        State {
            memory: Seq::new(
                4096,
                |a: int|
                    if 0x200 <= a < 0x200 + data.len() {
                        data[a - 0x200]
                    } else {
                        self.memory[a]
                    },
            ),
            ..self
        }
    }

    /// The state after one timer tick: each timer goes down by one unless
    /// it is zero already.
    pub open spec fn tick_timers(self) -> State {
        State {
            timer_delay: if self.timer_delay > 0 {
                (self.timer_delay - 1) as u8
            } else {
                0
            },
            timer_sound: if self.timer_sound > 0 {
                (self.timer_sound - 1) as u8
            } else {
                0
            },
            ..self
        }
    }

    /// The instruction word at the program counter: high byte first.
    pub open spec fn opcode(self) -> u16 {
        (self.memory[self.pc as int] * 256 + self.memory[self.pc + 1]) as u16
    }

    /// The state after a fetch: the program counter has moved past the
    /// instruction word.
    pub open spec fn fetch(self) -> State {
        State { pc: (self.pc + 2) as u16, ..self }
    }

    /// The state with register `x` set to `value`.
    pub open spec fn set_reg(self, x: int, value: u8) -> State {
        State { v: self.v.update(x, value), ..self }
    }

    /// The state after a conditional skip: the program counter moves past
    /// one more instruction if `taken`.
    pub open spec fn skip_if(self, taken: bool) -> State {
        if taken {
            State { pc: (self.pc + 2) as u16, ..self }
        } else {
            self
        }
    }

    /// The `n` bytes of memory from `I` on: the rows of the sprite that a
    /// draw instruction draws.
    pub open spec fn sprite(self, n: int) -> Seq<u8> {
        Seq::new(n as nat, |row: int| self.memory[self.i + row])
    }

    /// The state after drawing the `n`-row sprite at `I` at position
    /// (`Vx`, `Vy`): the display has the sprite XORed in and `VF` says
    /// whether a set bit landed on a pixel that was on.
    pub open spec fn draw(self, x: int, y: int, n: int) -> State {
        let sprite = self.sprite(n);
        let vx = self.v[x] as int;
        let vy = self.v[y] as int;
        State {
            display: draw_display(self.display, sprite, vx, vy),
            v: self.v.update(
                0xF,
                if collides(self.display, sprite, vx, vy) {
                    1u8
                } else {
                    0u8
                },
            ),
            ..self
        }
    }

    /// The state after a shift instruction has picked its operand: with the
    /// `shift_vy` quirk `Vx` is first overwritten with `Vy`.
    pub open spec fn shift_operand(self, x: int, y: int) -> State {
        if self.quirks.shift_vy {
            self.set_reg(x, self.v[y])
        } else {
            self
        }
    }

    /// The state after a return: the program counter takes the address on
    /// top of the stack, or nothing changes if the stack is empty.
    pub open spec fn ret(self) -> State {
        if self.sp > 0 {
            State { sp: (self.sp - 1) as nat, pc: self.stack[self.sp - 1], ..self }
        } else {
            self
        }
    }

    /// The state after a call of `nnn`: the program counter is pushed and
    /// set to `nnn`, or nothing changes if the stack is full.
    pub open spec fn call(self, nnn: u16) -> State {
        if self.sp < 16 {
            State {
                stack: self.stack.update(self.sp as int, self.pc),
                sp: self.sp + 1,
                pc: nnn,
                ..self
            }
        } else {
            self
        }
    }

    /// The state after `8xy4`: `VF` gets the carry, then `Vx` the sum
    /// modulo 256.
    pub open spec fn add_reg(self, x: int, y: int) -> State {
        let sum = self.v[x] + self.v[y];
        self.set_reg(
            0xF,
            if sum > 255 {
                1
            } else {
                0
            },
        ).set_reg(x, (sum % 256) as u8)
    }

    /// The state after a subtraction `Vx = Va - Vb`, which is `8xy5` with
    /// `a = x, b = y` and `8xy7` with `a = y, b = x`: `VF` gets 1 if
    /// `Va > Vb` and 0 if not, then `Vx` the difference modulo 256 of the
    /// registers as they are after that.
    pub open spec fn sub_reg(self, x: int, a: int, b: int) -> State {
        let flagged = self.set_reg(
            0xF,
            if self.v[a] > self.v[b] {
                1
            } else {
                0
            },
        );
        flagged.set_reg(x, ((flagged.v[a] - flagged.v[b]) % 256) as u8)
    }

    /// The state after `8xy6`: once the operand is picked, `VF` gets its
    /// lowest bit, then `Vx` is halved.
    pub open spec fn shift_right(self, x: int, y: int) -> State {
        let picked = self.shift_operand(x, y);
        let flagged = picked.set_reg(0xF, picked.v[x] % 2);
        flagged.set_reg(x, flagged.v[x] / 2)
    }

    /// The state after `8xyE`: once the operand is picked, `VF` gets its
    /// highest bit, then `Vx` is doubled modulo 256.
    pub open spec fn shift_left(self, x: int, y: int) -> State {
        let picked = self.shift_operand(x, y);
        let flagged = picked.set_reg(0xF, picked.v[x] / 128);
        flagged.set_reg(x, ((flagged.v[x] * 2) % 256) as u8)
    }

    /// The state after `Fx0A`: `Vx` gets the number of the pressed key, the
    /// highest if several are pressed; if none is, the program counter goes
    /// back by 2, onto the instruction itself.
    pub open spec fn wait_key(self, x: int, keys: Seq<u8>) -> State {
        let key = last_pressed(keys, 16);
        if key >= 0 {
            self.set_reg(x, key as u8)
        } else {
            State { pc: (self.pc - 2) as u16, ..self }
        }
    }

    /// The state after `Fx33`: the hundreds, tens and units digit of `Vx`
    /// are stored at `I`, `I + 1` and `I + 2`.
    pub open spec fn store_bcd(self, x: int) -> State {
        let value = self.v[x];
        State {
            memory: self.memory.update(self.i as int, value / 100).update(
                self.i + 1,
                (value % 100) / 10,
            ).update(self.i + 2, value % 10),
            ..self
        }
    }

    /// The state after `Fx55`: `V0..=Vx` are stored at `I..=I + x`.
    pub open spec fn store_regs(self, x: int) -> State {
        State {
            memory: Seq::new(
                4096,
                |a: int|
                    if self.i <= a <= self.i + x {
                        self.v[a - self.i]
                    } else {
                        self.memory[a]
                    },
            ),
            ..self
        }
    }

    /// The state after `Fx65`: `V0..=Vx` are loaded from `I..=I + x`.
    pub open spec fn load_regs(self, x: int) -> State {
        State {
            v: Seq::new(
                16,
                |k: int|
                    if k <= x {
                        self.memory[self.i + k]
                    } else {
                        self.v[k]
                    },
            ),
            ..self
        }
    }

    /// The state after executing `ins` with the key flags `keys`; `random`
    /// is the byte that a `Random` instruction draws.
    ///
    /// Where an instruction writes both the flag register `VF` and `Vx`,
    /// the flag is written first, so `Vx` wins if `x` is `0xF`.
    pub open spec fn execute(self, ins: Instruction, keys: Seq<u8>, random: u8) -> State {
        match ins {
            Instruction::ClearScreen => State { display: blank_display(), ..self },
            Instruction::Return => self.ret(),
            Instruction::Jump { nnn } => State { pc: nnn, ..self },
            Instruction::Call { nnn } => self.call(nnn),
            Instruction::SkipEqImm { x, kk } => self.skip_if(self.v[x as int] == kk),
            Instruction::SkipNeImm { x, kk } => self.skip_if(self.v[x as int] != kk),
            Instruction::SkipEqReg { x, y } => self.skip_if(self.v[x as int] == self.v[y as int]),
            Instruction::LoadImm { x, kk } => self.set_reg(x as int, kk),
            Instruction::AddImm { x, kk } => self.set_reg(
                x as int,
                ((self.v[x as int] + kk) % 256) as u8,
            ),
            Instruction::Move { x, y } => self.set_reg(x as int, self.v[y as int]),
            Instruction::Or { x, y } => self.set_reg(x as int, self.v[x as int] | self.v[y as int]),
            Instruction::And { x, y } => self.set_reg(
                x as int,
                self.v[x as int] & self.v[y as int],
            ),
            Instruction::Xor { x, y } => self.set_reg(
                x as int,
                self.v[x as int] ^ self.v[y as int],
            ),
            Instruction::AddReg { x, y } => self.add_reg(x as int, y as int),
            Instruction::SubReg { x, y } => self.sub_reg(x as int, x as int, y as int),
            Instruction::ShiftRight { x, y } => self.shift_right(x as int, y as int),
            Instruction::SubFrom { x, y } => self.sub_reg(x as int, y as int, x as int),
            Instruction::ShiftLeft { x, y } => self.shift_left(x as int, y as int),
            Instruction::SkipNeReg { x, y } => self.skip_if(self.v[x as int] != self.v[y as int]),
            Instruction::LoadIndex { nnn } => State { i: nnn, ..self },
            Instruction::JumpOffset { nnn } => State { pc: (nnn + self.v[0]) as u16, ..self },
            Instruction::Random { x, kk } => self.set_reg(x as int, random & kk),
            Instruction::Draw { x, y, n } => self.draw(x as int, y as int, n as int),
            Instruction::SkipKeyPressed { x } => self.skip_if(keys[self.v[x as int] as int] != 0),
            Instruction::SkipKeyReleased { x } => self.skip_if(keys[self.v[x as int] as int] == 0),
            Instruction::LoadDelay { x } => self.set_reg(x as int, self.timer_delay),
            Instruction::WaitKey { x } => self.wait_key(x as int, keys),
            Instruction::SetDelay { x } => State { timer_delay: self.v[x as int], ..self },
            Instruction::SetSound { x } => State { timer_sound: self.v[x as int], ..self },
            Instruction::AddIndex { x } => State {
                i: ((self.i + self.v[x as int]) % 0x10000) as u16,
                ..self
            },
            Instruction::LoadGlyph { x } => State { i: (self.v[x as int] * 5) as u16, ..self },
            Instruction::StoreBcd { x } => self.store_bcd(x as int),
            Instruction::StoreRegs { x } => self.store_regs(x as int),
            Instruction::LoadRegs { x } => self.load_regs(x as int),
            Instruction::Unknown { .. } => self,
        }
    }

    /// A skip that is `taken` does not push the program counter past the
    /// end of its range.
    pub open spec fn can_skip_if(self, taken: bool) -> bool {
        taken ==> self.pc + 2 <= 0xFFFF
    }

    /// `ins` stays within bounds: it touches no memory beyond address
    /// `0xFFF` and reads no key beyond key `0xF`.
    pub open spec fn within_bounds(self, ins: Instruction) -> bool {
        match ins {
            Instruction::SkipKeyPressed { x } | Instruction::SkipKeyReleased { x } => self.v[x as int]
                < 16,
            Instruction::Draw { n, .. } => n > 0 ==> self.i + n <= 4096,
            Instruction::StoreBcd { .. } => self.i + 2 < 4096,
            Instruction::StoreRegs { x } | Instruction::LoadRegs { x } => self.i + x < 4096,
            _ => true,
        }
    }

    /// `ins` keeps the program counter in its 16-bit range: a skip that is
    /// taken has room to go forward and a key wait room to go back.
    pub open spec fn keeps_pc_in_range(self, ins: Instruction, keys: Seq<u8>) -> bool {
        match ins {
            Instruction::SkipEqImm { x, kk } => self.can_skip_if(self.v[x as int] == kk),
            Instruction::SkipNeImm { x, kk } => self.can_skip_if(self.v[x as int] != kk),
            Instruction::SkipEqReg { x, y } => self.can_skip_if(
                self.v[x as int] == self.v[y as int],
            ),
            Instruction::SkipNeReg { x, y } => self.can_skip_if(
                self.v[x as int] != self.v[y as int],
            ),
            Instruction::SkipKeyPressed { x } => self.can_skip_if(
                keys[self.v[x as int] as int] != 0,
            ),
            Instruction::SkipKeyReleased { x } => self.can_skip_if(
                keys[self.v[x as int] as int] == 0,
            ),
            Instruction::WaitKey { .. } => last_pressed(keys, 16) < 0 ==> self.pc >= 2,
            _ => true,
        }
    }

    /// `ins` can be executed: it stays within bounds and keeps the program
    /// counter in range.
    pub open spec fn can_execute(self, ins: Instruction, keys: Seq<u8>) -> bool {
        self.within_bounds(ins) && self.keeps_pc_in_range(ins, keys)
    }

    /// A whole cycle can run: both bytes of the instruction word lie in
    /// memory and the instruction stays within bounds. Whatever the keys,
    /// the instruction can then be executed after the fetch.
    pub open spec fn can_step(self) -> bool {
        &&& self.pc + 1 < 4096
        &&& self.within_bounds(Instruction::decode_spec(self.opcode()))
    }

    /// The state after one fetch-decode-execute cycle.
    pub open spec fn step(self, keys: Seq<u8>, random: u8) -> State {
        self.fetch().execute(Instruction::decode_spec(self.opcode()), keys, random)
    }
}

} // verus!
