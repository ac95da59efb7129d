//! The executable machine.
use crate::entropy::random_byte;
use crate::font::FONT_SET;
use crate::instruction::Instruction;
use crate::keypad::{last_pressed, scan_keys};
use crate::quirks::Quirks;
use crate::sprite::{
    blank_display, collides, covers, covers_at_offset, draw_display, lemma_covers_at_offset,
    lemma_offset_injective, lemma_offset_of_pixel, offset_of, strikes,
};
use crate::state::State;
use vstd::prelude::*;

verus! {

/// A CHIP-8 machine: 4 KiB of memory, sixteen registers, an index register,
/// a sixteen-level call stack, two timers and a 64x32 display.
pub struct Chip8 {
    memory: [u8; 4096],
    v: [u8; 16],
    pc: u16,
    i: u16,
    stack: [u16; 16],
    sp: usize,
    timer_delay: u8,
    timer_sound: u8,
    display: [u8; 2048],
    quirks: Quirks,
}

impl View for Chip8 {
    type V = State;

    closed spec fn view(&self) -> State {
        State {
            memory: self.memory@,
            v: self.v@,
            pc: self.pc,
            i: self.i,
            stack: self.stack@,
            sp: self.sp as nat,
            timer_delay: self.timer_delay,
            timer_sound: self.timer_sound,
            display: self.display@,
            quirks: self.quirks,
        }
    }
}

/// Position (`r`, `c`) comes before (`row`, `col`) in drawing order.
spec fn precedes(r: int, c: int, row: int, col: int) -> bool {
    r < row || (r == row && c < col)
}

/// Pixel `p` is covered by a sprite bit that comes before (`row`, `col`).
spec fn drawn_before(sprite: Seq<u8>, vx: int, vy: int, row: int, col: int, p: int) -> bool {
    let o = offset_of(vx, vy, p);
    covers_at_offset(sprite, vx, vy, p) && precedes(o / 64, o % 64, row, col)
}

/// A sprite bit that comes before (`row`, `col`) lands on a pixel that is on.
spec fn struck_before(display: Seq<u8>, sprite: Seq<u8>, vx: int, vy: int, row: int, col: int)
    -> bool {
    exists|r: int, c: int|
        precedes(r, c, row, col) && #[trigger] strikes(display, sprite, vx, vy, r, c)
}

impl Chip8 {
    #[verifier::type_invariant]
    spec fn inv(&self) -> bool {
        self@.wf()
    }

    /// A fresh machine with the given quirks: everything zero, the font in
    /// low memory, the program counter at `0x200`.
    pub fn new(quirks: Quirks) -> (chip8: Self)
        ensures
            chip8@ == State::initial(quirks),
            chip8@.wf(),
    {
        let mut chip8 = Chip8 {
            memory: [0; 4096],
            v: [0; 16],
            pc: 0x200,
            i: 0,
            stack: [0; 16],
            sp: 0,
            timer_delay: 0,
            timer_sound: 0,
            display: [0; 2048],
            quirks,
        };
        chip8.initialize_memory();
        assert(chip8@ =~= State::initial(quirks));
        chip8
    }

    /// Copies the font to addresses `0x000..0x050`.
    fn initialize_memory(&mut self)
        ensures
            final(self)@ == (State {
                memory: Seq::new(
                    4096,
                    |a: int|
                        if a < 80 {
                            FONT_SET@[a]
                        } else {
                            old(self)@.memory[a]
                        },
                ),
                ..old(self)@
            }),
    {
        let mut k: usize = 0;
        while k < 80
            invariant
                k <= 80,
                self@ == (State { memory: self@.memory, ..old(self)@ }),
                forall|a: int| 0 <= a < k ==> self@.memory[a] == FONT_SET@[a],
                forall|a: int| k <= a < 4096 ==> self@.memory[a] == old(self)@.memory[a],
            decreases 80 - k,
        {
            proof {
                use_type_invariant(&*self);
            }
            self.memory[k] = FONT_SET[k];
            k += 1;
        }
        assert(self@ =~= (State {
            memory: Seq::new(
                4096,
                |a: int|
                    if a < 80 {
                        FONT_SET@[a]
                    } else {
                        old(self)@.memory[a]
                    },
            ),
            ..old(self)@
        }));
    }

    /// Copies a program image to address `0x200` and up. Bytes that do not
    /// fit into memory are dropped.
    pub fn load_rom(&mut self, data: &[u8])
        ensures
            final(self)@ == old(self)@.load(data@),
            final(self)@.wf(),
    {
        let mut k: usize = 0;
        while k < data.len() && k < 4096 - 0x200
            invariant
                k <= data.len(),
                k <= 4096 - 0x200,
                self@ == (State { memory: self@.memory, ..old(self)@ }),
                forall|a: int|
                    0 <= a < 4096 ==> self@.memory[a] == if 0x200 <= a < 0x200 + k {
                        data@[a - 0x200]
                    } else {
                        old(self)@.memory[a]
                    },
            decreases data.len() - k,
        {
            proof {
                use_type_invariant(&*self);
            }
            self.memory[k + 0x200] = data[k];
            k += 1;
        }
        assert(self@ =~= old(self)@.load(data@));
        proof {
            use_type_invariant(&*self);
        }
    }

    /// The display: 2048 pixels, row-major, each 0 or 1.
    pub fn get_display(&self) -> (display: &[u8])
        ensures
            display@ == self@.display,
            display@.len() == 2048,
            forall|p: int| 0 <= p < 2048 ==> #[trigger] display@[p] <= 1,
    {
        proof {
            use_type_invariant(self);
        }
        &self.display
    }

    /// The sixteen registers.
    pub fn get_v(&self) -> (v: &[u8])
        ensures
            v@ == self@.v,
            v@.len() == 16,
    {
        &self.v
    }

    /// The program counter.
    pub fn get_pc(&self) -> (pc: u16)
        ensures
            pc == self@.pc,
    {
        self.pc
    }

    /// The number of return addresses on the stack.
    pub fn get_sp(&self) -> (sp: usize)
        ensures
            sp == self@.sp,
            sp <= 16,
    {
        proof {
            use_type_invariant(self);
        }
        self.sp
    }

    /// The sixteen stack slots; the first `get_sp()` of them are in use.
    pub fn get_stack(&self) -> (stack: &[u16])
        ensures
            stack@ == self@.stack,
            stack@.len() == 16,
    {
        &self.stack
    }

    /// Sets register `index` to `value`.
    pub fn set_v(&mut self, index: usize, value: u8)
        requires
            index < 16,
        ensures
            final(self)@ == old(self)@.set_reg(index as int, value),
            final(self)@.wf(),
    {
        proof {
            use_type_invariant(&*self);
        }
        self.v[index] = value;
    }

    /// The value of register `index`.
    pub fn get_v_at(&self, index: usize) -> (value: u8)
        requires
            index < 16,
        ensures
            value == self@.v[index as int],
    {
        self.v[index]
    }

    /// The index register `I`.
    pub fn get_i(&self) -> (i: u16)
        ensures
            i == self@.i,
    {
        self.i
    }

    /// The delay timer.
    pub fn get_timer_delay(&self) -> (timer: u8)
        ensures
            timer == self@.timer_delay,
    {
        self.timer_delay
    }

    /// The sound timer; a tone sounds while it is nonzero.
    pub fn get_timer_sound(&self) -> (timer: u8)
        ensures
            timer == self@.timer_sound,
    {
        self.timer_sound
    }

    /// Counts both timers down by one, stopping at zero.
    pub fn update_timers(&mut self)
        ensures
            final(self)@ == old(self)@.tick_timers(),
            final(self)@.wf(),
    {
        proof {
            use_type_invariant(&*self);
        }
        if self.timer_delay > 0 {
            self.timer_delay -= 1;
        }
        if self.timer_sound > 0 {
            self.timer_sound -= 1;
        }
    }

    /// The instruction word at the program counter.
    fn peek_opcode(&self) -> (opcode: u16)
        requires
            self@.pc + 1 < 4096,
        ensures
            opcode == self@.opcode(),
    {
        let hi = self.memory[self.pc as usize];
        let lo = self.memory[(self.pc + 1) as usize];
        assert(((hi as u16) << 8 | (lo as u16)) == hi * 256 + lo) by (bit_vector);
        (hi as u16) << 8 | (lo as u16)
    }

    /// Reads the instruction word at the program counter, high byte first,
    /// and moves the program counter past it.
    pub fn fetch_opcode(&mut self) -> (opcode: u16)
        requires
            old(self)@.pc + 1 < 4096,
        ensures
            opcode == old(self)@.opcode(),
            final(self)@ == old(self)@.fetch(),
    {
        proof {
            use_type_invariant(&*self);
        }
        let opcode = self.peek_opcode();
        self.pc += 2;
        opcode
    }

    /// Moves the program counter past the next instruction if `taken`.
    fn skip_if(&mut self, taken: bool)
        requires
            old(self)@.can_skip_if(taken),
        ensures
            final(self)@ == old(self)@.skip_if(taken),
    {
        proof {
            use_type_invariant(&*self);
        }
        if taken {
            self.pc += 2;
        }
    }

    /// Switches every pixel off.
    fn clear_display(&mut self)
        ensures
            final(self)@ == (State { display: blank_display(), ..old(self)@ }),
    {
        let mut p: usize = 0;
        while p < 2048
            invariant
                p <= 2048,
                self@ == (State { display: self@.display, ..old(self)@ }),
                forall|q: int| 0 <= q < p ==> self@.display[q] == 0,
            decreases 2048 - p,
        {
            proof {
                use_type_invariant(&*self);
            }
            self.display[p] = 0;
            p += 1;
        }
        assert(self@ =~= (State { display: blank_display(), ..old(self)@ }));
    }

    /// Stores the hundreds, tens and units digit of `Vx` at `I`, `I + 1`
    /// and `I + 2`.
    fn store_bcd(&mut self, x: u8)
        requires
            x < 16,
            old(self)@.i + 2 < 4096,
        ensures
            final(self)@ == old(self)@.store_bcd(x as int),
    {
        proof {
            use_type_invariant(&*self);
        }
        let value = self.v[x as usize];
        let at = self.i as usize;
        self.memory[at] = value / 100;
        self.memory[at + 1] = (value % 100) / 10;
        self.memory[at + 2] = value % 10;
    }

    /// Copies `V0..=Vx` to memory from `I` on.
    fn store_regs(&mut self, x: u8)
        requires
            x < 16,
            old(self)@.i + x < 4096,
        ensures
            final(self)@ == old(self)@.store_regs(x as int),
    {
        let at = self.i as usize;
        let mut k: usize = 0;
        while k <= x as usize
            invariant
                k <= x + 1,
                x < 16,
                at == old(self)@.i,
                at + x < 4096,
                self@ == (State { memory: self@.memory, ..old(self)@ }),
                forall|a: int|
                    0 <= a < 4096 ==> self@.memory[a] == if at <= a < at + k {
                        old(self)@.v[a - at]
                    } else {
                        old(self)@.memory[a]
                    },
            decreases x + 1 - k,
        {
            proof {
                use_type_invariant(&*self);
            }
            self.memory[at + k] = self.v[k];
            k += 1;
        }
        assert(self@ =~= old(self)@.store_regs(x as int));
    }

    /// Copies memory from `I` on to `V0..=Vx`.
    fn load_regs(&mut self, x: u8)
        requires
            x < 16,
            old(self)@.i + x < 4096,
        ensures
            final(self)@ == old(self)@.load_regs(x as int),
    {
        let at = self.i as usize;
        let mut k: usize = 0;
        while k <= x as usize
            invariant
                k <= x + 1,
                x < 16,
                at == old(self)@.i,
                at + x < 4096,
                self@ == (State { v: self@.v, ..old(self)@ }),
                forall|r: int|
                    0 <= r < 16 ==> self@.v[r] == if r < k {
                        old(self)@.memory[at + r]
                    } else {
                        old(self)@.v[r]
                    },
            decreases x + 1 - k,
        {
            proof {
                use_type_invariant(&*self);
            }
            self.v[k] = self.memory[at + k];
            k += 1;
        }
        assert(self@ =~= old(self)@.load_regs(x as int));
    }

    /// Stores the number of the pressed key in `Vx`, or moves the program
    /// counter back onto this instruction if no key is pressed.
    fn wait_key(&mut self, x: u8, keypad: &[u8; 16])
        requires
            x < 16,
            last_pressed(keypad@, 16) < 0 ==> old(self)@.pc >= 2,
        ensures
            final(self)@ == old(self)@.wait_key(x as int, keypad@),
    {
        proof {
            use_type_invariant(&*self);
        }
        match scan_keys(keypad) {
            Some(key) => {
                self.v[x as usize] = key;
            },
            None => {
                self.pc -= 2;
            },
        }
    }

    /// XORs the `n`-row sprite at `I` into the display at (`Vx`, `Vy`) and
    /// sets `VF` to 1 if a set bit landed on a pixel that was on, else to 0.
    fn draw(&mut self, x: u8, y: u8, n: u8)
        requires
            x < 16,
            y < 16,
            n < 16,
            n > 0 ==> old(self)@.i + n <= 4096,
        ensures
            final(self)@ == old(self)@.draw(x as int, y as int, n as int),
    {
        proof {
            use_type_invariant(&*self);
        }
        let vx = self.v[x as usize] as usize;
        let vy = self.v[y as usize] as usize;
        let height = n as usize;
        let ghost before = self@;
        let ghost sprite = before.sprite(n as int);
        let mut collision: u8 = 0;
        let mut row: usize = 0;
        while row < height
            invariant
                row <= height,
                height == n,
                n < 16,
                vx < 256,
                vy < 256,
                n > 0 ==> before.i + n <= 4096,
                before == old(self)@,
                before.wf(),
                sprite == before.sprite(n as int),
                self@ == (State { display: self@.display, ..before }),
                forall|p: int|
                    0 <= p < 2048 ==> self@.display[p] == if drawn_before(
                        sprite,
                        vx as int,
                        vy as int,
                        row as int,
                        0,
                        p,
                    ) {
                        before.display[p] ^ 1
                    } else {
                        before.display[p]
                    },
                collision <= 1,
                collision == 1 <==> struck_before(
                    before.display,
                    sprite,
                    vx as int,
                    vy as int,
                    row as int,
                    0,
                ),
            decreases height - row,
        {
            let pixel = self.memory[self.i as usize + row];
            let mut col: u8 = 0;
            while col < 8
                invariant
                    row < height,
                    height == n,
                    n < 16,
                    col <= 8,
                    vx < 256,
                    vy < 256,
                    before.wf(),
                    sprite == before.sprite(n as int),
                    pixel == sprite[row as int],
                    self@ == (State { display: self@.display, ..before }),
                    forall|p: int|
                        0 <= p < 2048 ==> self@.display[p] == if drawn_before(
                            sprite,
                            vx as int,
                            vy as int,
                            row as int,
                            col as int,
                            p,
                        ) {
                            before.display[p] ^ 1
                        } else {
                            before.display[p]
                        },
                    collision <= 1,
                    collision == 1 <==> struck_before(
                        before.display,
                        sprite,
                        vx as int,
                        vy as int,
                        row as int,
                        col as int,
                    ),
                decreases 8 - col,
            {
                if pixel & (0x80u8 >> col) != 0 {
                    let idx = (vx + col as usize + (vy + row) * 64) % 2048;
                    proof {
                        use_type_invariant(&*self);
                        lemma_offset_of_pixel(vx as int, vy as int, row as int, col as int);
                        assert forall|p: int| 0 <= p < 2048 && p != idx implies offset_of(
                            vx as int,
                            vy as int,
                            p,
                        ) != 64 * row + col by {
                            if offset_of(vx as int, vy as int, p) == 64 * row + col {
                                lemma_offset_injective(vx as int, vy as int, p, idx as int);
                            }
                        }
                    }
                    let lit = self.display[idx];
                    if lit == 1 {
                        collision = 1;
                    }
                    assert(lit <= 1 ==> lit ^ 1 <= 1) by (bit_vector);
                    self.display[idx] = lit ^ 1;
                    proof {
                        assert(strikes(
                            before.display,
                            sprite,
                            vx as int,
                            vy as int,
                            row as int,
                            col as int,
                        ) == (lit == 1));
                    }
                } else {
                    proof {
                        assert(!strikes(
                            before.display,
                            sprite,
                            vx as int,
                            vy as int,
                            row as int,
                            col as int,
                        ));
                    }
                }
                col += 1;
            }
            row += 1;
        }
        proof {
            use_type_invariant(&*self);
        }
        self.v[0xF] = collision;
        proof {
            assert forall|p: int| 0 <= p < 2048 implies drawn_before(
                sprite,
                vx as int,
                vy as int,
                n as int,
                0,
                p,
            ) == covers(sprite, vx as int, vy as int, p) by {
                lemma_covers_at_offset(sprite, vx as int, vy as int, p);
            }
            assert(self@.display =~= draw_display(before.display, sprite, vx as int, vy as int));
            assert(struck_before(before.display, sprite, vx as int, vy as int, n as int, 0)
                == collides(before.display, sprite, vx as int, vy as int));
            assert(self@ =~= before.draw(x as int, y as int, n as int));
        }
    }

    /// Sets register `x` to `value`.
    fn set_reg(&mut self, x: u8, value: u8)
        requires
            x < 16,
        ensures
            final(self)@ == old(self)@.set_reg(x as int, value),
    {
        proof {
            use_type_invariant(&*self);
        }
        self.v[x as usize] = value;
    }

    /// `8xy4`: `VF` gets the carry of `Vx + Vy`, then `Vx` the sum.
    fn add_reg(&mut self, x: u8, y: u8)
        requires
            x < 16,
            y < 16,
        ensures
            final(self)@ == old(self)@.add_reg(x as int, y as int),
    {
        let result = self.v[x as usize].wrapping_add(self.v[y as usize]);
        let carry = self.v[x as usize].checked_add(self.v[y as usize]).is_none();
        self.set_reg(
            0xF,
            if carry {
                1
            } else {
                0
            },
        );
        self.set_reg(x, result);
    }

    /// `8xy5` and `8xy7`: `VF` gets 1 if `Va > Vb` and 0 if not, then `Vx`
    /// gets `Va - Vb`.
    fn sub_reg(&mut self, x: u8, a: u8, b: u8)
        requires
            x < 16,
            a < 16,
            b < 16,
        ensures
            final(self)@ == old(self)@.sub_reg(x as int, a as int, b as int),
    {
        let no_borrow = self.v[a as usize] > self.v[b as usize];
        self.set_reg(
            0xF,
            if no_borrow {
                1
            } else {
                0
            },
        );
        self.set_reg(x, self.v[a as usize].wrapping_sub(self.v[b as usize]));
    }

    /// With the `shift_vy` quirk, copies `Vy` to `Vx` ahead of a shift.
    fn shift_operand(&mut self, x: u8, y: u8)
        requires
            x < 16,
            y < 16,
        ensures
            final(self)@ == old(self)@.shift_operand(x as int, y as int),
    {
        if self.quirks.shift_vy {
            self.set_reg(x, self.v[y as usize]);
        }
    }

    /// `8xy6`: `VF` gets the lowest bit of the operand, then `Vx` is shifted
    /// right by one.
    fn shift_right(&mut self, x: u8, y: u8)
        requires
            x < 16,
            y < 16,
        ensures
            final(self)@ == old(self)@.shift_right(x as int, y as int),
    {
        self.shift_operand(x, y);
        let operand = self.v[x as usize];
        assert(operand & 1 == operand % 2) by (bit_vector);
        self.set_reg(0xF, operand & 1);
        let shifted = self.v[x as usize];
        assert(shifted >> 1 == shifted / 2) by (bit_vector);
        self.set_reg(x, shifted >> 1);
    }

    /// `8xyE`: `VF` gets the highest bit of the operand, then `Vx` is
    /// shifted left by one.
    fn shift_left(&mut self, x: u8, y: u8)
        requires
            x < 16,
            y < 16,
        ensures
            final(self)@ == old(self)@.shift_left(x as int, y as int),
    {
        self.shift_operand(x, y);
        let operand = self.v[x as usize];
        assert((operand & 0x80) >> 7 == operand / 128) by (bit_vector);
        self.set_reg(0xF, (operand & 0x80) >> 7);
        let shifted = self.v[x as usize];
        assert(shifted << 1 == (shifted * 2) % 256) by (bit_vector);
        self.set_reg(x, shifted << 1);
    }

    /// Executes an instruction of the register-to-register group `8xy?`.
    fn execute_alu(&mut self, ins: Instruction)
        requires
            ins.wf(),
            ins is Move || ins is Or || ins is And || ins is Xor || ins is AddReg || ins is SubReg
                || ins is ShiftRight || ins is SubFrom || ins is ShiftLeft,
        ensures
            final(self)@ == old(self)@.execute(ins, Seq::empty(), 0),
    {
        match ins {
            Instruction::Move { x, y } => {
                self.set_reg(x, self.v[y as usize]);
            },
            Instruction::Or { x, y } => {
                self.set_reg(x, self.v[x as usize] | self.v[y as usize]);
            },
            Instruction::And { x, y } => {
                self.set_reg(x, self.v[x as usize] & self.v[y as usize]);
            },
            Instruction::Xor { x, y } => {
                self.set_reg(x, self.v[x as usize] ^ self.v[y as usize]);
            },
            Instruction::AddReg { x, y } => {
                self.add_reg(x, y);
            },
            Instruction::SubReg { x, y } => {
                self.sub_reg(x, x, y);
            },
            Instruction::ShiftRight { x, y } => {
                self.shift_right(x, y);
            },
            Instruction::SubFrom { x, y } => {
                self.sub_reg(x, y, x);
            },
            Instruction::ShiftLeft { x, y } => {
                self.shift_left(x, y);
            },
            _ => {},
        }
    }

    /// Executes a jump, call, return or conditional skip.
    fn execute_flow(&mut self, ins: Instruction, keypad: &[u8; 16])
        requires
            ins.wf(),
            old(self)@.can_execute(ins, keypad@),
            ins is Return || ins is Jump || ins is Call || ins is JumpOffset || ins is SkipEqImm
                || ins is SkipNeImm || ins is SkipEqReg || ins is SkipNeReg
                || ins is SkipKeyPressed || ins is SkipKeyReleased,
        ensures
            final(self)@ == old(self)@.execute(ins, keypad@, 0),
    {
        proof {
            use_type_invariant(&*self);
        }
        match ins {
            Instruction::Return => {
                if self.sp > 0 {
                    self.sp -= 1;
                    self.pc = self.stack[self.sp];
                }
            },
            Instruction::Jump { nnn } => {
                self.pc = nnn;
            },
            Instruction::Call { nnn } => {
                if self.sp < 16 {
                    self.stack[self.sp] = self.pc;
                    self.sp += 1;
                    self.pc = nnn;
                }
            },
            Instruction::JumpOffset { nnn } => {
                self.pc = nnn + self.v[0] as u16;
            },
            Instruction::SkipEqImm { x, kk } => {
                self.skip_if(self.v[x as usize] == kk);
            },
            Instruction::SkipNeImm { x, kk } => {
                self.skip_if(self.v[x as usize] != kk);
            },
            Instruction::SkipEqReg { x, y } => {
                self.skip_if(self.v[x as usize] == self.v[y as usize]);
            },
            Instruction::SkipNeReg { x, y } => {
                self.skip_if(self.v[x as usize] != self.v[y as usize]);
            },
            Instruction::SkipKeyPressed { x } => {
                self.skip_if(keypad[self.v[x as usize] as usize] != 0);
            },
            Instruction::SkipKeyReleased { x } => {
                self.skip_if(keypad[self.v[x as usize] as usize] == 0);
            },
            _ => {},
        }
    }

    /// Executes an instruction that sets a timer or the index register.
    fn execute_timer_or_index(&mut self, ins: Instruction)
        requires
            ins.wf(),
            ins is LoadIndex || ins is SetDelay || ins is SetSound || ins is AddIndex
                || ins is LoadGlyph,
        ensures
            final(self)@ == old(self)@.execute(ins, Seq::empty(), 0),
    {
        proof {
            use_type_invariant(&*self);
        }
        match ins {
            Instruction::LoadIndex { nnn } => {
                self.i = nnn;
            },
            Instruction::SetDelay { x } => {
                self.timer_delay = self.v[x as usize];
            },
            Instruction::SetSound { x } => {
                self.timer_sound = self.v[x as usize];
            },
            Instruction::AddIndex { x } => {
                self.i = self.i.wrapping_add(self.v[x as usize] as u16);
            },
            Instruction::LoadGlyph { x } => {
                self.i = self.v[x as usize] as u16 * 5;
            },
            _ => {},
        }
    }

    /// Executes one decoded instruction. `random` is the byte that a
    /// `Random` instruction masks and stores; no other instruction reads it.
    pub fn execute(&mut self, ins: Instruction, keypad: [u8; 16], random: u8)
        requires
            ins.wf(),
            old(self)@.can_execute(ins, keypad@),
        ensures
            final(self)@ == old(self)@.execute(ins, keypad@, random),
            final(self)@.wf(),
    {
        match ins {
            Instruction::ClearScreen => {
                self.clear_display();
            },
            Instruction::Return
            | Instruction::Jump { .. }
            | Instruction::Call { .. }
            | Instruction::JumpOffset { .. }
            | Instruction::SkipEqImm { .. }
            | Instruction::SkipNeImm { .. }
            | Instruction::SkipEqReg { .. }
            | Instruction::SkipNeReg { .. }
            | Instruction::SkipKeyPressed { .. }
            | Instruction::SkipKeyReleased { .. } => {
                self.execute_flow(ins, &keypad);
            },
            Instruction::LoadImm { x, kk } => {
                self.set_reg(x, kk);
            },
            Instruction::AddImm { x, kk } => {
                self.set_reg(x, self.v[x as usize].wrapping_add(kk));
            },
            Instruction::Move { .. }
            | Instruction::Or { .. }
            | Instruction::And { .. }
            | Instruction::Xor { .. }
            | Instruction::AddReg { .. }
            | Instruction::SubReg { .. }
            | Instruction::ShiftRight { .. }
            | Instruction::SubFrom { .. }
            | Instruction::ShiftLeft { .. } => {
                self.execute_alu(ins);
            },
            Instruction::Random { x, kk } => {
                self.set_reg(x, random & kk);
            },
            Instruction::Draw { x, y, n } => {
                self.draw(x, y, n);
            },
            Instruction::LoadDelay { x } => {
                self.set_reg(x, self.timer_delay);
            },
            Instruction::WaitKey { x } => {
                self.wait_key(x, &keypad);
            },
            Instruction::LoadIndex { .. }
            | Instruction::SetDelay { .. }
            | Instruction::SetSound { .. }
            | Instruction::AddIndex { .. }
            | Instruction::LoadGlyph { .. } => {
                self.execute_timer_or_index(ins);
            },
            Instruction::StoreBcd { x } => {
                self.store_bcd(x);
            },
            Instruction::StoreRegs { x } => {
                self.store_regs(x);
            },
            Instruction::LoadRegs { x } => {
                self.load_regs(x);
            },
            Instruction::Unknown { .. } => {},
        }
        proof {
            use_type_invariant(&*self);
        }
    }

    /// Decodes and executes the instruction word `opcode`, drawing a random
    /// byte where the instruction asks for one. Returns the word if it is
    /// not a known instruction, for the caller to report; the machine is
    /// then left as it was.
    pub fn execute_opcode(&mut self, opcode: u16, keypad: [u8; 16]) -> (unknown: Option<u16>)
        requires
            old(self)@.can_execute(Instruction::decode_spec(opcode), keypad@),
        ensures
            unknown == Instruction::decode_spec(opcode).diagnostic(),
            exists|random: u8|
                final(self)@ == #[trigger] old(self)@.execute(
                    Instruction::decode_spec(opcode),
                    keypad@,
                    random,
                ),
            !(Instruction::decode_spec(opcode) is Random) ==> final(self)@ == old(self)@.execute(
                Instruction::decode_spec(opcode),
                keypad@,
                0,
            ),
            final(self)@.wf(),
    {
        let ins = Instruction::decode(opcode);
        let random = match ins {
            Instruction::Random { .. } => random_byte(),
            _ => 0,
        };
        self.execute(ins, keypad, random);
        match ins {
            Instruction::Unknown { opcode } => Some(opcode),
            _ => None,
        }
    }

    /// Runs one cycle: fetches the instruction word at the program counter,
    /// decodes it and executes it with the key flags `keypad` (nonzero means
    /// pressed). Returns the word if it is not a known instruction.
    pub fn tick(&mut self, keypad: [u8; 16]) -> (unknown: Option<u16>)
        requires
            old(self)@.can_step(),
        ensures
            unknown == Instruction::decode_spec(old(self)@.opcode()).diagnostic(),
            exists|random: u8| final(self)@ == #[trigger] old(self)@.step(keypad@, random),
            !(Instruction::decode_spec(old(self)@.opcode()) is Random) ==> final(self)@ == old(
                self,
            )@.step(keypad@, 0),
            final(self)@.wf(),
    {
        let opcode = self.fetch_opcode();
        let ghost fetched = self@;
        let unknown = self.execute_opcode(opcode, keypad);
        proof {
            let ins = Instruction::decode_spec(opcode);
            let random = choose|random: u8| self@ == #[trigger] fetched.execute(ins, keypad@, random);
            assert(self@ == old(self)@.step(keypad@, random));
        }
        unknown
    }

    /// Whether `ins` stays within memory and within the key pad.
    fn within_bounds(&self, ins: Instruction) -> (ok: bool)
        requires
            ins.wf(),
        ensures
            ok == self@.within_bounds(ins),
    {
        match ins {
            Instruction::SkipKeyPressed { x } | Instruction::SkipKeyReleased { x } => {
                self.v[x as usize] < 16
            },
            Instruction::Draw { x: _, y: _, n } => n == 0 || self.i as usize + n as usize <= 4096,
            Instruction::StoreBcd { .. } => (self.i as usize) + 2 < 4096,
            Instruction::StoreRegs { x } | Instruction::LoadRegs { x } => {
                self.i as usize + (x as usize) < 4096
            },
            _ => true,
        }
    }

    /// Whether `execute` may be called with `ins` and `keypad`.
    pub fn can_execute(&self, ins: Instruction, keypad: [u8; 16]) -> (ok: bool)
        requires
            ins.wf(),
        ensures
            ok == self@.can_execute(ins, keypad@),
    {
        if !self.within_bounds(ins) {
            return false;
        }
        let room_to_skip = self.pc <= 0xFFFF - 2;
        match ins {
            Instruction::SkipEqImm { x, kk } => self.v[x as usize] != kk || room_to_skip,
            Instruction::SkipNeImm { x, kk } => self.v[x as usize] == kk || room_to_skip,
            Instruction::SkipEqReg { x, y } => {
                self.v[x as usize] != self.v[y as usize] || room_to_skip
            },
            Instruction::SkipNeReg { x, y } => {
                self.v[x as usize] == self.v[y as usize] || room_to_skip
            },
            Instruction::SkipKeyPressed { x } => {
                keypad[self.v[x as usize] as usize] == 0 || room_to_skip
            },
            Instruction::SkipKeyReleased { x } => {
                keypad[self.v[x as usize] as usize] != 0 || room_to_skip
            },
            Instruction::WaitKey { .. } => scan_keys(&keypad).is_some() || self.pc >= 2,
            _ => true,
        }
    }

    /// Whether `tick` may be called: the instruction word lies within memory
    /// and so does everything the instruction touches.
    pub fn can_tick(&self) -> (ok: bool)
        ensures
            ok == self@.can_step(),
    {
        if self.pc >= 4095 {
            return false;
        }
        let ins = Instruction::decode(self.peek_opcode());
        self.within_bounds(ins)
    }
}

} // verus!
