//! The instruction set: every 16-bit instruction word decodes to exactly one
//! [`Instruction`], and words that match no pattern decode to
//! [`Instruction::Unknown`].
use vstd::arithmetic::div_mod::lemma_fundamental_div_mod_converse;
use vstd::prelude::*;

verus! {

/// One decoded instruction.
///
/// Field names follow the usual notation for this architecture: `x` and `y`
/// are register numbers (second and third nibble), `n` is the fourth nibble,
/// `kk` the low byte and `nnn` the low twelve bits of the instruction word.
#[derive(Clone, Copy, Debug, PartialEq, Eq, Structural)]
pub enum Instruction {
    /// `00E0`: switch every pixel off.
    ClearScreen,
    /// `00EE`: return from a subroutine.
    Return,
    /// `1nnn`: jump to `nnn`.
    Jump { nnn: u16 },
    /// `2nnn`: call the subroutine at `nnn`.
    Call { nnn: u16 },
    /// `3xkk`: skip the next instruction if `Vx == kk`.
    SkipEqImm { x: u8, kk: u8 },
    /// `4xkk`: skip the next instruction if `Vx != kk`.
    SkipNeImm { x: u8, kk: u8 },
    /// `5xy0`: skip the next instruction if `Vx == Vy`.
    SkipEqReg { x: u8, y: u8 },
    /// `6xkk`: `Vx = kk`.
    LoadImm { x: u8, kk: u8 },
    /// `7xkk`: `Vx = Vx + kk` modulo 256, no flag.
    AddImm { x: u8, kk: u8 },
    /// `8xy0`: `Vx = Vy`.
    Move { x: u8, y: u8 },
    /// `8xy1`: `Vx = Vx | Vy`.
    Or { x: u8, y: u8 },
    /// `8xy2`: `Vx = Vx & Vy`.
    And { x: u8, y: u8 },
    /// `8xy3`: `Vx = Vx ^ Vy`.
    Xor { x: u8, y: u8 },
    /// `8xy4`: `Vx = Vx + Vy` modulo 256, `VF` = carry.
    AddReg { x: u8, y: u8 },
    /// `8xy5`: `Vx = Vx - Vy` modulo 256, `VF` = 1 if `Vx > Vy`.
    SubReg { x: u8, y: u8 },
    /// `8xy6`: shift right by one, `VF` = the bit shifted out.
    ShiftRight { x: u8, y: u8 },
    /// `8xy7`: `Vx = Vy - Vx` modulo 256, `VF` = 1 if `Vy > Vx`.
    SubFrom { x: u8, y: u8 },
    /// `8xyE`: shift left by one, `VF` = the bit shifted out.
    ShiftLeft { x: u8, y: u8 },
    /// `9xy0`: skip the next instruction if `Vx != Vy`.
    SkipNeReg { x: u8, y: u8 },
    /// `Annn`: `I = nnn`.
    LoadIndex { nnn: u16 },
    /// `Bnnn`: jump to `nnn + V0`.
    JumpOffset { nnn: u16 },
    /// `Cxkk`: `Vx` = a random byte masked with `kk`.
    Random { x: u8, kk: u8 },
    /// `Dxyn`: draw the `n`-row sprite at `I` at position (`Vx`, `Vy`).
    Draw { x: u8, y: u8, n: u8 },
    /// `Ex9E`: skip the next instruction if key `Vx` is pressed.
    SkipKeyPressed { x: u8 },
    /// `ExA1`: skip the next instruction if key `Vx` is not pressed.
    SkipKeyReleased { x: u8 },
    /// `Fx07`: `Vx` = delay timer.
    LoadDelay { x: u8 },
    /// `Fx0A`: wait for a key and store its number in `Vx`.
    WaitKey { x: u8 },
    /// `Fx15`: delay timer = `Vx`.
    SetDelay { x: u8 },
    /// `Fx18`: sound timer = `Vx`.
    SetSound { x: u8 },
    /// `Fx1E`: `I = I + Vx`.
    AddIndex { x: u8 },
    /// `Fx29`: `I` = address of the glyph for the digit in `Vx`.
    LoadGlyph { x: u8 },
    /// `Fx33`: store the three decimal digits of `Vx` at `I`, `I+1`, `I+2`.
    StoreBcd { x: u8 },
    /// `Fx55`: store `V0..=Vx` in memory from `I` on.
    StoreRegs { x: u8 },
    /// `Fx65`: load `V0..=Vx` from memory from `I` on.
    LoadRegs { x: u8 },
    /// Any word that matches none of the patterns above.
    Unknown { opcode: u16 },
}

/// First nibble of an instruction word.
pub open spec fn class_of(opcode: u16) -> int {
    opcode as int / 0x1000
}

/// Second nibble of an instruction word: the register number `x`.
pub open spec fn x_of(opcode: u16) -> u8 {
    ((opcode as int / 0x100) % 0x10) as u8
}

/// Third nibble of an instruction word: the register number `y`.
pub open spec fn y_of(opcode: u16) -> u8 {
    ((opcode as int / 0x10) % 0x10) as u8
}

/// Fourth nibble of an instruction word.
pub open spec fn n_of(opcode: u16) -> u8 {
    (opcode as int % 0x10) as u8
}

/// Low byte of an instruction word.
pub open spec fn kk_of(opcode: u16) -> u8 {
    (opcode as int % 0x100) as u8
}

/// Low twelve bits of an instruction word.
pub open spec fn nnn_of(opcode: u16) -> u16 {
    (opcode as int % 0x1000) as u16
}

/// Decoding of the register-to-register group `8xy?`.
pub open spec fn decode_alu(opcode: u16) -> Instruction {
    let x = x_of(opcode);
    let y = y_of(opcode);
    let n = n_of(opcode);
    if n == 0x0 {
        Instruction::Move { x, y }
    } else if n == 0x1 {
        Instruction::Or { x, y }
    } else if n == 0x2 {
        Instruction::And { x, y }
    } else if n == 0x3 {
        Instruction::Xor { x, y }
    } else if n == 0x4 {
        Instruction::AddReg { x, y }
    } else if n == 0x5 {
        Instruction::SubReg { x, y }
    } else if n == 0x6 {
        Instruction::ShiftRight { x, y }
    } else if n == 0x7 {
        Instruction::SubFrom { x, y }
    } else if n == 0xE {
        Instruction::ShiftLeft { x, y }
    } else {
        Instruction::Unknown { opcode }
    }
}

/// Decoding of the timer, index and memory group `Fx??`.
pub open spec fn decode_misc(opcode: u16) -> Instruction {
    let x = x_of(opcode);
    let kk = kk_of(opcode);
    if kk == 0x07 {
        Instruction::LoadDelay { x }
    } else if kk == 0x0A {
        Instruction::WaitKey { x }
    } else if kk == 0x15 {
        Instruction::SetDelay { x }
    } else if kk == 0x18 {
        Instruction::SetSound { x }
    } else if kk == 0x1E {
        Instruction::AddIndex { x }
    } else if kk == 0x29 {
        Instruction::LoadGlyph { x }
    } else if kk == 0x33 {
        Instruction::StoreBcd { x }
    } else if kk == 0x55 {
        Instruction::StoreRegs { x }
    } else if kk == 0x65 {
        Instruction::LoadRegs { x }
    } else {
        Instruction::Unknown { opcode }
    }
}

impl Instruction {
    /// The instruction that the word `opcode` stands for.
    pub open spec fn decode_spec(opcode: u16) -> Instruction {
        let class = class_of(opcode);
        let x = x_of(opcode);
        let y = y_of(opcode);
        let n = n_of(opcode);
        let kk = kk_of(opcode);
        let nnn = nnn_of(opcode);
        if class == 0x0 {
            if opcode == 0x00E0 {
                Instruction::ClearScreen
            } else if opcode == 0x00EE {
                Instruction::Return
            } else {
                Instruction::Unknown { opcode }
            }
        } else if class == 0x1 {
            Instruction::Jump { nnn }
        } else if class == 0x2 {
            Instruction::Call { nnn }
        } else if class == 0x3 {
            Instruction::SkipEqImm { x, kk }
        } else if class == 0x4 {
            Instruction::SkipNeImm { x, kk }
        } else if class == 0x5 {
            if n == 0 {
                Instruction::SkipEqReg { x, y }
            } else {
                Instruction::Unknown { opcode }
            }
        } else if class == 0x6 {
            Instruction::LoadImm { x, kk }
        } else if class == 0x7 {
            Instruction::AddImm { x, kk }
        } else if class == 0x8 {
            decode_alu(opcode)
        } else if class == 0x9 {
            if n == 0 {
                Instruction::SkipNeReg { x, y }
            } else {
                Instruction::Unknown { opcode }
            }
        } else if class == 0xA {
            Instruction::LoadIndex { nnn }
        } else if class == 0xB {
            Instruction::JumpOffset { nnn }
        } else if class == 0xC {
            Instruction::Random { x, kk }
        } else if class == 0xD {
            Instruction::Draw { x, y, n }
        } else if class == 0xE {
            if kk == 0x9E {
                Instruction::SkipKeyPressed { x }
            } else if kk == 0xA1 {
                Instruction::SkipKeyReleased { x }
            } else {
                Instruction::Unknown { opcode }
            }
        } else {
            decode_misc(opcode)
        }
    }

    /// Operand fields are in range: register numbers and `n` below 16,
    /// addresses below 4096.
    pub open spec fn wf(self) -> bool {
        match self {
            Instruction::ClearScreen | Instruction::Return => true,
            Instruction::Jump { nnn }
            | Instruction::Call { nnn }
            | Instruction::LoadIndex { nnn }
            | Instruction::JumpOffset { nnn } => nnn < 0x1000,
            Instruction::SkipEqImm { x, .. }
            | Instruction::SkipNeImm { x, .. }
            | Instruction::LoadImm { x, .. }
            | Instruction::AddImm { x, .. }
            | Instruction::Random { x, .. }
            | Instruction::SkipKeyPressed { x }
            | Instruction::SkipKeyReleased { x }
            | Instruction::LoadDelay { x }
            | Instruction::WaitKey { x }
            | Instruction::SetDelay { x }
            | Instruction::SetSound { x }
            | Instruction::AddIndex { x }
            | Instruction::LoadGlyph { x }
            | Instruction::StoreBcd { x }
            | Instruction::StoreRegs { x }
            | Instruction::LoadRegs { x } => x < 16,
            Instruction::SkipEqReg { x, y }
            | Instruction::Move { x, y }
            | Instruction::Or { x, y }
            | Instruction::And { x, y }
            | Instruction::Xor { x, y }
            | Instruction::AddReg { x, y }
            | Instruction::SubReg { x, y }
            | Instruction::ShiftRight { x, y }
            | Instruction::SubFrom { x, y }
            | Instruction::ShiftLeft { x, y }
            | Instruction::SkipNeReg { x, y } => x < 16 && y < 16,
            Instruction::Draw { x, y, n } => x < 16 && y < 16 && n < 16,
            Instruction::Unknown { .. } => true,
        }
    }

    /// The instruction word that stands for this instruction.
    pub open spec fn encode(self) -> u16 {
        match self {
            Instruction::ClearScreen => 0x00E0,
            Instruction::Return => 0x00EE,
            Instruction::Jump { nnn } => (0x1000 + nnn) as u16,
            Instruction::Call { nnn } => (0x2000 + nnn) as u16,
            Instruction::SkipEqImm { x, kk } => (0x3000 + 0x100 * x + kk) as u16,
            Instruction::SkipNeImm { x, kk } => (0x4000 + 0x100 * x + kk) as u16,
            Instruction::SkipEqReg { x, y } => (0x5000 + 0x100 * x + 0x10 * y) as u16,
            Instruction::LoadImm { x, kk } => (0x6000 + 0x100 * x + kk) as u16,
            Instruction::AddImm { x, kk } => (0x7000 + 0x100 * x + kk) as u16,
            Instruction::Move { x, y } => (0x8000 + 0x100 * x + 0x10 * y) as u16,
            Instruction::Or { x, y } => (0x8001 + 0x100 * x + 0x10 * y) as u16,
            Instruction::And { x, y } => (0x8002 + 0x100 * x + 0x10 * y) as u16,
            Instruction::Xor { x, y } => (0x8003 + 0x100 * x + 0x10 * y) as u16,
            Instruction::AddReg { x, y } => (0x8004 + 0x100 * x + 0x10 * y) as u16,
            Instruction::SubReg { x, y } => (0x8005 + 0x100 * x + 0x10 * y) as u16,
            Instruction::ShiftRight { x, y } => (0x8006 + 0x100 * x + 0x10 * y) as u16,
            Instruction::SubFrom { x, y } => (0x8007 + 0x100 * x + 0x10 * y) as u16,
            Instruction::ShiftLeft { x, y } => (0x800E + 0x100 * x + 0x10 * y) as u16,
            Instruction::SkipNeReg { x, y } => (0x9000 + 0x100 * x + 0x10 * y) as u16,
            Instruction::LoadIndex { nnn } => (0xA000 + nnn) as u16,
            Instruction::JumpOffset { nnn } => (0xB000 + nnn) as u16,
            Instruction::Random { x, kk } => (0xC000 + 0x100 * x + kk) as u16,
            Instruction::Draw { x, y, n } => (0xD000 + 0x100 * x + 0x10 * y + n) as u16,
            Instruction::SkipKeyPressed { x } => (0xE09E + 0x100 * x) as u16,
            Instruction::SkipKeyReleased { x } => (0xE0A1 + 0x100 * x) as u16,
            Instruction::LoadDelay { x } => (0xF007 + 0x100 * x) as u16,
            Instruction::WaitKey { x } => (0xF00A + 0x100 * x) as u16,
            Instruction::SetDelay { x } => (0xF015 + 0x100 * x) as u16,
            Instruction::SetSound { x } => (0xF018 + 0x100 * x) as u16,
            Instruction::AddIndex { x } => (0xF01E + 0x100 * x) as u16,
            Instruction::LoadGlyph { x } => (0xF029 + 0x100 * x) as u16,
            Instruction::StoreBcd { x } => (0xF033 + 0x100 * x) as u16,
            Instruction::StoreRegs { x } => (0xF055 + 0x100 * x) as u16,
            Instruction::LoadRegs { x } => (0xF065 + 0x100 * x) as u16,
            Instruction::Unknown { opcode } => opcode,
        }
    }

    /// The diagnostic that executing this instruction reports: the
    /// instruction word if it was not recognized, nothing otherwise.
    pub open spec fn diagnostic(self) -> Option<u16> {
        match self {
            Instruction::Unknown { opcode } => Some(opcode),
            _ => None,
        }
    }

    /// Splits an instruction word into its nibbles and derived fields and
    /// picks the instruction they stand for.
    #[verifier::when_used_as_spec(decode_spec)]
    pub fn decode(opcode: u16) -> (ins: Instruction)
        ensures
            ins == Instruction::decode_spec(opcode),
            ins.wf(),
    {
        let first_nibble = ((opcode & 0xF000) >> 12) as u8;
        let second_nibble = ((opcode & 0x0F00) >> 8) as u8;
        let third_nibble = ((opcode & 0x00F0) >> 4) as u8;
        let fourth_nibble = (opcode & 0x000F) as u8;
        let nnn = opcode & 0x0FFF;
        let kk = (opcode & 0x00FF) as u8;
        let x = second_nibble;
        let y = third_nibble;
        let n = fourth_nibble;
        proof {
            assert(((opcode & 0xF000) >> 12) == opcode / 0x1000) by (bit_vector);
            assert(((opcode & 0x0F00) >> 8) == (opcode / 0x100) % 0x10) by (bit_vector);
            assert(((opcode & 0x00F0) >> 4) == (opcode / 0x10) % 0x10) by (bit_vector);
            assert((opcode & 0x000F) == opcode % 0x10) by (bit_vector);
            assert((opcode & 0x0FFF) == opcode % 0x1000) by (bit_vector);
            assert((opcode & 0x00FF) == opcode % 0x100) by (bit_vector);
        }
        match first_nibble {
            0x0 => {
                if opcode == 0x00E0 {
                    Instruction::ClearScreen
                } else if opcode == 0x00EE {
                    Instruction::Return
                } else {
                    Instruction::Unknown { opcode }
                }
            },
            0x1 => Instruction::Jump { nnn },
            0x2 => Instruction::Call { nnn },
            0x3 => Instruction::SkipEqImm { x, kk },
            0x4 => Instruction::SkipNeImm { x, kk },
            0x5 => {
                if n == 0 {
                    Instruction::SkipEqReg { x, y }
                } else {
                    Instruction::Unknown { opcode }
                }
            },
            0x6 => Instruction::LoadImm { x, kk },
            0x7 => Instruction::AddImm { x, kk },
            0x8 => match n {
                0x0 => Instruction::Move { x, y },
                0x1 => Instruction::Or { x, y },
                0x2 => Instruction::And { x, y },
                0x3 => Instruction::Xor { x, y },
                0x4 => Instruction::AddReg { x, y },
                0x5 => Instruction::SubReg { x, y },
                0x6 => Instruction::ShiftRight { x, y },
                0x7 => Instruction::SubFrom { x, y },
                0xE => Instruction::ShiftLeft { x, y },
                _ => Instruction::Unknown { opcode },
            },
            0x9 => {
                if n == 0 {
                    Instruction::SkipNeReg { x, y }
                } else {
                    Instruction::Unknown { opcode }
                }
            },
            0xA => Instruction::LoadIndex { nnn },
            0xB => Instruction::JumpOffset { nnn },
            0xC => Instruction::Random { x, kk },
            0xD => Instruction::Draw { x, y, n },
            0xE => match kk {
                0x9E => Instruction::SkipKeyPressed { x },
                0xA1 => Instruction::SkipKeyReleased { x },
                _ => Instruction::Unknown { opcode },
            },
            _ => match kk {
                0x07 => Instruction::LoadDelay { x },
                0x0A => Instruction::WaitKey { x },
                0x15 => Instruction::SetDelay { x },
                0x18 => Instruction::SetSound { x },
                0x1E => Instruction::AddIndex { x },
                0x29 => Instruction::LoadGlyph { x },
                0x33 => Instruction::StoreBcd { x },
                0x55 => Instruction::StoreRegs { x },
                0x65 => Instruction::LoadRegs { x },
                _ => Instruction::Unknown { opcode },
            },
        }
    }
}

/// Every instruction word decodes to an instruction with operands in range.
pub proof fn lemma_decode_is_well_formed(opcode: u16)
    ensures
        Instruction::decode_spec(opcode).wf(),
{
}

/// An instruction word is made of its fields: the class nibble above the
/// twelve bits `nnn`, which are `x` above `kk`, which is `y` above `n`.
pub proof fn lemma_fields(opcode: u16)
    ensures
        0 <= class_of(opcode) < 16,
        x_of(opcode) < 16,
        y_of(opcode) < 16,
        n_of(opcode) < 16,
        nnn_of(opcode) < 0x1000,
        opcode == 0x1000 * class_of(opcode) + nnn_of(opcode),
        nnn_of(opcode) == 0x100 * x_of(opcode) + kk_of(opcode),
        kk_of(opcode) == 0x10 * y_of(opcode) + n_of(opcode),
{
}

/// The fields of a word that is put together from a class, `x`, `y` and `n`.
pub proof fn lemma_fields_of(class: int, x: u8, y: u8, n: u8)
    requires
        0 <= class < 16,
        x < 16,
        y < 16,
        n < 16,
    ensures
        ({
            let opcode = (0x1000 * class + 0x100 * x + 0x10 * y + n) as u16;
            &&& opcode == 0x1000 * class + 0x100 * x + 0x10 * y + n
            &&& class_of(opcode) == class
            &&& x_of(opcode) == x
            &&& y_of(opcode) == y
            &&& n_of(opcode) == n
            &&& kk_of(opcode) == 0x10 * y + n
            &&& nnn_of(opcode) == 0x100 * x + 0x10 * y + n
        }),
{
    let word = 0x1000 * class + 0x100 * x + 0x10 * y + n;
    lemma_fundamental_div_mod_converse(word, 0x1000, class, 0x100 * x + 0x10 * y + n);
    lemma_fundamental_div_mod_converse(word, 0x100, 0x10 * class + x, 0x10 * y + n);
    lemma_fundamental_div_mod_converse(0x10 * class + x, 0x10, class, x as int);
    lemma_fundamental_div_mod_converse(word, 0x10, 0x100 * class + 0x10 * x + y, n as int);
    lemma_fundamental_div_mod_converse(0x100 * class + 0x10 * x + y, 0x10, 0x10 * class + x, y as int);
}

proof fn lemma_encode_decode_alu(opcode: u16)
    requires
        class_of(opcode) == 0x8,
    ensures
        decode_alu(opcode).encode() == opcode,
{
    lemma_fields(opcode);
}

proof fn lemma_encode_decode_misc(opcode: u16)
    requires
        class_of(opcode) == 0xF,
    ensures
        decode_misc(opcode).encode() == opcode,
{
    lemma_fields(opcode);
}

/// Encoding what a word decodes to gives the word back: no two words decode
/// to the same instruction.
pub proof fn lemma_encode_decode(opcode: u16)
    ensures
        Instruction::decode_spec(opcode).encode() == opcode,
{
    lemma_fields(opcode);
    let class = class_of(opcode);
    if class == 0x8 {
        lemma_encode_decode_alu(opcode);
    } else if class == 0xF {
        lemma_encode_decode_misc(opcode);
    }
}

proof fn lemma_decode_encode_alu(ins: Instruction, x: u8, y: u8, n: u8)
    requires
        x < 16,
        y < 16,
        n < 16,
        ins.encode() == 0x8000 + 0x100 * x + 0x10 * y + n,
        ins == decode_alu(ins.encode()),
    ensures
        Instruction::decode_spec(ins.encode()) == ins,
{
    lemma_fields_of(0x8, x, y, n);
}

proof fn lemma_decode_encode_misc(ins: Instruction, x: u8, y: u8, n: u8)
    requires
        x < 16,
        y < 16,
        n < 16,
        ins.encode() == 0xF000 + 0x100 * x + 0x10 * y + n,
        ins == decode_misc(ins.encode()),
    ensures
        Instruction::decode_spec(ins.encode()) == ins,
{
    lemma_fields_of(0xF, x, y, n);
}

/// Decoding the word of a known instruction gives the instruction back:
/// every known instruction has a word of its own.
pub proof fn lemma_decode_encode(ins: Instruction)
    requires
        ins.wf(),
        !(ins is Unknown),
    ensures
        Instruction::decode_spec(ins.encode()) == ins,
{
    match ins {
        Instruction::ClearScreen => {
            lemma_fields_of(0x0, 0x0, 0xE, 0x0);
        },
        Instruction::Return => {
            lemma_fields_of(0x0, 0x0, 0xE, 0xE);
        },
        Instruction::Jump { nnn } => {
            lemma_fields((0x1000 + nnn) as u16);
        },
        Instruction::Call { nnn } => {
            lemma_fields((0x2000 + nnn) as u16);
        },
        Instruction::LoadIndex { nnn } => {
            lemma_fields((0xA000 + nnn) as u16);
        },
        Instruction::JumpOffset { nnn } => {
            lemma_fields((0xB000 + nnn) as u16);
        },
        Instruction::SkipEqImm { x, kk } => {
            lemma_fields_of(0x3, x, kk / 16, kk % 16);
        },
        Instruction::SkipNeImm { x, kk } => {
            lemma_fields_of(0x4, x, kk / 16, kk % 16);
        },
        Instruction::LoadImm { x, kk } => {
            lemma_fields_of(0x6, x, kk / 16, kk % 16);
        },
        Instruction::AddImm { x, kk } => {
            lemma_fields_of(0x7, x, kk / 16, kk % 16);
        },
        Instruction::Random { x, kk } => {
            lemma_fields_of(0xC, x, kk / 16, kk % 16);
        },
        Instruction::SkipEqReg { x, y } => {
            lemma_fields_of(0x5, x, y, 0);
        },
        Instruction::SkipNeReg { x, y } => {
            lemma_fields_of(0x9, x, y, 0);
        },
        Instruction::Draw { x, y, n } => {
            lemma_fields_of(0xD, x, y, n);
        },
        Instruction::SkipKeyPressed { x } => {
            lemma_fields_of(0xE, x, 0x9, 0xE);
        },
        Instruction::SkipKeyReleased { x } => {
            lemma_fields_of(0xE, x, 0xA, 0x1);
        },
        Instruction::Move { x, y } => {
            lemma_fields_of(0x8, x, y, 0x0);
            lemma_decode_encode_alu(ins, x, y, 0x0);
        },
        Instruction::Or { x, y } => {
            lemma_fields_of(0x8, x, y, 0x1);
            lemma_decode_encode_alu(ins, x, y, 0x1);
        },
        Instruction::And { x, y } => {
            lemma_fields_of(0x8, x, y, 0x2);
            lemma_decode_encode_alu(ins, x, y, 0x2);
        },
        Instruction::Xor { x, y } => {
            lemma_fields_of(0x8, x, y, 0x3);
            lemma_decode_encode_alu(ins, x, y, 0x3);
        },
        Instruction::AddReg { x, y } => {
            lemma_fields_of(0x8, x, y, 0x4);
            lemma_decode_encode_alu(ins, x, y, 0x4);
        },
        Instruction::SubReg { x, y } => {
            lemma_fields_of(0x8, x, y, 0x5);
            lemma_decode_encode_alu(ins, x, y, 0x5);
        },
        Instruction::ShiftRight { x, y } => {
            lemma_fields_of(0x8, x, y, 0x6);
            lemma_decode_encode_alu(ins, x, y, 0x6);
        },
        Instruction::SubFrom { x, y } => {
            lemma_fields_of(0x8, x, y, 0x7);
            lemma_decode_encode_alu(ins, x, y, 0x7);
        },
        Instruction::ShiftLeft { x, y } => {
            lemma_fields_of(0x8, x, y, 0xE);
            lemma_decode_encode_alu(ins, x, y, 0xE);
        },
        Instruction::LoadDelay { x } => {
            lemma_fields_of(0xF, x, 0x0, 0x7);
            lemma_decode_encode_misc(ins, x, 0x0, 0x7);
        },
        Instruction::WaitKey { x } => {
            lemma_fields_of(0xF, x, 0x0, 0xA);
            lemma_decode_encode_misc(ins, x, 0x0, 0xA);
        },
        Instruction::SetDelay { x } => {
            lemma_fields_of(0xF, x, 0x1, 0x5);
            lemma_decode_encode_misc(ins, x, 0x1, 0x5);
        },
        Instruction::SetSound { x } => {
            lemma_fields_of(0xF, x, 0x1, 0x8);
            lemma_decode_encode_misc(ins, x, 0x1, 0x8);
        },
        Instruction::AddIndex { x } => {
            lemma_fields_of(0xF, x, 0x1, 0xE);
            lemma_decode_encode_misc(ins, x, 0x1, 0xE);
        },
        Instruction::LoadGlyph { x } => {
            lemma_fields_of(0xF, x, 0x2, 0x9);
            lemma_decode_encode_misc(ins, x, 0x2, 0x9);
        },
        Instruction::StoreBcd { x } => {
            lemma_fields_of(0xF, x, 0x3, 0x3);
            lemma_decode_encode_misc(ins, x, 0x3, 0x3);
        },
        Instruction::StoreRegs { x } => {
            lemma_fields_of(0xF, x, 0x5, 0x5);
            lemma_decode_encode_misc(ins, x, 0x5, 0x5);
        },
        Instruction::LoadRegs { x } => {
            lemma_fields_of(0xF, x, 0x6, 0x5);
            lemma_decode_encode_misc(ins, x, 0x6, 0x5);
        },
        Instruction::Unknown { .. } => {},
    }
}

} // verus!
