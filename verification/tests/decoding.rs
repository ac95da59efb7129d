use chip8::instruction::Instruction;

#[test]
fn decode_control_flow() {
    assert_eq!(Instruction::decode(0x00E0), Instruction::ClearScreen);
    assert_eq!(Instruction::decode(0x00EE), Instruction::Return);
    assert_eq!(Instruction::decode(0x1ABC), Instruction::Jump { nnn: 0xABC });
    assert_eq!(Instruction::decode(0x2FFF), Instruction::Call { nnn: 0xFFF });
    assert_eq!(Instruction::decode(0xB001), Instruction::JumpOffset { nnn: 0x001 });
    assert_eq!(Instruction::decode(0x3A7F), Instruction::SkipEqImm { x: 0xA, kk: 0x7F });
    assert_eq!(Instruction::decode(0x4B80), Instruction::SkipNeImm { x: 0xB, kk: 0x80 });
    assert_eq!(Instruction::decode(0x5CD0), Instruction::SkipEqReg { x: 0xC, y: 0xD });
    assert_eq!(Instruction::decode(0x9EF0), Instruction::SkipNeReg { x: 0xE, y: 0xF });
    assert_eq!(Instruction::decode(0xE39E), Instruction::SkipKeyPressed { x: 3 });
    assert_eq!(Instruction::decode(0xE4A1), Instruction::SkipKeyReleased { x: 4 });
}

#[test]
fn decode_register_group() {
    assert_eq!(Instruction::decode(0x6123), Instruction::LoadImm { x: 1, kk: 0x23 });
    assert_eq!(Instruction::decode(0x7FFF), Instruction::AddImm { x: 0xF, kk: 0xFF });
    assert_eq!(Instruction::decode(0x8120), Instruction::Move { x: 1, y: 2 });
    assert_eq!(Instruction::decode(0x8121), Instruction::Or { x: 1, y: 2 });
    assert_eq!(Instruction::decode(0x8122), Instruction::And { x: 1, y: 2 });
    assert_eq!(Instruction::decode(0x8123), Instruction::Xor { x: 1, y: 2 });
    assert_eq!(Instruction::decode(0x8124), Instruction::AddReg { x: 1, y: 2 });
    assert_eq!(Instruction::decode(0x8125), Instruction::SubReg { x: 1, y: 2 });
    assert_eq!(Instruction::decode(0x8126), Instruction::ShiftRight { x: 1, y: 2 });
    assert_eq!(Instruction::decode(0x8127), Instruction::SubFrom { x: 1, y: 2 });
    assert_eq!(Instruction::decode(0x812E), Instruction::ShiftLeft { x: 1, y: 2 });
    assert_eq!(Instruction::decode(0xC5AA), Instruction::Random { x: 5, kk: 0xAA });
}

#[test]
fn decode_memory_and_timer_group() {
    assert_eq!(Instruction::decode(0xA456), Instruction::LoadIndex { nnn: 0x456 });
    assert_eq!(Instruction::decode(0xD12F), Instruction::Draw { x: 1, y: 2, n: 0xF });
    assert_eq!(Instruction::decode(0xF907), Instruction::LoadDelay { x: 9 });
    assert_eq!(Instruction::decode(0xF90A), Instruction::WaitKey { x: 9 });
    assert_eq!(Instruction::decode(0xF915), Instruction::SetDelay { x: 9 });
    assert_eq!(Instruction::decode(0xF918), Instruction::SetSound { x: 9 });
    assert_eq!(Instruction::decode(0xF91E), Instruction::AddIndex { x: 9 });
    assert_eq!(Instruction::decode(0xF929), Instruction::LoadGlyph { x: 9 });
    assert_eq!(Instruction::decode(0xF933), Instruction::StoreBcd { x: 9 });
    assert_eq!(Instruction::decode(0xF955), Instruction::StoreRegs { x: 9 });
    assert_eq!(Instruction::decode(0xF965), Instruction::LoadRegs { x: 9 });
}

#[test]
fn decode_words_outside_the_table() {
    for word in [0x0000u16, 0x00E1, 0x00EF, 0x0FFF, 0x5121, 0x512F, 0x8128, 0x812D, 0x812F, 0x9121,
        0xE19D, 0xE1A2, 0xF900, 0xF964, 0xF9FF]
    {
        assert_eq!(Instruction::decode(word), Instruction::Unknown { opcode: word });
    }
}

#[test]
fn every_word_decodes_to_exactly_one_instruction() {
    // Count the words that are recognised: the table leaves 2 words of class
    // 0, 16 * 16 words of classes 5 and 9 each, 9 * 256 of class 8,
    // 2 * 16 of class E, 9 * 16 of class F and all of the other ten classes.
    let mut known = 0u32;
    for word in 0..=0xFFFFu16 {
        if !matches!(Instruction::decode(word), Instruction::Unknown { .. }) {
            known += 1;
        }
    }
    assert_eq!(known, 2 + 2 * 256 + 9 * 256 + 2 * 16 + 9 * 16 + 10 * 4096);
}
