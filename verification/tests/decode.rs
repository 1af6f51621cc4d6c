use yac8::instructions::parse_opcode;
use yac8::Instruction;

#[test]
fn decodes_clear_screen() {
    assert_eq!(parse_opcode(0x00E0), Instruction::ClearScreen);
}

#[test]
fn decodes_return() {
    assert_eq!(parse_opcode(0x00EE), Instruction::Return);
}

#[test]
fn decodes_set_address_register() {
    assert_eq!(parse_opcode(0xA2F0), Instruction::SetI(0x2F0));
}

#[test]
fn decodes_jump() {
    assert_eq!(parse_opcode(0x1234), Instruction::Jump(0x234));
}

#[test]
fn decodes_call_and_skips() {
    assert_eq!(parse_opcode(0x2ABC), Instruction::Call(0xABC));
    assert_eq!(parse_opcode(0x31AA), Instruction::SkipIfEQData(0x1, 0xAA));
    assert_eq!(parse_opcode(0x42BB), Instruction::SkipIfNEData(0x2, 0xBB));
    assert_eq!(parse_opcode(0x5340), Instruction::SkipIfEQRegister(0x3, 0x4));
    assert_eq!(parse_opcode(0x9120), Instruction::SkipIfNERegister(0x1, 0x2));
}

#[test]
fn decodes_register_data_ops() {
    assert_eq!(parse_opcode(0x6A42), Instruction::LoadData(0xA, 0x42));
    assert_eq!(parse_opcode(0x7B01), Instruction::AddData(0xB, 0x01));
}

#[test]
fn decodes_alu_group() {
    assert_eq!(parse_opcode(0x8120), Instruction::LoadRegister(0x1, 0x2));
    assert_eq!(parse_opcode(0x8121), Instruction::Or(0x1, 0x2));
    assert_eq!(parse_opcode(0x8122), Instruction::And(0x1, 0x2));
    assert_eq!(parse_opcode(0x8123), Instruction::Xor(0x1, 0x2));
    assert_eq!(parse_opcode(0x8124), Instruction::Add(0x1, 0x2));
    assert_eq!(parse_opcode(0x8125), Instruction::Sub(0x1, 0x2));
    assert_eq!(parse_opcode(0x8126), Instruction::ShiftRight(0x1));
    assert_eq!(parse_opcode(0x8127), Instruction::NegatedSub(0x1, 0x2));
    assert_eq!(parse_opcode(0x812E), Instruction::ShiftLeft(0x1));
}

#[test]
fn decodes_misc_group() {
    assert_eq!(parse_opcode(0xB123), Instruction::JumpFromOffset(0x123));
    assert_eq!(parse_opcode(0xC477), Instruction::Random(0x4, 0x77));
    assert_eq!(parse_opcode(0xD125), Instruction::Draw(0x1, 0x2, 0x5));
    assert_eq!(parse_opcode(0xE19E), Instruction::SkipIfPressed(0x1));
    assert_eq!(parse_opcode(0xE1A1), Instruction::SkipIfNotPressed(0x1));
}

#[test]
fn decodes_f_group() {
    assert_eq!(parse_opcode(0xF207), Instruction::SetRegisterFromDelay(0x2));
    assert_eq!(parse_opcode(0xF20A), Instruction::AwaitPress(0x2));
    assert_eq!(parse_opcode(0xF215), Instruction::SetDelayFromRegister(0x2));
    assert_eq!(parse_opcode(0xF218), Instruction::SetSoundFromRegister(0x2));
    assert_eq!(parse_opcode(0xF21E), Instruction::AddI(0x2));
    assert_eq!(parse_opcode(0xF229), Instruction::LoadSprite(0x2));
    assert_eq!(parse_opcode(0xF233), Instruction::SetBCDRepresentation(0x2));
    assert_eq!(parse_opcode(0xF255), Instruction::StoreRegisters(0x2));
    assert_eq!(parse_opcode(0xF265), Instruction::ReadRegisters(0x2));
}

#[test]
fn legacy_native_call_is_noop_but_other_gaps_are_unknown() {
    // 0x0nnn (jump to native routine) decodes to the no-op fallback...
    assert_eq!(parse_opcode(0x0123), Instruction::NOP(0x0123));
    assert_eq!(parse_opcode(0x0000), Instruction::NOP(0x0000));
    // ...while unused encodings in dispatched groups stay unknown.
    assert_eq!(parse_opcode(0x5341), Instruction::UNKNOWN(0x5341));
    assert_eq!(parse_opcode(0x8128), Instruction::UNKNOWN(0x8128));
    assert_eq!(parse_opcode(0x9121), Instruction::UNKNOWN(0x9121));
    assert_eq!(parse_opcode(0xE100), Instruction::UNKNOWN(0xE100));
    assert_eq!(parse_opcode(0xF2FF), Instruction::UNKNOWN(0xF2FF));
}

#[test]
fn decoding_is_total_and_deterministic() {
    // Every 16-bit opcode decodes, and decoding twice agrees.
    let mut opcode: u32 = 0;
    while opcode <= 0xFFFF {
        let a = parse_opcode(opcode as u16);
        let b = parse_opcode(opcode as u16);
        assert_eq!(a, b);
        opcode += 1;
    }
}
