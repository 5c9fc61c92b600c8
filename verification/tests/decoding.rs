use chip8::Opcode;

#[test]
fn decode_system_opcodes() {
    assert_eq!(Opcode::decode(0x0000), Opcode::Nop);
    assert_eq!(Opcode::decode(0x00E0), Opcode::Cls);
    assert_eq!(Opcode::decode(0x00EE), Opcode::Ret);
}

#[test]
fn decode_flow_opcodes() {
    assert_eq!(Opcode::decode(0x1ABC), Opcode::Jump(0xABC));
    assert_eq!(Opcode::decode(0x2123), Opcode::Call(0x123));
    assert_eq!(Opcode::decode(0x3A42), Opcode::SkipEqImm(0xA, 0x42));
    assert_eq!(Opcode::decode(0x4A42), Opcode::SkipNeImm(0xA, 0x42));
}

#[test]
fn decode_register_opcodes() {
    assert_eq!(Opcode::decode(0x6B7F), Opcode::LoadImm(0xB, 0x7F));
    assert_eq!(Opcode::decode(0x7B7F), Opcode::AddImm(0xB, 0x7F));
    assert_eq!(Opcode::decode(0x8120), Opcode::Move(1, 2));
    assert_eq!(Opcode::decode(0x8121), Opcode::Or(1, 2));
    assert_eq!(Opcode::decode(0x8122), Opcode::And(1, 2));
    assert_eq!(Opcode::decode(0x8123), Opcode::Xor(1, 2));
    assert_eq!(Opcode::decode(0x8124), Opcode::Add(1, 2));
    assert_eq!(Opcode::decode(0x8125), Opcode::Sub(1, 2));
    assert_eq!(Opcode::decode(0x8126), Opcode::ShiftRight(1, 2));
    assert_eq!(Opcode::decode(0x8127), Opcode::SubNeg(1, 2));
    assert_eq!(Opcode::decode(0x812E), Opcode::ShiftLeft(1, 2));
}

#[test]
fn decode_memory_and_draw_opcodes() {
    assert_eq!(Opcode::decode(0xA321), Opcode::LoadIndex(0x321));
    assert_eq!(Opcode::decode(0xD125), Opcode::Draw(1, 2, 5));
}

#[test]
fn decode_key_and_timer_opcodes() {
    assert_eq!(Opcode::decode(0xE39E), Opcode::SkipKey(3));
    assert_eq!(Opcode::decode(0xE3A1), Opcode::SkipNoKey(3));
    assert_eq!(Opcode::decode(0xF307), Opcode::ReadDelay(3));
    assert_eq!(Opcode::decode(0xF315), Opcode::SetDelay(3));
    assert_eq!(Opcode::decode(0xF318), Opcode::SetSound(3));
    assert_eq!(Opcode::decode(0xF31E), Opcode::AddIndex(3));
    assert_eq!(Opcode::decode(0xF329), Opcode::FontAddr(3));
    assert_eq!(Opcode::decode(0xF333), Opcode::StoreBcd(3));
    assert_eq!(Opcode::decode(0xF355), Opcode::StoreRegs(3));
    assert_eq!(Opcode::decode(0xF365), Opcode::LoadRegs(3));
}

#[test]
fn decode_unrecognized_patterns() {
    assert_eq!(Opcode::decode(0x0001), Opcode::Unknown(0x0001));
    assert_eq!(Opcode::decode(0x00E1), Opcode::Unknown(0x00E1));
    assert_eq!(Opcode::decode(0x5120), Opcode::Unknown(0x5120));
    assert_eq!(Opcode::decode(0x8128), Opcode::Unknown(0x8128));
    assert_eq!(Opcode::decode(0x9120), Opcode::Unknown(0x9120));
    assert_eq!(Opcode::decode(0xB123), Opcode::Unknown(0xB123));
    assert_eq!(Opcode::decode(0xC123), Opcode::Unknown(0xC123));
    assert_eq!(Opcode::decode(0xE39F), Opcode::Unknown(0xE39F));
    assert_eq!(Opcode::decode(0xF30A), Opcode::Unknown(0xF30A));
    assert_eq!(Opcode::decode(0xFFFF), Opcode::Unknown(0xFFFF));
}

#[test]
fn nibbles_and_operands() {
    assert_eq!(Opcode::nibbles(0x1234), (1, 2, 3, 4));
    assert_eq!(Opcode::nibbles(0xFEDC), (0xF, 0xE, 0xD, 0xC));
    assert_eq!(Opcode::nnn(0x1234), 0x234);
    assert_eq!(Opcode::kk(0x1234), 0x34);
}
