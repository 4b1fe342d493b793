use chip8_core::decode::{decode, Instruction};

#[test]
fn decode_halt() {
    assert_eq!(decode(0x0000), Instruction::Halt);
}

#[test]
fn decode_clear_display() {
    assert_eq!(decode(0x00E0), Instruction::ClearDisplay);
}

#[test]
fn decode_return() {
    assert_eq!(decode(0x00EE), Instruction::Return);
}

#[test]
fn decode_jump() {
    assert_eq!(decode(0x1ABC), Instruction::Jump { nnn: 0xABC });
}

#[test]
fn decode_call() {
    assert_eq!(decode(0x2100), Instruction::Call { nnn: 0x100 });
}

#[test]
fn decode_skip_if_equal() {
    assert_eq!(decode(0x3A42), Instruction::SkipIfEqual { x: 0xA, kk: 0x42 });
}

#[test]
fn decode_skip_if_not_equal() {
    assert_eq!(decode(0x4B10), Instruction::SkipIfNotEqual { x: 0xB, kk: 0x10 });
}

#[test]
fn decode_skip_if_registers_equal() {
    assert_eq!(decode(0x5120), Instruction::SkipIfRegistersEqual { x: 1, y: 2 });
}

#[test]
fn decode_skip_if_registers_equal_needs_zero_selector() {
    assert_eq!(decode(0x5121), Instruction::Unknown { opcode: 0x5121 });
}

#[test]
fn decode_load_immediate() {
    assert_eq!(decode(0x6C33), Instruction::LoadImmediate { x: 0xC, kk: 0x33 });
}

#[test]
fn decode_add_immediate() {
    assert_eq!(decode(0x7D44), Instruction::AddImmediate { x: 0xD, kk: 0x44 });
}

#[test]
fn decode_add_registers() {
    assert_eq!(decode(0x8124), Instruction::AddRegisters { x: 1, y: 2 });
}

#[test]
fn decode_subtract() {
    assert_eq!(decode(0x8125), Instruction::Subtract { x: 1, y: 2 });
}

#[test]
fn decode_reverse_subtract() {
    assert_eq!(decode(0x8127), Instruction::ReverseSubtract { x: 1, y: 2 });
}

#[test]
fn decode_shift_left() {
    assert_eq!(decode(0x812E), Instruction::ShiftLeft { x: 1 });
}

#[test]
fn decode_unused_class8_selector() {
    assert_eq!(decode(0x8121), Instruction::Unknown { opcode: 0x8121 });
}

#[test]
fn decode_unknown_values() {
    assert_eq!(decode(0xFFFF), Instruction::Unknown { opcode: 0xFFFF });
    assert_eq!(decode(0x9000), Instruction::Unknown { opcode: 0x9000 });
    assert_eq!(decode(0x0123), Instruction::Unknown { opcode: 0x0123 });
}
