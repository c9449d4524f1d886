use rusticboy::instr::{
    decode, decode_prefixed, operand_from_field, Condition, Indirect, Instr, Operand8,
    PrefixedInstr, Rotation, PREFIX,
};
use rusticboy::register::{Reg16, Reg8, StackPair};

#[test]
fn register_fields_select_b_c_d_e_h_l_mem_a() {
    assert_eq!(operand_from_field(0), Operand8::Reg(Reg8::B));
    assert_eq!(operand_from_field(1), Operand8::Reg(Reg8::C));
    assert_eq!(operand_from_field(2), Operand8::Reg(Reg8::D));
    assert_eq!(operand_from_field(3), Operand8::Reg(Reg8::E));
    assert_eq!(operand_from_field(4), Operand8::Reg(Reg8::H));
    assert_eq!(operand_from_field(5), Operand8::Reg(Reg8::L));
    assert_eq!(operand_from_field(6), Operand8::MemHl);
    assert_eq!(operand_from_field(7), Operand8::Reg(Reg8::A));
}

#[test]
fn primary_table_entries() {
    assert_eq!(decode(0x00), Some(Instr::Nop));
    assert_eq!(decode(0x01), Some(Instr::LoadImmediate16(Reg16::BC)));
    assert_eq!(decode(0x31), Some(Instr::LoadImmediate16(Reg16::SP)));
    assert_eq!(decode(0x02), Some(Instr::StoreA(Indirect::BC)));
    assert_eq!(decode(0x12), Some(Instr::StoreA(Indirect::DE)));
    assert_eq!(decode(0x22), Some(Instr::StoreA(Indirect::HLInc)));
    assert_eq!(decode(0x32), Some(Instr::StoreA(Indirect::HLDec)));
    assert_eq!(decode(0x0A), Some(Instr::LoadA(Indirect::BC)));
    assert_eq!(decode(0x1A), Some(Instr::LoadA(Indirect::DE)));
    assert_eq!(decode(0x2A), Some(Instr::LoadA(Indirect::HLInc)));
    assert_eq!(decode(0x3A), Some(Instr::LoadA(Indirect::HLDec)));
    assert_eq!(decode(0x03), Some(Instr::Increment16(Reg16::BC)));
    assert_eq!(decode(0x23), Some(Instr::Increment16(Reg16::HL)));
    assert_eq!(decode(0x04), Some(Instr::Increment(Operand8::Reg(Reg8::B))));
    assert_eq!(decode(0x34), Some(Instr::Increment(Operand8::MemHl)));
    assert_eq!(decode(0x3C), Some(Instr::Increment(Operand8::Reg(Reg8::A))));
    assert_eq!(decode(0x0D), Some(Instr::Decrement(Operand8::Reg(Reg8::C))));
    assert_eq!(decode(0x35), Some(Instr::Decrement(Operand8::MemHl)));
    assert_eq!(decode(0x06), Some(Instr::LoadImmediate(Reg8::B)));
    assert_eq!(decode(0x2E), Some(Instr::LoadImmediate(Reg8::L)));
    assert_eq!(decode(0x3E), Some(Instr::LoadImmediate(Reg8::A)));
    assert_eq!(decode(0x07), Some(Instr::RotateA(Rotation::LeftCircular)));
    assert_eq!(decode(0x0F), Some(Instr::RotateA(Rotation::RightCircular)));
    assert_eq!(decode(0x17), Some(Instr::RotateA(Rotation::LeftThroughCarry)));
    assert_eq!(decode(0x1F), Some(Instr::RotateA(Rotation::RightThroughCarry)));
    assert_eq!(decode(0x18), Some(Instr::JumpRelative(None)));
    assert_eq!(decode(0x20), Some(Instr::JumpRelative(Some(Condition::NotZero))));
    assert_eq!(decode(0x28), Some(Instr::JumpRelative(Some(Condition::Zero))));
    assert_eq!(decode(0x30), Some(Instr::JumpRelative(Some(Condition::NotCarry))));
    assert_eq!(decode(0x38), Some(Instr::JumpRelative(Some(Condition::Carry))));
    assert_eq!(decode(0x40), Some(Instr::Load(Operand8::Reg(Reg8::B), Operand8::Reg(Reg8::B))));
    assert_eq!(decode(0x41), Some(Instr::Load(Operand8::Reg(Reg8::B), Operand8::Reg(Reg8::C))));
    assert_eq!(decode(0x47), Some(Instr::Load(Operand8::Reg(Reg8::B), Operand8::Reg(Reg8::A))));
    assert_eq!(decode(0x57), Some(Instr::Load(Operand8::Reg(Reg8::D), Operand8::Reg(Reg8::A))));
    assert_eq!(decode(0x5E), Some(Instr::Load(Operand8::Reg(Reg8::E), Operand8::MemHl)));
    assert_eq!(decode(0x70), Some(Instr::Load(Operand8::MemHl, Operand8::Reg(Reg8::B))));
    assert_eq!(decode(0x77), Some(Instr::Load(Operand8::MemHl, Operand8::Reg(Reg8::A))));
    assert_eq!(decode(0x7E), Some(Instr::Load(Operand8::Reg(Reg8::A), Operand8::MemHl)));
    assert_eq!(decode(0x7F), Some(Instr::Load(Operand8::Reg(Reg8::A), Operand8::Reg(Reg8::A))));
    assert_eq!(decode(0xA8), Some(Instr::Xor(Reg8::B)));
    assert_eq!(decode(0xAD), Some(Instr::Xor(Reg8::L)));
    assert_eq!(decode(0xAF), Some(Instr::Xor(Reg8::A)));
    assert_eq!(decode(0xC1), Some(Instr::Pop(StackPair::BC)));
    assert_eq!(decode(0xD1), Some(Instr::Pop(StackPair::DE)));
    assert_eq!(decode(0xE1), Some(Instr::Pop(StackPair::HL)));
    assert_eq!(decode(0xF1), Some(Instr::Pop(StackPair::AF)));
    assert_eq!(decode(0xC5), Some(Instr::Push(StackPair::BC)));
    assert_eq!(decode(0xF5), Some(Instr::Push(StackPair::AF)));
    assert_eq!(decode(0xC9), Some(Instr::Return));
    assert_eq!(decode(0xCD), Some(Instr::Call));
    assert_eq!(decode(0xE0), Some(Instr::StoreHigh));
    assert_eq!(decode(0xF0), Some(Instr::LoadHigh));
    assert_eq!(decode(0xE2), Some(Instr::StoreHighC));
    assert_eq!(decode(0xF2), Some(Instr::LoadHighC));
    assert_eq!(decode(0xEA), Some(Instr::StoreAbsolute));
    assert_eq!(decode(0xFE), Some(Instr::CompareImmediate));
}

#[test]
fn primary_table_gaps() {
    for opcode in [
        0x08u8, 0x09, 0x0B, 0x10, 0x19, 0x1B, 0x27, 0x29, 0x2B, 0x2F, 0x36, 0x37, 0x39, 0x3B,
        0x3F, 0x76, 0x80, 0x90, 0xA0, 0xA7, 0xAE, 0xB0, 0xB8, 0xBF, 0xC0, 0xC3, 0xC6, 0xD3, 0xD9,
        0xE8, 0xF3, 0xFA, 0xFB, 0xFF,
    ] {
        assert_eq!(decode(opcode), None, "opcode {:#04x}", opcode);
    }
    assert_eq!(PREFIX, 0xCB);
    assert_eq!(decode(PREFIX), None);
}

#[test]
fn primary_table_has_135_instructions() {
    // 1 no-op, 4 + 7 immediate loads, 8 indirect accesses of A, 4 + 16
    // increments and decrements, 4 rotations, 5 jumps, 63 loads, 7 XORs,
    // 8 pushes and pops, call, return, 5 loads and stores of A by address,
    // 1 compare
    let defined = (0..=255u8).filter(|opcode| decode(*opcode).is_some()).count();
    assert_eq!(defined, 135);
}

#[test]
fn prefixed_table_entries() {
    assert_eq!(decode_prefixed(0x10), Some(PrefixedInstr::RotateLeft(Operand8::Reg(Reg8::B))));
    assert_eq!(decode_prefixed(0x11), Some(PrefixedInstr::RotateLeft(Operand8::Reg(Reg8::C))));
    assert_eq!(decode_prefixed(0x16), Some(PrefixedInstr::RotateLeft(Operand8::MemHl)));
    assert_eq!(decode_prefixed(0x17), Some(PrefixedInstr::RotateLeft(Operand8::Reg(Reg8::A))));
    assert_eq!(decode_prefixed(0x40), Some(PrefixedInstr::Bit(0, Operand8::Reg(Reg8::B))));
    assert_eq!(decode_prefixed(0x7C), Some(PrefixedInstr::Bit(7, Operand8::Reg(Reg8::H))));
    assert_eq!(decode_prefixed(0x7E), Some(PrefixedInstr::Bit(7, Operand8::MemHl)));
    assert_eq!(decode_prefixed(0x4E), Some(PrefixedInstr::Bit(1, Operand8::MemHl)));
    assert_eq!(decode_prefixed(0x7F), Some(PrefixedInstr::Bit(7, Operand8::Reg(Reg8::A))));
    for opcode in [0x00u8, 0x0F, 0x18, 0x3F, 0x80, 0xC0, 0xFF] {
        assert_eq!(decode_prefixed(opcode), None, "opcode {:#04x}", opcode);
    }
    let defined = (0..=255u8).filter(|opcode| decode_prefixed(*opcode).is_some()).count();
    assert_eq!(defined, 72);
}
