//! The instruction set: what each opcode byte of the primary and of the
//! prefixed table stands for.

use crate::register::{Reg16, Reg8, StackPair};
use vstd::prelude::*;

verus! {

/// The byte that escapes to the prefixed table.
pub const PREFIX: u8 = 0xCB;

/// An 8-bit operand: a register, or the byte at the address in HL.
#[derive(Clone, Copy, PartialEq, Eq, Structural, Debug)]
pub enum Operand8 {
    Reg(Reg8),
    MemHl,
}

/// Where an indirect load or store of A finds its address.
#[derive(Clone, Copy, PartialEq, Eq, Structural, Debug)]
pub enum Indirect {
    /// The address in BC.
    BC,
    /// The address in DE.
    DE,
    /// The address in HL; HL is incremented afterwards.
    HLInc,
    /// The address in HL; HL is decremented afterwards.
    HLDec,
}

/// The flag condition of a conditional jump.
#[derive(Clone, Copy, PartialEq, Eq, Structural, Debug)]
pub enum Condition {
    NotZero,
    Zero,
    NotCarry,
    Carry,
}

/// The four one-byte rotations of the accumulator.
#[derive(Clone, Copy, PartialEq, Eq, Structural, Debug)]
pub enum Rotation {
    /// RLCA: left, bit 7 to carry and to bit 0.
    LeftCircular,
    /// RRCA: right, bit 0 to carry and to bit 7.
    RightCircular,
    /// RLA: left through the carry.
    LeftThroughCarry,
    /// RRA: right through the carry.
    RightThroughCarry,
}

/// An instruction of the primary table.
#[derive(Clone, Copy, PartialEq, Eq, Structural, Debug)]
pub enum Instr {
    /// `NOP`
    Nop,
    /// `LD rr,d16`
    LoadImmediate16(Reg16),
    /// `LD (BC),A`, `LD (DE),A`, `LD (HL+),A`, `LD (HL-),A`
    StoreA(Indirect),
    /// `LD A,(BC)`, `LD A,(DE)`, `LD A,(HL+)`, `LD A,(HL-)`
    LoadA(Indirect),
    /// `INC rr`
    Increment16(Reg16),
    /// `INC r`, `INC (HL)`
    Increment(Operand8),
    /// `DEC r`, `DEC (HL)`
    Decrement(Operand8),
    /// `LD r,d8`
    LoadImmediate(Reg8),
    /// `RLCA`, `RRCA`, `RLA`, `RRA`
    RotateA(Rotation),
    /// `JR r8` and `JR cc,r8`
    JumpRelative(Option<Condition>),
    /// `LD r,r'`, `LD r,(HL)`, `LD (HL),r`: destination, then source.
    Load(Operand8, Operand8),
    /// `XOR A,r`
    Xor(Reg8),
    /// `POP rr`
    Pop(StackPair),
    /// `PUSH rr`
    Push(StackPair),
    /// `RET`
    Return,
    /// `CALL a16`
    Call,
    /// `LDH (a8),A`
    StoreHigh,
    /// `LDH A,(a8)`
    LoadHigh,
    /// `LD (FF00+C),A`
    StoreHighC,
    /// `LD A,(FF00+C)`
    LoadHighC,
    /// `LD (a16),A`
    StoreAbsolute,
    /// `CP A,d8`
    CompareImmediate,
}

/// An instruction of the prefixed table.
#[derive(Clone, Copy, PartialEq, Eq, Structural, Debug)]
pub enum PrefixedInstr {
    /// `RL r`, `RL (HL)`: rotate left through the carry.
    RotateLeft(Operand8),
    /// `BIT n,r`, `BIT n,(HL)`: test bit `n`.
    Bit(u8, Operand8),
}

/// The operand that a 3-bit register field selects: B, C, D, E, H, L, (HL), A.
pub open spec fn operand_of(field: int) -> Operand8 {
    if field == 0 {
        Operand8::Reg(Reg8::B)
    } else if field == 1 {
        Operand8::Reg(Reg8::C)
    } else if field == 2 {
        Operand8::Reg(Reg8::D)
    } else if field == 3 {
        Operand8::Reg(Reg8::E)
    } else if field == 4 {
        Operand8::Reg(Reg8::H)
    } else if field == 5 {
        Operand8::Reg(Reg8::L)
    } else if field == 6 {
        Operand8::MemHl
    } else {
        Operand8::Reg(Reg8::A)
    }
}

/// The register that a 2-bit pair field selects in loads and increments.
pub open spec fn reg16_of(field: int) -> Reg16 {
    if field == 0 {
        Reg16::BC
    } else if field == 1 {
        Reg16::DE
    } else if field == 2 {
        Reg16::HL
    } else {
        Reg16::SP
    }
}

/// The pair that a 2-bit pair field selects in pushes and pops.
pub open spec fn stack_pair_of(field: int) -> StackPair {
    if field == 0 {
        StackPair::BC
    } else if field == 1 {
        StackPair::DE
    } else if field == 2 {
        StackPair::HL
    } else {
        StackPair::AF
    }
}

/// The addressing that a 2-bit pair field selects in indirect accesses of A.
pub open spec fn indirect_of(field: int) -> Indirect {
    if field == 0 {
        Indirect::BC
    } else if field == 1 {
        Indirect::DE
    } else if field == 2 {
        Indirect::HLInc
    } else {
        Indirect::HLDec
    }
}

/// The condition that a 2-bit field selects.
pub open spec fn condition_of(field: int) -> Condition {
    if field == 0 {
        Condition::NotZero
    } else if field == 1 {
        Condition::Zero
    } else if field == 2 {
        Condition::NotCarry
    } else {
        Condition::Carry
    }
}

/// The rotation that a 2-bit field selects.
pub open spec fn rotation_of(field: int) -> Rotation {
    if field == 0 {
        Rotation::LeftCircular
    } else if field == 1 {
        Rotation::RightCircular
    } else if field == 2 {
        Rotation::LeftThroughCarry
    } else {
        Rotation::RightThroughCarry
    }
}

/// Opcodes `0x00..=0x3F`, by the middle field `y` and the low field `z`.
pub open spec fn decode_low_block(y: int, z: int) -> Option<Instr> {
    if z == 0 {
        if y == 0 {
            Some(Instr::Nop)
        } else if y == 3 {
            Some(Instr::JumpRelative(None))
        } else if y >= 4 {
            Some(Instr::JumpRelative(Some(condition_of(y - 4))))
        } else {
            None
        }
    } else if z == 1 {
        if y % 2 == 0 {
            Some(Instr::LoadImmediate16(reg16_of(y / 2)))
        } else {
            None
        }
    } else if z == 2 {
        if y % 2 == 0 {
            Some(Instr::StoreA(indirect_of(y / 2)))
        } else {
            Some(Instr::LoadA(indirect_of(y / 2)))
        }
    } else if z == 3 {
        if y % 2 == 0 {
            Some(Instr::Increment16(reg16_of(y / 2)))
        } else {
            None
        }
    } else if z == 4 {
        Some(Instr::Increment(operand_of(y)))
    } else if z == 5 {
        Some(Instr::Decrement(operand_of(y)))
    } else if z == 6 {
        match operand_of(y) {
            Operand8::Reg(r) => Some(Instr::LoadImmediate(r)),
            Operand8::MemHl => None,
        }
    } else if y < 4 {
        Some(Instr::RotateA(rotation_of(y)))
    } else {
        None
    }
}

/// Opcodes `0xC0..=0xFF`, by the middle field `y` and the low field `z`.
pub open spec fn decode_high_block(y: int, z: int) -> Option<Instr> {
    if z == 1 {
        if y % 2 == 0 {
            Some(Instr::Pop(stack_pair_of(y / 2)))
        } else if y == 1 {
            Some(Instr::Return)
        } else {
            None
        }
    } else if z == 5 {
        if y % 2 == 0 {
            Some(Instr::Push(stack_pair_of(y / 2)))
        } else if y == 1 {
            Some(Instr::Call)
        } else {
            None
        }
    } else if z == 0 && y == 4 {
        Some(Instr::StoreHigh)
    } else if z == 0 && y == 6 {
        Some(Instr::LoadHigh)
    } else if z == 2 && y == 4 {
        Some(Instr::StoreHighC)
    } else if z == 2 && y == 6 {
        Some(Instr::LoadHighC)
    } else if z == 2 && y == 5 {
        Some(Instr::StoreAbsolute)
    } else if z == 6 && y == 7 {
        Some(Instr::CompareImmediate)
    } else {
        None
    }
}

/// The instruction that `opcode` selects in the primary table, `None` where
/// the table has none; the prefix byte is no instruction of its own. The byte
/// is read as three fields: bits 7..6 pick the block, bits 5..3 and bits 2..0
/// pick the entry within it.
pub open spec fn decode_spec(opcode: u8) -> Option<Instr> {
    let x = opcode as int / 64;
    let y = opcode as int / 8 % 8;
    let z = opcode as int % 8;
    if x == 0 {
        decode_low_block(y, z)
    } else if x == 1 {
        if y == 6 && z == 6 {
            None
        } else {
            Some(Instr::Load(operand_of(y), operand_of(z)))
        }
    } else if x == 2 {
        if y == 5 {
            match operand_of(z) {
                Operand8::Reg(r) => Some(Instr::Xor(r)),
                Operand8::MemHl => None,
            }
        } else {
            None
        }
    } else {
        decode_high_block(y, z)
    }
}

/// The instruction that `opcode` selects in the prefixed table, `None` where
/// the table has no entry.
pub open spec fn decode_prefixed_spec(opcode: u8) -> Option<PrefixedInstr> {
    let x = opcode as int / 64;
    let y = opcode as int / 8 % 8;
    let z = opcode as int % 8;
    if x == 0 && y == 2 {
        Some(PrefixedInstr::RotateLeft(operand_of(z)))
    } else if x == 1 {
        Some(PrefixedInstr::Bit(y as u8, operand_of(z)))
    } else {
        None
    }
}

proof fn lemma_fields(opcode: u8)
    by (bit_vector)
    ensures
        opcode & 0x07 == opcode % 8,
        (opcode >> 3) & 0x07 == opcode / 8 % 8,
{
}

/// The operand for the 3-bit field `field`.
pub fn operand_from_field(field: u8) -> (operand: Operand8)
    requires
        field < 8,
    ensures
        operand == operand_of(field as int),
{
    match field {
        0 => Operand8::Reg(Reg8::B),
        1 => Operand8::Reg(Reg8::C),
        2 => Operand8::Reg(Reg8::D),
        3 => Operand8::Reg(Reg8::E),
        4 => Operand8::Reg(Reg8::H),
        5 => Operand8::Reg(Reg8::L),
        6 => Operand8::MemHl,
        _ => Operand8::Reg(Reg8::A),
    }
}

/// Looks `opcode` up in the primary table.
pub fn decode(opcode: u8) -> (instr: Option<Instr>)
    ensures
        instr == decode_spec(opcode),
{
    proof {
        lemma_fields(opcode);
    }
    match opcode {
        0x00 => Some(Instr::Nop),
        0x01 => Some(Instr::LoadImmediate16(Reg16::BC)),
        0x02 => Some(Instr::StoreA(Indirect::BC)),
        0x03 => Some(Instr::Increment16(Reg16::BC)),
        0x07 => Some(Instr::RotateA(Rotation::LeftCircular)),
        0x0A => Some(Instr::LoadA(Indirect::BC)),
        0x0F => Some(Instr::RotateA(Rotation::RightCircular)),
        0x11 => Some(Instr::LoadImmediate16(Reg16::DE)),
        0x12 => Some(Instr::StoreA(Indirect::DE)),
        0x13 => Some(Instr::Increment16(Reg16::DE)),
        0x17 => Some(Instr::RotateA(Rotation::LeftThroughCarry)),
        0x18 => Some(Instr::JumpRelative(None)),
        0x1A => Some(Instr::LoadA(Indirect::DE)),
        0x1F => Some(Instr::RotateA(Rotation::RightThroughCarry)),
        0x20 => Some(Instr::JumpRelative(Some(Condition::NotZero))),
        0x21 => Some(Instr::LoadImmediate16(Reg16::HL)),
        0x22 => Some(Instr::StoreA(Indirect::HLInc)),
        0x23 => Some(Instr::Increment16(Reg16::HL)),
        0x28 => Some(Instr::JumpRelative(Some(Condition::Zero))),
        0x2A => Some(Instr::LoadA(Indirect::HLInc)),
        0x30 => Some(Instr::JumpRelative(Some(Condition::NotCarry))),
        0x31 => Some(Instr::LoadImmediate16(Reg16::SP)),
        0x32 => Some(Instr::StoreA(Indirect::HLDec)),
        0x33 => Some(Instr::Increment16(Reg16::SP)),
        0x38 => Some(Instr::JumpRelative(Some(Condition::Carry))),
        0x3A => Some(Instr::LoadA(Indirect::HLDec)),
        0x04 | 0x0C | 0x14 | 0x1C | 0x24 | 0x2C | 0x34 | 0x3C => Some(
            Instr::Increment(operand_from_field((opcode >> 3) & 0x07)),
        ),
        0x05 | 0x0D | 0x15 | 0x1D | 0x25 | 0x2D | 0x35 | 0x3D => Some(
            Instr::Decrement(operand_from_field((opcode >> 3) & 0x07)),
        ),
        0x06 | 0x0E | 0x16 | 0x1E | 0x26 | 0x2E | 0x3E => match operand_from_field(
            (opcode >> 3) & 0x07,
        ) {
            Operand8::Reg(r) => Some(Instr::LoadImmediate(r)),
            Operand8::MemHl => None,
        },
        0x76 => None,
        0x40..=0x7F => Some(
            Instr::Load(
                operand_from_field((opcode >> 3) & 0x07),
                operand_from_field(opcode & 0x07),
            ),
        ),
        0xA8..=0xAD | 0xAF => match operand_from_field(opcode & 0x07) {
            Operand8::Reg(r) => Some(Instr::Xor(r)),
            Operand8::MemHl => None,
        },
        0xC1 => Some(Instr::Pop(StackPair::BC)),
        0xC5 => Some(Instr::Push(StackPair::BC)),
        0xC9 => Some(Instr::Return),
        0xCD => Some(Instr::Call),
        0xD1 => Some(Instr::Pop(StackPair::DE)),
        0xD5 => Some(Instr::Push(StackPair::DE)),
        0xE0 => Some(Instr::StoreHigh),
        0xE1 => Some(Instr::Pop(StackPair::HL)),
        0xE2 => Some(Instr::StoreHighC),
        0xE5 => Some(Instr::Push(StackPair::HL)),
        0xEA => Some(Instr::StoreAbsolute),
        0xF0 => Some(Instr::LoadHigh),
        0xF1 => Some(Instr::Pop(StackPair::AF)),
        0xF2 => Some(Instr::LoadHighC),
        0xF5 => Some(Instr::Push(StackPair::AF)),
        0xFE => Some(Instr::CompareImmediate),
        _ => None,
    }
}

/// Looks `opcode` up in the prefixed table.
pub fn decode_prefixed(opcode: u8) -> (instr: Option<PrefixedInstr>)
    ensures
        instr == decode_prefixed_spec(opcode),
{
    proof {
        lemma_fields(opcode);
    }
    match opcode {
        0x10..=0x17 => Some(PrefixedInstr::RotateLeft(operand_from_field(opcode & 0x07))),
        0x40..=0x7F => Some(
            PrefixedInstr::Bit((opcode >> 3) & 0x07, operand_from_field(opcode & 0x07)),
        ),
        _ => None,
    }
}

} // verus!
