//! The register file: eight 8-bit registers, the flag byte, program counter
//! and stack pointer.

use crate::bits::{high_byte, lemma_join, lemma_split, low_byte, word};
use vstd::prelude::*;

verus! {

/// The four condition bits, which is all a flag byte holds.
pub struct FlagState {
    /// Bit 7.
    pub zero: bool,
    /// Bit 6.
    pub sub: bool,
    /// Bit 5.
    pub half_carry: bool,
    /// Bit 4.
    pub carry: bool,
}

/// The byte with the four condition bits in bits 7 to 4 and a zero low nibble.
pub open spec fn pack_bits(zero: bool, sub: bool, half_carry: bool, carry: bool) -> u8 {
    ((if zero { 0x80int } else { 0 }) + (if sub { 0x40int } else { 0 })
        + (if half_carry { 0x20int } else { 0 }) + (if carry { 0x10int } else { 0 })) as u8
}

impl FlagState {
    /// The packed flag byte.
    pub open spec fn pack(self) -> u8 {
        pack_bits(self.zero, self.sub, self.half_carry, self.carry)
    }

    /// The condition bits of an arbitrary byte; its low nibble is ignored.
    pub open spec fn unpack(byte: u8) -> FlagState {
        FlagState {
            zero: byte / 0x80 % 2 == 1,
            sub: byte / 0x40 % 2 == 1,
            half_carry: byte / 0x20 % 2 == 1,
            carry: byte / 0x10 % 2 == 1,
        }
    }

    /// Packing loses nothing, and the packed byte has a zero low nibble.
    pub proof fn lemma_pack_unpack(self)
        ensures
            FlagState::unpack(self.pack()) == self,
            self.pack() % 16 == 0,
    {
    }

    /// Unpacking a byte and packing it again clears the low nibble and keeps the rest.
    pub proof fn lemma_unpack_pack(byte: u8)
        ensures
            FlagState::unpack(byte).pack() == byte / 16 * 16,
    {
    }
}

proof fn lemma_flag_masks(v: u8)
    by (bit_vector)
    ensures
        (v & 0x80 == 0x80) == (v / 0x80 % 2 == 1),
        (v & 0x40 == 0x40) == (v / 0x40 % 2 == 1),
        (v & 0x20 == 0x20) == (v / 0x20 % 2 == 1),
        (v & 0x10 == 0x10) == (v / 0x10 % 2 == 1),
        v | 0x80 == v + (if v / 0x80 % 2 == 1 { 0u8 } else { 0x80u8 }),
        v | 0x40 == v + (if v / 0x40 % 2 == 1 { 0u8 } else { 0x40u8 }),
        v | 0x20 == v + (if v / 0x20 % 2 == 1 { 0u8 } else { 0x20u8 }),
        v | 0x10 == v + (if v / 0x10 % 2 == 1 { 0u8 } else { 0x10u8 }),
        v & !0x80u8 == v - (if v / 0x80 % 2 == 1 { 0x80u8 } else { 0u8 }),
        v & !0x40u8 == v - (if v / 0x40 % 2 == 1 { 0x40u8 } else { 0u8 }),
        v & !0x20u8 == v - (if v / 0x20 % 2 == 1 { 0x20u8 } else { 0u8 }),
        v & !0x10u8 == v - (if v / 0x10 % 2 == 1 { 0x10u8 } else { 0u8 }),
        v & 0xF0 == v / 16 * 16,
{
}

/// The flag register. It keeps the packed byte and the four booleans side by
/// side; the two always agree, and the low nibble of the byte is always zero.
#[derive(Clone, Copy)]
pub struct Flag {
    value: u8,
    zero_flag: bool,
    sub_flag: bool,
    half_carry_flag: bool,
    carry_flag: bool,
}

impl View for Flag {
    type V = FlagState;

    closed spec fn view(&self) -> FlagState {
        FlagState {
            zero: self.zero_flag,
            sub: self.sub_flag,
            half_carry: self.half_carry_flag,
            carry: self.carry_flag,
        }
    }
}

impl Flag {
    #[verifier::type_invariant]
    spec fn agrees(self) -> bool {
        self.value == self@.pack()
    }

    /// Power-on flags: zero, half-carry and carry set (`0xB0`).
    pub fn init_flag() -> (f: Flag)
        ensures
            f@ == (FlagState { zero: true, sub: false, half_carry: true, carry: true }),
    {
        Flag {
            value: 0xb0,
            zero_flag: true,
            sub_flag: false,
            half_carry_flag: true,
            carry_flag: true,
        }
    }

    /// The packed flag byte.
    pub fn value(&self) -> (byte: u8)
        ensures
            byte == self@.pack(),
            byte % 16 == 0,
    {
        proof {
            use_type_invariant(self);
        }
        self.value
    }

    /// Bit 7: the last result was zero.
    pub fn zero_flag(&self) -> (set: bool)
        ensures
            set == self@.zero,
    {
        self.zero_flag
    }

    /// Bit 6: the last operation was a subtraction.
    pub fn sub_flag(&self) -> (set: bool)
        ensures
            set == self@.sub,
    {
        self.sub_flag
    }

    /// Bit 5: carry out of the low nibble.
    pub fn half_carry_flag(&self) -> (set: bool)
        ensures
            set == self@.half_carry,
    {
        self.half_carry_flag
    }

    /// Bit 4: carry out of the byte.
    pub fn carry_flag(&self) -> (set: bool)
        ensures
            set == self@.carry,
    {
        self.carry_flag
    }

    /// Sets or clears bit 7 and nothing else.
    pub fn set_zero_flag(&mut self, val: bool)
        ensures
            final(self)@ == (FlagState { zero: val, ..old(self)@ }),
    {
        proof {
            use_type_invariant(&*self);
            lemma_flag_masks(self.value);
        }
        let value = if val { self.value | 0x80 } else { self.value & !0x80 };
        *self = Flag { value, zero_flag: val, ..*self };
    }

    /// Sets or clears bit 6 and nothing else.
    pub fn set_sub_flag(&mut self, val: bool)
        ensures
            final(self)@ == (FlagState { sub: val, ..old(self)@ }),
    {
        proof {
            use_type_invariant(&*self);
            lemma_flag_masks(self.value);
        }
        let value = if val { self.value | 0x40 } else { self.value & !0x40 };
        *self = Flag { value, sub_flag: val, ..*self };
    }

    /// Sets or clears bit 5 and nothing else.
    pub fn set_half_carry_flag(&mut self, val: bool)
        ensures
            final(self)@ == (FlagState { half_carry: val, ..old(self)@ }),
    {
        proof {
            use_type_invariant(&*self);
            lemma_flag_masks(self.value);
        }
        let value = if val { self.value | 0x20 } else { self.value & !0x20 };
        *self = Flag { value, half_carry_flag: val, ..*self };
    }

    /// Sets or clears bit 4 and nothing else.
    pub fn set_caryy_flag(&mut self, val: bool)
        ensures
            final(self)@ == (FlagState { carry: val, ..old(self)@ }),
    {
        proof {
            use_type_invariant(&*self);
            lemma_flag_masks(self.value);
        }
        let value = if val { self.value | 0x10 } else { self.value & !0x10 };
        *self = Flag { value, carry_flag: val, ..*self };
    }

    /// Replaces all four condition bits by those of `val`, whose low nibble is dropped.
    pub fn set_value(&mut self, val: u8)
        ensures
            final(self)@ == FlagState::unpack(val),
    {
        proof {
            lemma_flag_masks(val);
        }
        *self = Flag {
            value: val & 0xF0,
            zero_flag: (val & 0x80) == 0x80,
            sub_flag: (val & 0x40) == 0x40,
            half_carry_flag: (val & 0x20) == 0x20,
            carry_flag: (val & 0x10) == 0x10,
        };
    }
}

/// An 8-bit register, in the order of the instruction encoding.
#[derive(Clone, Copy, PartialEq, Eq, Structural, Debug)]
pub enum Reg8 {
    B,
    C,
    D,
    E,
    H,
    L,
    A,
}

/// A 16-bit register that can be loaded and incremented as a whole.
#[derive(Clone, Copy, PartialEq, Eq, Structural, Debug)]
pub enum Reg16 {
    BC,
    DE,
    HL,
    SP,
}

/// A register pair that can be pushed to and popped from the stack.
#[derive(Clone, Copy, PartialEq, Eq, Structural, Debug)]
pub enum StackPair {
    BC,
    DE,
    HL,
    AF,
}

/// What a register file holds.
pub struct RegState {
    pub a: u8,
    pub f: FlagState,
    pub b: u8,
    pub c: u8,
    pub d: u8,
    pub e: u8,
    pub h: u8,
    pub l: u8,
    pub pc: u16,
    pub sp: u16,
}

impl RegState {
    /// A in the high byte, the packed flags in the low byte.
    pub open spec fn af(self) -> u16 {
        word(self.a, self.f.pack())
    }

    pub open spec fn bc(self) -> u16 {
        word(self.b, self.c)
    }

    pub open spec fn de(self) -> u16 {
        word(self.d, self.e)
    }

    pub open spec fn hl(self) -> u16 {
        word(self.h, self.l)
    }

    /// A takes the high byte, the flags take bits 7 to 4 of the low byte.
    pub open spec fn with_af(self, value: u16) -> RegState {
        RegState { a: high_byte(value), f: FlagState::unpack(low_byte(value)), ..self }
    }

    pub open spec fn with_bc(self, value: u16) -> RegState {
        RegState { b: high_byte(value), c: low_byte(value), ..self }
    }

    pub open spec fn with_de(self, value: u16) -> RegState {
        RegState { d: high_byte(value), e: low_byte(value), ..self }
    }

    pub open spec fn with_hl(self, value: u16) -> RegState {
        RegState { h: high_byte(value), l: low_byte(value), ..self }
    }

    pub open spec fn with_pc(self, value: u16) -> RegState {
        RegState { pc: value, ..self }
    }

    pub open spec fn with_sp(self, value: u16) -> RegState {
        RegState { sp: value, ..self }
    }

    pub open spec fn with_flags(self, f: FlagState) -> RegState {
        RegState { f, ..self }
    }

    pub open spec fn get(self, r: Reg8) -> u8 {
        match r {
            Reg8::B => self.b,
            Reg8::C => self.c,
            Reg8::D => self.d,
            Reg8::E => self.e,
            Reg8::H => self.h,
            Reg8::L => self.l,
            Reg8::A => self.a,
        }
    }

    pub open spec fn with(self, r: Reg8, value: u8) -> RegState {
        match r {
            Reg8::B => RegState { b: value, ..self },
            Reg8::C => RegState { c: value, ..self },
            Reg8::D => RegState { d: value, ..self },
            Reg8::E => RegState { e: value, ..self },
            Reg8::H => RegState { h: value, ..self },
            Reg8::L => RegState { l: value, ..self },
            Reg8::A => RegState { a: value, ..self },
        }
    }

    pub open spec fn get16(self, rr: Reg16) -> u16 {
        match rr {
            Reg16::BC => self.bc(),
            Reg16::DE => self.de(),
            Reg16::HL => self.hl(),
            Reg16::SP => self.sp,
        }
    }

    pub open spec fn with16(self, rr: Reg16, value: u16) -> RegState {
        match rr {
            Reg16::BC => self.with_bc(value),
            Reg16::DE => self.with_de(value),
            Reg16::HL => self.with_hl(value),
            Reg16::SP => self.with_sp(value),
        }
    }

    pub open spec fn stack_pair(self, rr: StackPair) -> u16 {
        match rr {
            StackPair::BC => self.bc(),
            StackPair::DE => self.de(),
            StackPair::HL => self.hl(),
            StackPair::AF => self.af(),
        }
    }

    pub open spec fn with_stack_pair(self, rr: StackPair, value: u16) -> RegState {
        match rr {
            StackPair::BC => self.with_bc(value),
            StackPair::DE => self.with_de(value),
            StackPair::HL => self.with_hl(value),
            StackPair::AF => self.with_af(value),
        }
    }

    /// The register file at power-on, before any boot image has run.
    pub open spec fn power_on() -> RegState {
        RegState {
            a: 0x01,
            f: FlagState { zero: true, sub: false, half_carry: true, carry: true },
            b: 0x00,
            c: 0x13,
            d: 0x00,
            e: 0xd8,
            h: 0x01,
            l: 0x4d,
            pc: 0x0000,
            sp: 0xFFFE,
        }
    }

    /// The register file as a boot image leaves it: the power-on values, with
    /// the program counter at the cartridge entry point `0x0100`.
    pub open spec fn post_boot() -> RegState {
        RegState::power_on().with_pc(0x0100)
    }

    /// A pair written as a whole reads back as written; AF reads back with
    /// the low nibble cleared.
    pub proof fn lemma_pair_round_trip(self, value: u16)
        ensures
            self.with_bc(value).bc() == value,
            self.with_de(value).de() == value,
            self.with_hl(value).hl() == value,
            self.with_af(value).af() == value / 16 * 16,
            self.af() % 16 == 0,
    {
    }
}

pub struct Register {
    pub a: u8,
    pub f: Flag,
    pub b: u8,
    pub c: u8,
    pub d: u8,
    pub e: u8,
    pub h: u8,
    pub l: u8,
    pub program_counter: u16,
    pub stack_pointer: u16,
}

impl View for Register {
    type V = RegState;

    open spec fn view(&self) -> RegState {
        RegState {
            a: self.a,
            f: self.f@,
            b: self.b,
            c: self.c,
            d: self.d,
            e: self.e,
            h: self.h,
            l: self.l,
            pc: self.program_counter,
            sp: self.stack_pointer,
        }
    }
}

impl Register {
    /// The register file at power-on.
    pub fn init_register() -> (reg: Register)
        ensures
            reg@ == RegState::power_on(),
    {
        Register {
            a: 0x01,
            f: Flag::init_flag(),
            b: 0x00,
            c: 0x13,
            d: 0x00,
            e: 0xd8,
            h: 0x01,
            l: 0x4d,
            program_counter: 0x00,
            stack_pointer: 0xFFFE,
        }
    }

    /// A in the high byte, the packed flags in the low byte.
    pub fn get_af(&self) -> (value: u16)
        ensures
            value == self@.af(),
    {
        let flags = self.f.value();
        proof {
            lemma_join(self.a, flags);
        }
        ((self.a as u16) << 8) | flags as u16
    }

    /// B in the high byte, C in the low byte.
    pub fn get_bc(&self) -> (value: u16)
        ensures
            value == self@.bc(),
    {
        proof {
            lemma_join(self.b, self.c);
        }
        ((self.b as u16) << 8) | self.c as u16
    }

    /// D in the high byte, E in the low byte.
    pub fn get_de(&self) -> (value: u16)
        ensures
            value == self@.de(),
    {
        proof {
            lemma_join(self.d, self.e);
        }
        ((self.d as u16) << 8) | self.e as u16
    }

    /// H in the high byte, L in the low byte.
    pub fn get_hl(&self) -> (value: u16)
        ensures
            value == self@.hl(),
    {
        proof {
            lemma_join(self.h, self.l);
        }
        ((self.h as u16) << 8) | self.l as u16
    }

    /// A takes the high byte, the flags take bits 7 to 4 of the low byte.
    pub fn set_af(&mut self, value: u16)
        ensures
            final(self)@ == old(self)@.with_af(value),
    {
        proof {
            lemma_split(value);
        }
        self.a = (value >> 8) as u8;
        self.f.set_value((value & 0x00f0) as u8);
    }

    /// B takes the high byte, C the low byte.
    pub fn set_bc(&mut self, value: u16)
        ensures
            final(self)@ == old(self)@.with_bc(value),
    {
        proof {
            lemma_split(value);
        }
        self.b = (value >> 8) as u8;
        self.c = (value & 0x00ff) as u8;
    }

    /// D takes the high byte, E the low byte.
    pub fn set_de(&mut self, value: u16)
        ensures
            final(self)@ == old(self)@.with_de(value),
    {
        proof {
            lemma_split(value);
        }
        self.d = (value >> 8) as u8;
        self.e = (value & 0x00ff) as u8;
    }

    /// H takes the high byte, L the low byte.
    pub fn set_hl(&mut self, value: u16)
        ensures
            final(self)@ == old(self)@.with_hl(value),
    {
        proof {
            lemma_split(value);
        }
        self.h = (value >> 8) as u8;
        self.l = (value & 0x00ff) as u8;
    }

    /// The value of the 8-bit register `r`.
    pub fn get_r(&self, r: Reg8) -> (value: u8)
        ensures
            value == self@.get(r),
    {
        match r {
            Reg8::B => self.b,
            Reg8::C => self.c,
            Reg8::D => self.d,
            Reg8::E => self.e,
            Reg8::H => self.h,
            Reg8::L => self.l,
            Reg8::A => self.a,
        }
    }

    /// Stores `value` in the 8-bit register `r`.
    pub fn set_r(&mut self, r: Reg8, value: u8)
        ensures
            final(self)@ == old(self)@.with(r, value),
    {
        match r {
            Reg8::B => self.b = value,
            Reg8::C => self.c = value,
            Reg8::D => self.d = value,
            Reg8::E => self.e = value,
            Reg8::H => self.h = value,
            Reg8::L => self.l = value,
            Reg8::A => self.a = value,
        }
    }

    /// The value of the 16-bit register `rr`.
    pub fn get_rr(&self, rr: Reg16) -> (value: u16)
        ensures
            value == self@.get16(rr),
    {
        match rr {
            Reg16::BC => self.get_bc(),
            Reg16::DE => self.get_de(),
            Reg16::HL => self.get_hl(),
            Reg16::SP => self.stack_pointer,
        }
    }

    /// Stores `value` in the 16-bit register `rr`.
    pub fn set_rr(&mut self, rr: Reg16, value: u16)
        ensures
            final(self)@ == old(self)@.with16(rr, value),
    {
        match rr {
            Reg16::BC => self.set_bc(value),
            Reg16::DE => self.set_de(value),
            Reg16::HL => self.set_hl(value),
            Reg16::SP => self.stack_pointer = value,
        }
    }
}

} // verus!
