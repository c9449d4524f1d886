//! The decode/execute engine: one call of `step` runs one instruction.

use crate::alu::{
    bit_test_flags, compare_flags, dec16_twice, dec8, dec_flags, inc16, inc16_twice, inc8,
    inc_flags, lemma_bit_mask, lemma_nibble, lemma_rotate, logic_flags, offset_address,
    rotate_a_flags, rotate_flags, rotate_left, top_bit,
};
use crate::bus::{mem_read_short, mem_write, mem_write_short, MemoryBus};
use crate::instr::{
    decode, decode_prefixed, Condition, Indirect, Instr, Operand8, PrefixedInstr, Rotation,
    PREFIX,
};
use crate::register::{Flag, Reg16, Reg8, RegState, Register, StackPair};
use crate::semantics::{
    call_effect, compare_immediate_effect, condition_holds, decrement_effect, effect,
    increment_effect, jump_relative_effect, load_a_effect, load_effect, load_high_c_effect,
    load_high_effect, load_immediate16_effect, load_immediate_effect, operand_value, performs,
    prefixed_effect, prefixed_step_spec, push_effect, return_effect, rotation_carry,
    rotation_result, step_spec, store_a_effect, store_absolute_effect, store_high_c_effect,
    store_high_effect, xor_effect, DecodeError, Outcome,
};
use vstd::prelude::*;

verus! {

/// What a CPU holds: the register file and the interrupt master enable.
pub struct CpuState {
    pub reg: RegState,
    pub ime: bool,
}

impl CpuState {
    /// The same CPU with register file `reg`.
    pub open spec fn with_reg(self, reg: RegState) -> CpuState {
        CpuState { reg, ..self }
    }
}

pub struct Cpu {
    /// The register file.
    pub reg: Register,
    /// Interrupt master enable.
    pub ime: bool,
}

impl View for Cpu {
    type V = CpuState;

    open spec fn view(&self) -> CpuState {
        CpuState { reg: self.reg@, ime: self.ime }
    }
}

impl Cpu {
    /// A CPU at power-on, with interrupts disabled.
    pub fn init_cpu() -> (cpu: Cpu)
        ensures
            cpu@ == (CpuState { reg: RegState::power_on(), ime: false }),
    {
        Cpu { reg: Register::init_register(), ime: false }
    }

    /// Fetches the byte at the program counter and moves the program counter past it.
    pub fn get_opcode(&mut self, mem_bus: &MemoryBus) -> (opcode: u8)
        ensures
            opcode == mem_bus@[old(self)@.reg.pc as int],
            final(self)@ == old(self)@.with_reg(old(self)@.reg.with_pc(inc16(old(self)@.reg.pc))),
    {
        let opcode = mem_bus.read_byte(self.reg.program_counter);
        self.reg.program_counter = self.reg.program_counter.wrapping_add(1);
        opcode
    }

    /// Tests bit `n` of `reg`.
    pub fn bit_test(&mut self, reg: u8, n: u8)
        requires
            n < 8,
        ensures
            final(self)@ == old(self)@.with_reg(
                old(self)@.reg.with_flags(bit_test_flags(old(self)@.reg.f, reg, n)),
            ),
    {
        proof {
            lemma_bit_mask(reg, n);
        }
        self.reg.f.set_zero_flag((1u8 << n) & reg == 0);
        self.reg.f.set_sub_flag(false);
        self.reg.f.set_half_carry_flag(true);
    }

    /// A becomes `A ^ reg`.
    pub fn xor_a_r(&mut self, reg: u8) -> (cycles: u32)
        ensures
            final(self)@ == old(self)@.with_reg(
                old(self)@.reg.with(Reg8::A, old(self)@.reg.a ^ reg).with_flags(
                    logic_flags(old(self)@.reg.a ^ reg),
                ),
            ),
            cycles == 4,
    {
        self.reg.a = self.reg.a ^ reg;
        self.reg.f.set_zero_flag(self.reg.a == 0);
        self.reg.f.set_sub_flag(false);
        self.reg.f.set_half_carry_flag(false);
        self.reg.f.set_caryy_flag(false);
        4
    }

    /// `val_1` moved by the signed displacement `val_2`.
    pub fn add_signed(val_1: u16, val_2: u8) -> (target: u16)
        ensures
            target == offset_address(val_1, val_2),
    {
        if val_2 < 0x80 {
            val_1.wrapping_add(val_2 as u16)
        } else {
            val_1.wrapping_sub(0x100 - val_2 as u16)
        }
    }

    /// Increments `reg` with 8-bit wraparound and sets zero, subtract and
    /// half-carry; the carry is left alone.
    pub fn inc_r(flags: &mut Flag, reg: &mut u8) -> (cycles: u32)
        ensures
            *final(reg) == inc8(*old(reg)),
            final(flags)@ == inc_flags(old(flags)@, *old(reg)),
            cycles == 4,
    {
        proof {
            lemma_nibble(*reg);
        }
        flags.set_half_carry_flag((*reg & 0xF) == 0xF);
        *reg = reg.wrapping_add(1);
        flags.set_zero_flag(*reg == 0);
        flags.set_sub_flag(false);
        4
    }

    /// Increments the 16-bit register `rr`; no flag changes.
    pub fn inc_rr(&mut self, rr: Reg16) -> (cycles: u32)
        ensures
            final(self)@ == old(self)@.with_reg(
                old(self)@.reg.with16(rr, inc16(old(self)@.reg.get16(rr))),
            ),
            cycles == 8,
    {
        match rr {
            Reg16::BC => self.reg.set_bc(self.reg.get_bc().wrapping_add(1)),
            Reg16::DE => self.reg.set_de(self.reg.get_de().wrapping_add(1)),
            Reg16::HL => self.reg.set_hl(self.reg.get_hl().wrapping_add(1)),
            Reg16::SP => self.reg.stack_pointer = self.reg.stack_pointer.wrapping_add(1),
        }
        8
    }

    /// Decrements `reg` with 8-bit wraparound and sets zero, subtract and
    /// half-carry; the carry is left alone.
    pub fn dec_r(flags: &mut Flag, reg: &mut u8) -> (cycles: u32)
        ensures
            *final(reg) == dec8(*old(reg)),
            final(flags)@ == dec_flags(old(flags)@, *old(reg)),
            cycles == 4,
    {
        *reg = reg.wrapping_sub(1);
        proof {
            lemma_nibble(*reg);
        }
        flags.set_half_carry_flag((*reg & 0xF) == 0xF);
        flags.set_zero_flag(*reg == 0);
        flags.set_sub_flag(true);
        4
    }

    /// Stores `reg` at the address in HL.
    pub fn ld_r_to_mem_hl(&self, mem_bus: &mut MemoryBus, reg: u8) -> (cycles: u32)
        ensures
            final(mem_bus)@ == mem_write(old(mem_bus)@, self@.reg.hl(), reg),
            cycles == 8,
            final(mem_bus).spare_cell() == old(mem_bus).spare_cell(),
    {
        mem_bus.write_byte(self.reg.get_hl(), reg);
        8
    }

    /// Loads A from address `rr`.
    pub fn ld_mem_rr_to_a(&mut self, mem_bus: &MemoryBus, rr: u16) -> (cycles: u32)
        ensures
            final(self)@ == old(self)@.with_reg(old(self)@.reg.with(Reg8::A, mem_bus@[rr as int])),
            cycles == 8,
    {
        self.reg.a = mem_bus.read_byte(rr);
        8
    }

    /// Loads register `r` from the address in HL.
    pub fn ld_mem_hl_to_r(&mut self, mem_bus: &MemoryBus, r: Reg8) -> (cycles: u32)
        ensures
            final(self)@ == old(self)@.with_reg(
                old(self)@.reg.with(r, mem_bus@[old(self)@.reg.hl() as int]),
            ),
            cycles == 8,
    {
        let value = mem_bus.read_byte(self.reg.get_hl());
        self.reg.set_r(r, value);
        8
    }

    /// Moves the stack pointer down by two and stores `short` there.
    pub fn push_short(&mut self, mem_bus: &mut MemoryBus, short: u16)
        ensures
            final(self)@ == old(self)@.with_reg(
                old(self)@.reg.with_sp(dec16_twice(old(self)@.reg.sp)),
            ),
            final(mem_bus)@ == mem_write_short(
                old(mem_bus)@,
                dec16_twice(old(self)@.reg.sp),
                short,
            ),
            final(mem_bus).spare_cell() == old(mem_bus).spare_cell(),
    {
        self.reg.stack_pointer = self.reg.stack_pointer.wrapping_sub(2);
        mem_bus.write_short(self.reg.stack_pointer, short);
    }

    /// Loads the word at the stack pointer and moves the stack pointer up by two.
    pub fn pop_short(&mut self, mem_bus: &MemoryBus) -> (short: u16)
        ensures
            short == mem_read_short(mem_bus@, old(self)@.reg.sp),
            final(self)@ == old(self)@.with_reg(
                old(self)@.reg.with_sp(inc16_twice(old(self)@.reg.sp)),
            ),
    {
        let short = mem_bus.read_short(self.reg.stack_pointer);
        self.reg.stack_pointer = self.reg.stack_pointer.wrapping_add(2);
        short
    }

    /// Pops a word from the stack into the pair `rr`.
    pub fn pop_rr(&mut self, mem_bus: &MemoryBus, rr: StackPair) -> (cycles: u32)
        ensures
            final(self)@ == old(self)@.with_reg(
                old(self)@.reg.with_sp(inc16_twice(old(self)@.reg.sp)).with_stack_pair(
                    rr,
                    mem_read_short(mem_bus@, old(self)@.reg.sp),
                ),
            ),
            cycles == 12,
    {
        let short = self.pop_short(mem_bus);
        match rr {
            StackPair::AF => self.reg.set_af(short),
            StackPair::BC => self.reg.set_bc(short),
            StackPair::DE => self.reg.set_de(short),
            StackPair::HL => self.reg.set_hl(short),
        }
        12
    }

    /// Pushes the word `rr` on the stack.
    pub fn push_rr(&mut self, mem_bus: &mut MemoryBus, rr: u16) -> (cycles: u32)
        ensures
            final(self)@ == old(self)@.with_reg(
                old(self)@.reg.with_sp(dec16_twice(old(self)@.reg.sp)),
            ),
            final(mem_bus)@ == mem_write_short(old(mem_bus)@, dec16_twice(old(self)@.reg.sp), rr),
            cycles == 16,
            final(mem_bus).spare_cell() == old(mem_bus).spare_cell(),
    {
        self.push_short(mem_bus, rr);
        16
    }

    /// Copies `r_src` into `r_dst`.
    pub fn ld_r_to_r(r_dst: &mut u8, r_src: u8) -> (cycles: u32)
        ensures
            *final(r_dst) == r_src,
            cycles == 4,
    {
        *r_dst = r_src;
        4
    }

    /// Loads the immediate byte `n` and moves `pc` past it.
    pub fn ld_n_to_r(r_dst: &mut u8, n: u8, pc: &mut u16) -> (cycles: u32)
        ensures
            *final(r_dst) == n,
            *final(pc) == inc16(*old(pc)),
            cycles == 8,
    {
        *r_dst = n;
        *pc = pc.wrapping_add(1);
        8
    }

    /// Rotates `r` left through the carry.
    pub fn rl_r(r: &mut u8, f: &mut Flag)
        ensures
            *final(r) == rotate_left(*old(r), old(f)@.carry),
            final(f)@ == rotate_flags(rotate_left(*old(r), old(f)@.carry), top_bit(*old(r))),
    {
        proof {
            lemma_rotate(*r);
        }
        let old_carry = f.carry_flag();
        f.set_caryy_flag((*r & 0x80) == 0x80);
        *r = *r << 1;
        if old_carry {
            *r |= 0x01;
        }
        f.set_zero_flag(*r == 0x00);
        f.set_sub_flag(false);
        f.set_half_carry_flag(false);
    }

    /// Compares A against `val`; only the flags change.
    pub fn cp(&mut self, val: u8)
        ensures
            final(self)@ == old(self)@.with_reg(
                old(self)@.reg.with_flags(compare_flags(old(self)@.reg.a, val)),
            ),
    {
        proof {
            lemma_nibble(self.reg.a);
            lemma_nibble(val);
        }
        self.reg.f.set_zero_flag(self.reg.a == val);
        self.reg.f.set_sub_flag(true);
        self.reg.f.set_caryy_flag(self.reg.a < val);
        self.reg.f.set_half_carry_flag((self.reg.a & 0x0F) < (val & 0x0F))
    }

    /// Compares A against the register value `r`; only the flags change.
    pub fn cp_r(&mut self, r: u8) -> (cycles: u32)
        ensures
            final(self)@ == old(self)@.with_reg(
                old(self)@.reg.with_flags(compare_flags(old(self)@.reg.a, r)),
            ),
            cycles == 4,
    {
        self.cp(r);
        4
    }

    /// Rotates A by one bit; of the flags only the carry can come out set.
    pub fn rotate_a(&mut self, rotation: Rotation) -> (cycles: u32)
        ensures
            final(self)@ == old(self)@.with_reg(
                old(self)@.reg.with(
                    Reg8::A,
                    rotation_result(rotation, old(self)@.reg.a, old(self)@.reg.f.carry),
                ).with_flags(rotate_a_flags(rotation_carry(rotation, old(self)@.reg.a))),
            ),
            cycles == 4,
    {
        proof {
            lemma_rotate(self.reg.a);
        }
        let old_carry = self.reg.f.carry_flag();
        match rotation {
            Rotation::LeftCircular => {
                self.reg.f.set_caryy_flag((self.reg.a & 0x80) == 0x80);
                self.reg.a = self.reg.a << 1;
                if self.reg.f.carry_flag() {
                    self.reg.a |= 0x01;
                }
            },
            Rotation::RightCircular => {
                self.reg.f.set_caryy_flag((self.reg.a & 0x01) == 0x01);
                self.reg.a = self.reg.a >> 1;
                if self.reg.f.carry_flag() {
                    self.reg.a |= 0x80;
                }
            },
            Rotation::LeftThroughCarry => {
                self.reg.f.set_caryy_flag((self.reg.a & 0x80) == 0x80);
                self.reg.a = self.reg.a << 1;
                if old_carry {
                    self.reg.a |= 0x01;
                }
            },
            Rotation::RightThroughCarry => {
                self.reg.f.set_caryy_flag((self.reg.a & 0x01) == 0x01);
                self.reg.a = self.reg.a >> 1;
                if old_carry {
                    self.reg.a |= 0x80;
                }
            },
        }
        self.reg.f.set_zero_flag(false);
        self.reg.f.set_sub_flag(false);
        self.reg.f.set_half_carry_flag(false);
        4
    }

    /// Whether the flags meet `condition`; no condition is always met.
    pub fn condition_met(&self, condition: Option<Condition>) -> (met: bool)
        ensures
            met == condition_holds(self@.reg.f, condition),
    {
        match condition {
            None => true,
            Some(Condition::NotZero) => !self.reg.f.zero_flag(),
            Some(Condition::Zero) => self.reg.f.zero_flag(),
            Some(Condition::NotCarry) => !self.reg.f.carry_flag(),
            Some(Condition::Carry) => self.reg.f.carry_flag(),
        }
    }

    /// The value of `operand`.
    pub fn read_operand(&self, mem_bus: &MemoryBus, operand: Operand8) -> (value: u8)
        ensures
            value == operand_value(self@.reg, mem_bus@, operand),
    {
        match operand {
            Operand8::Reg(r) => self.reg.get_r(r),
            Operand8::MemHl => mem_bus.read_byte(self.reg.get_hl()),
        }
    }

    fn load_immediate16(&mut self, mem_bus: &MemoryBus, rr: Reg16) -> (cycles: u32)
        ensures
            performs(
                load_immediate16_effect(rr, old(self)@.reg, mem_bus@),
                old(self)@,
                final(self)@,
                mem_bus@,
                cycles,
            ),
    {
        let nn = mem_bus.read_short(self.reg.program_counter);
        self.reg.program_counter = self.reg.program_counter.wrapping_add(2);
        self.reg.set_rr(rr, nn);
        12
    }

    fn store_a(&mut self, mem_bus: &mut MemoryBus, indirect: Indirect) -> (cycles: u32)
        ensures
            performs(
                store_a_effect(indirect, old(self)@.reg, old(mem_bus)@),
                old(self)@,
                final(self)@,
                final(mem_bus)@,
                cycles,
            ),
            final(mem_bus).spare_cell() == old(mem_bus).spare_cell(),
    {
        match indirect {
            Indirect::BC => mem_bus.write_byte(self.reg.get_bc(), self.reg.a),
            Indirect::DE => mem_bus.write_byte(self.reg.get_de(), self.reg.a),
            Indirect::HLInc => {
                mem_bus.write_byte(self.reg.get_hl(), self.reg.a);
                self.reg.set_hl(self.reg.get_hl().wrapping_add(1));
            },
            Indirect::HLDec => {
                mem_bus.write_byte(self.reg.get_hl(), self.reg.a);
                self.reg.set_hl(self.reg.get_hl().wrapping_sub(1));
            },
        }
        8
    }

    fn load_a(&mut self, mem_bus: &MemoryBus, indirect: Indirect) -> (cycles: u32)
        ensures
            performs(
                load_a_effect(indirect, old(self)@.reg, mem_bus@),
                old(self)@,
                final(self)@,
                mem_bus@,
                cycles,
            ),
    {
        match indirect {
            Indirect::BC => self.ld_mem_rr_to_a(mem_bus, self.reg.get_bc()),
            Indirect::DE => self.ld_mem_rr_to_a(mem_bus, self.reg.get_de()),
            Indirect::HLInc => {
                let cycles = self.ld_mem_rr_to_a(mem_bus, self.reg.get_hl());
                self.reg.set_hl(self.reg.get_hl().wrapping_add(1));
                cycles
            },
            Indirect::HLDec => {
                let cycles = self.ld_mem_rr_to_a(mem_bus, self.reg.get_hl());
                self.reg.set_hl(self.reg.get_hl().wrapping_sub(1));
                cycles
            },
        }
    }

    fn increment(&mut self, mem_bus: &mut MemoryBus, operand: Operand8) -> (cycles: u32)
        ensures
            performs(
                increment_effect(operand, old(self)@.reg, old(mem_bus)@),
                old(self)@,
                final(self)@,
                final(mem_bus)@,
                cycles,
            ),
            final(mem_bus).spare_cell() == old(mem_bus).spare_cell(),
    {
        match operand {
            Operand8::Reg(r) => {
                let mut value = self.reg.get_r(r);
                let cycles = Cpu::inc_r(&mut self.reg.f, &mut value);
                self.reg.set_r(r, value);
                cycles
            },
            Operand8::MemHl => {
                let mut data = mem_bus.read_byte(self.reg.get_hl());
                Cpu::inc_r(&mut self.reg.f, &mut data);
                mem_bus.write_byte(self.reg.get_hl(), data);
                12
            },
        }
    }

    fn decrement(&mut self, mem_bus: &mut MemoryBus, operand: Operand8) -> (cycles: u32)
        ensures
            performs(
                decrement_effect(operand, old(self)@.reg, old(mem_bus)@),
                old(self)@,
                final(self)@,
                final(mem_bus)@,
                cycles,
            ),
            final(mem_bus).spare_cell() == old(mem_bus).spare_cell(),
    {
        match operand {
            Operand8::Reg(r) => {
                let mut value = self.reg.get_r(r);
                let cycles = Cpu::dec_r(&mut self.reg.f, &mut value);
                self.reg.set_r(r, value);
                cycles
            },
            Operand8::MemHl => {
                let mut data = mem_bus.read_byte(self.reg.get_hl());
                Cpu::dec_r(&mut self.reg.f, &mut data);
                mem_bus.write_byte(self.reg.get_hl(), data);
                12
            },
        }
    }

    fn load_immediate(&mut self, mem_bus: &MemoryBus, r: Reg8) -> (cycles: u32)
        ensures
            performs(
                load_immediate_effect(r, old(self)@.reg, mem_bus@),
                old(self)@,
                final(self)@,
                mem_bus@,
                cycles,
            ),
    {
        let n = mem_bus.read_byte(self.reg.program_counter);
        let mut value = self.reg.get_r(r);
        let cycles = Cpu::ld_n_to_r(&mut value, n, &mut self.reg.program_counter);
        self.reg.set_r(r, value);
        cycles
    }

    fn jump_relative(&mut self, mem_bus: &MemoryBus, condition: Option<Condition>) -> (cycles:
        u32)
        ensures
            performs(
                jump_relative_effect(condition, old(self)@.reg, mem_bus@),
                old(self)@,
                final(self)@,
                mem_bus@,
                cycles,
            ),
    {
        let n = mem_bus.read_byte(self.reg.program_counter);
        self.reg.program_counter = self.reg.program_counter.wrapping_add(1);
        if self.condition_met(condition) {
            self.reg.program_counter = Cpu::add_signed(self.reg.program_counter, n);
            12
        } else {
            8
        }
    }

    fn load(&mut self, mem_bus: &mut MemoryBus, dst: Operand8, src: Operand8) -> (cycles: u32)
        ensures
            performs(
                load_effect(dst, src, old(self)@.reg, old(mem_bus)@),
                old(self)@,
                final(self)@,
                final(mem_bus)@,
                cycles,
            ),
            final(mem_bus).spare_cell() == old(mem_bus).spare_cell(),
    {
        match dst {
            Operand8::Reg(r_dst) => match src {
                Operand8::Reg(r_src) => {
                    let mut value = self.reg.get_r(r_dst);
                    let cycles = Cpu::ld_r_to_r(&mut value, self.reg.get_r(r_src));
                    self.reg.set_r(r_dst, value);
                    cycles
                },
                Operand8::MemHl => self.ld_mem_hl_to_r(mem_bus, r_dst),
            },
            Operand8::MemHl => {
                let value = self.read_operand(mem_bus, src);
                self.ld_r_to_mem_hl(mem_bus, value)
            },
        }
    }

    fn push(&mut self, mem_bus: &mut MemoryBus, pair: StackPair) -> (cycles: u32)
        ensures
            performs(
                push_effect(pair, old(self)@.reg, old(mem_bus)@),
                old(self)@,
                final(self)@,
                final(mem_bus)@,
                cycles,
            ),
            final(mem_bus).spare_cell() == old(mem_bus).spare_cell(),
    {
        match pair {
            StackPair::BC => self.push_rr(mem_bus, self.reg.get_bc()),
            StackPair::DE => self.push_rr(mem_bus, self.reg.get_de()),
            StackPair::HL => self.push_rr(mem_bus, self.reg.get_hl()),
            StackPair::AF => self.push_rr(mem_bus, self.reg.get_af()),
        }
    }

    fn ret(&mut self, mem_bus: &MemoryBus) -> (cycles: u32)
        ensures
            performs(
                return_effect(old(self)@.reg, mem_bus@),
                old(self)@,
                final(self)@,
                mem_bus@,
                cycles,
            ),
    {
        self.reg.program_counter = self.pop_short(mem_bus);
        16
    }

    fn call(&mut self, mem_bus: &mut MemoryBus) -> (cycles: u32)
        ensures
            performs(
                call_effect(old(self)@.reg, old(mem_bus)@),
                old(self)@,
                final(self)@,
                final(mem_bus)@,
                cycles,
            ),
            final(mem_bus).spare_cell() == old(mem_bus).spare_cell(),
    {
        let nn = mem_bus.read_short(self.reg.program_counter);
        self.reg.program_counter = self.reg.program_counter.wrapping_add(2);
        self.push_short(mem_bus, self.reg.program_counter);
        self.reg.program_counter = nn;
        24
    }

    fn store_high(&mut self, mem_bus: &mut MemoryBus) -> (cycles: u32)
        ensures
            performs(
                store_high_effect(old(self)@.reg, old(mem_bus)@),
                old(self)@,
                final(self)@,
                final(mem_bus)@,
                cycles,
            ),
            final(mem_bus).spare_cell() == old(mem_bus).spare_cell(),
    {
        let n = mem_bus.read_byte(self.reg.program_counter);
        mem_bus.write_byte(0xFF00 + n as u16, self.reg.a);
        self.reg.program_counter = self.reg.program_counter.wrapping_add(1);
        12
    }

    fn load_high(&mut self, mem_bus: &MemoryBus) -> (cycles: u32)
        ensures
            performs(
                load_high_effect(old(self)@.reg, mem_bus@),
                old(self)@,
                final(self)@,
                mem_bus@,
                cycles,
            ),
    {
        let n = mem_bus.read_byte(self.reg.program_counter);
        self.reg.a = mem_bus.read_byte(0xFF00 + n as u16);
        self.reg.program_counter = self.reg.program_counter.wrapping_add(1);
        12
    }

    fn store_high_c(&mut self, mem_bus: &mut MemoryBus) -> (cycles: u32)
        ensures
            performs(
                store_high_c_effect(old(self)@.reg, old(mem_bus)@),
                old(self)@,
                final(self)@,
                final(mem_bus)@,
                cycles,
            ),
            final(mem_bus).spare_cell() == old(mem_bus).spare_cell(),
    {
        mem_bus.write_byte(0xFF00 + self.reg.c as u16, self.reg.a);
        8
    }

    fn load_high_c(&mut self, mem_bus: &MemoryBus) -> (cycles: u32)
        ensures
            performs(
                load_high_c_effect(old(self)@.reg, mem_bus@),
                old(self)@,
                final(self)@,
                mem_bus@,
                cycles,
            ),
    {
        self.reg.a = mem_bus.read_byte(0xFF00 + self.reg.c as u16);
        8
    }

    fn store_absolute(&mut self, mem_bus: &mut MemoryBus) -> (cycles: u32)
        ensures
            performs(
                store_absolute_effect(old(self)@.reg, old(mem_bus)@),
                old(self)@,
                final(self)@,
                final(mem_bus)@,
                cycles,
            ),
            final(mem_bus).spare_cell() == old(mem_bus).spare_cell(),
    {
        let nn = mem_bus.read_short(self.reg.program_counter);
        self.reg.program_counter = self.reg.program_counter.wrapping_add(2);
        mem_bus.write_byte(nn, self.reg.a);
        16
    }

    fn compare_immediate(&mut self, mem_bus: &MemoryBus) -> (cycles: u32)
        ensures
            performs(
                compare_immediate_effect(old(self)@.reg, mem_bus@),
                old(self)@,
                final(self)@,
                mem_bus@,
                cycles,
            ),
    {
        let n = mem_bus.read_byte(self.reg.program_counter);
        self.reg.program_counter = self.reg.program_counter.wrapping_add(1);
        self.cp(n);
        8
    }

    fn xor(&mut self, mem_bus: &MemoryBus, r: Reg8) -> (cycles: u32)
        ensures
            performs(
                xor_effect(r, old(self)@.reg, mem_bus@),
                old(self)@,
                final(self)@,
                mem_bus@,
                cycles,
            ),
    {
        self.xor_a_r(self.reg.get_r(r))
    }

    /// Executes one instruction of the primary table. The program counter
    /// stands past the opcode byte, where an immediate operand is read.
    #[verifier::rlimit(60)]
    pub fn execute(&mut self, mem_bus: &mut MemoryBus, instr: Instr) -> (cycles: u32)
        ensures
            final(self)@ == old(self)@.with_reg(effect(instr, old(self)@.reg, old(mem_bus)@).reg),
            final(mem_bus)@ == effect(instr, old(self)@.reg, old(mem_bus)@).mem,
            cycles == effect(instr, old(self)@.reg, old(mem_bus)@).cycles,
            final(mem_bus).spare_cell() == old(mem_bus).spare_cell(),
    {
        match instr {
            Instr::Nop => 4,
            Instr::LoadImmediate16(rr) => self.load_immediate16(mem_bus, rr),
            Instr::StoreA(indirect) => self.store_a(mem_bus, indirect),
            Instr::LoadA(indirect) => self.load_a(mem_bus, indirect),
            Instr::Increment16(rr) => self.inc_rr(rr),
            Instr::Increment(operand) => self.increment(mem_bus, operand),
            Instr::Decrement(operand) => self.decrement(mem_bus, operand),
            Instr::LoadImmediate(r) => self.load_immediate(mem_bus, r),
            Instr::RotateA(rotation) => self.rotate_a(rotation),
            Instr::JumpRelative(condition) => self.jump_relative(mem_bus, condition),
            Instr::Load(dst, src) => self.load(mem_bus, dst, src),
            Instr::Xor(r) => self.xor(mem_bus, r),
            Instr::Pop(pair) => self.pop_rr(mem_bus, pair),
            Instr::Push(pair) => self.push(mem_bus, pair),
            Instr::Return => self.ret(mem_bus),
            Instr::Call => self.call(mem_bus),
            Instr::StoreHigh => self.store_high(mem_bus),
            Instr::LoadHigh => self.load_high(mem_bus),
            Instr::StoreHighC => self.store_high_c(mem_bus),
            Instr::LoadHighC => self.load_high_c(mem_bus),
            Instr::StoreAbsolute => self.store_absolute(mem_bus),
            Instr::CompareImmediate => self.compare_immediate(mem_bus),
        }
    }

    /// Executes one instruction of the prefixed table.
    pub fn execute_prefixed(&mut self, mem_bus: &mut MemoryBus, instr: PrefixedInstr) -> (cycles:
        u32)
        requires
            instr matches PrefixedInstr::Bit(n, _) ==> n < 8,
        ensures
            final(self)@ == old(self)@.with_reg(
                prefixed_effect(instr, old(self)@.reg, old(mem_bus)@).reg,
            ),
            final(mem_bus)@ == prefixed_effect(instr, old(self)@.reg, old(mem_bus)@).mem,
            cycles == prefixed_effect(instr, old(self)@.reg, old(mem_bus)@).cycles,
            final(mem_bus).spare_cell() == old(mem_bus).spare_cell(),
    {
        match instr {
            PrefixedInstr::RotateLeft(operand) => match operand {
                Operand8::Reg(r) => {
                    let mut value = self.reg.get_r(r);
                    Cpu::rl_r(&mut value, &mut self.reg.f);
                    self.reg.set_r(r, value);
                    8
                },
                Operand8::MemHl => {
                    let mut data = mem_bus.read_byte(self.reg.get_hl());
                    Cpu::rl_r(&mut data, &mut self.reg.f);
                    mem_bus.write_byte(self.reg.get_hl(), data);
                    16
                },
            },
            PrefixedInstr::Bit(n, operand) => {
                let value = self.read_operand(mem_bus, operand);
                self.bit_test(value, n);
                match operand {
                    Operand8::Reg(_) => 8,
                    Operand8::MemHl => 16,
                }
            },
        }
    }

    /// Runs what follows the prefix byte: fetches the next byte and executes
    /// the instruction it selects in the prefixed table.
    pub fn cb_inst_set(&mut self, mem_bus: &mut MemoryBus) -> (result: Result<u32, DecodeError>)
        ensures
            prefixed_step_spec(old(self)@, old(mem_bus)@) == (Outcome {
                cpu: final(self)@,
                mem: final(mem_bus)@,
                result,
            }),
            final(mem_bus).spare_cell() == old(mem_bus).spare_cell(),
    {
        let op = self.get_opcode(mem_bus);
        match decode_prefixed(op) {
            Some(instr) => Ok(self.execute_prefixed(mem_bus, instr)),
            None => Err(DecodeError { opcode: op, pc: self.reg.program_counter, prefixed: true }),
        }
    }

    /// Runs one instruction: fetch, decode, execute. Returns its cost in
    /// clock cycles, or the byte that selects no instruction.
    pub fn step(&mut self, mem_bus: &mut MemoryBus) -> (result: Result<u32, DecodeError>)
        ensures
            step_spec(old(self)@, old(mem_bus)@) == (Outcome {
                cpu: final(self)@,
                mem: final(mem_bus)@,
                result,
            }),
            final(mem_bus).spare_cell() == old(mem_bus).spare_cell(),
    {
        let opcode = self.get_opcode(mem_bus);
        if opcode == PREFIX {
            return self.cb_inst_set(mem_bus);
        }
        match decode(opcode) {
            Some(instr) => Ok(self.execute(mem_bus, instr)),
            None => Err(DecodeError { opcode, pc: self.reg.program_counter, prefixed: false }),
        }
    }
}

} // verus!
