//! What executing an instruction does to the registers and to memory, as
//! functions from the state before to the state after.

use crate::alu::{
    bit_test_flags, bottom_bit, compare_flags, dec16, dec16_twice, dec8, dec_flags, inc16,
    inc16_twice, inc8, inc_flags, lemma_xor_self, logic_flags, offset_address, rotate_a_flags,
    rotate_flags, rotate_left, rotate_right, top_bit,
};
use crate::bus::{is_mapped, mem_read_short, mem_write, mem_write_short, MemoryBus};
use crate::cpu::{Cpu, CpuState};
use crate::instr::{
    decode_prefixed_spec, decode_spec, Condition, Indirect, Instr, Operand8, PrefixedInstr,
    Rotation, PREFIX,
};
use crate::register::{FlagState, Reg16, Reg8, RegState, StackPair};
use vstd::prelude::*;

verus! {

/// Why decoding stopped: a byte that selects nothing in its table.
#[derive(Clone, Copy, PartialEq, Eq, Structural, Debug)]
pub struct DecodeError {
    /// The offending byte.
    pub opcode: u8,
    /// The program counter when decoding stopped: the address that follows
    /// the offending byte.
    pub pc: u16,
    /// Whether the byte was looked up in the prefixed table.
    pub prefixed: bool,
}

/// Registers, memory and cycle cost after an instruction.
pub struct Effect {
    pub reg: RegState,
    pub mem: Seq<u8>,
    pub cycles: u32,
}

/// CPU and memory after a step, with the cycle cost or the decode error.
pub struct Outcome {
    pub cpu: CpuState,
    pub mem: Seq<u8>,
    pub result: Result<u32, DecodeError>,
}

/// The immediate byte: the byte at the program counter.
pub open spec fn immediate8(reg: RegState, mem: Seq<u8>) -> u8 {
    mem[reg.pc as int]
}

/// The immediate word: the little-endian word at the program counter.
pub open spec fn immediate16(reg: RegState, mem: Seq<u8>) -> u16 {
    mem_read_short(mem, reg.pc)
}

/// The address `0xFF00 + offset` in the I/O window.
pub open spec fn high_address(offset: u8) -> u16 {
    (0xFF00 + offset) as u16
}

pub open spec fn operand_value(reg: RegState, mem: Seq<u8>, operand: Operand8) -> u8 {
    match operand {
        Operand8::Reg(r) => reg.get(r),
        Operand8::MemHl => mem[reg.hl() as int],
    }
}

/// Registers after storing `value` in `operand`.
pub open spec fn operand_store_reg(reg: RegState, operand: Operand8, value: u8) -> RegState {
    match operand {
        Operand8::Reg(r) => reg.with(r, value),
        Operand8::MemHl => reg,
    }
}

/// Memory after storing `value` in `operand`.
pub open spec fn operand_store_mem(
    reg: RegState,
    mem: Seq<u8>,
    operand: Operand8,
    value: u8,
) -> Seq<u8> {
    match operand {
        Operand8::Reg(r) => mem,
        Operand8::MemHl => mem_write(mem, reg.hl(), value),
    }
}

pub open spec fn condition_holds(f: FlagState, condition: Option<Condition>) -> bool {
    match condition {
        None => true,
        Some(Condition::NotZero) => !f.zero,
        Some(Condition::Zero) => f.zero,
        Some(Condition::NotCarry) => !f.carry,
        Some(Condition::Carry) => f.carry,
    }
}

pub open spec fn indirect_address(reg: RegState, indirect: Indirect) -> u16 {
    match indirect {
        Indirect::BC => reg.bc(),
        Indirect::DE => reg.de(),
        Indirect::HLInc => reg.hl(),
        Indirect::HLDec => reg.hl(),
    }
}

/// Registers after the address register of an indirect access was adjusted.
pub open spec fn after_indirect(reg: RegState, indirect: Indirect) -> RegState {
    match indirect {
        Indirect::BC => reg,
        Indirect::DE => reg,
        Indirect::HLInc => reg.with_hl(inc16(reg.hl())),
        Indirect::HLDec => reg.with_hl(dec16(reg.hl())),
    }
}

pub open spec fn rotation_result(rotation: Rotation, a: u8, carry: bool) -> u8 {
    match rotation {
        Rotation::LeftCircular => rotate_left(a, top_bit(a)),
        Rotation::RightCircular => rotate_right(a, bottom_bit(a)),
        Rotation::LeftThroughCarry => rotate_left(a, carry),
        Rotation::RightThroughCarry => rotate_right(a, carry),
    }
}

/// The bit that the rotation moves out of `a`.
pub open spec fn rotation_carry(rotation: Rotation, a: u8) -> bool {
    match rotation {
        Rotation::LeftCircular => top_bit(a),
        Rotation::RightCircular => bottom_bit(a),
        Rotation::LeftThroughCarry => top_bit(a),
        Rotation::RightThroughCarry => bottom_bit(a),
    }
}

/// 4 cycles between registers, 12 when the byte at (HL) is read and written back.
pub open spec fn step_cycles(operand: Operand8) -> u32 {
    match operand {
        Operand8::Reg(r) => 4,
        Operand8::MemHl => 12,
    }
}

/// 4 cycles between registers, 8 when one side is the byte at (HL).
pub open spec fn load_cycles(dst: Operand8, src: Operand8) -> u32 {
    if dst is MemHl || src is MemHl {
        8
    } else {
        4
    }
}

/// 8 cycles on a register, 16 on the byte at (HL).
pub open spec fn prefixed_cycles(operand: Operand8) -> u32 {
    match operand {
        Operand8::Reg(r) => 8,
        Operand8::MemHl => 16,
    }
}

/// `LD rr,d16`
pub open spec fn load_immediate16_effect(rr: Reg16, reg: RegState, mem: Seq<u8>) -> Effect {
    Effect {
        reg: reg.with16(rr, immediate16(reg, mem)).with_pc(inc16_twice(reg.pc)),
        mem,
        cycles: 12,
    }
}

/// `LD (BC),A`, `LD (DE),A`, `LD (HL+),A`, `LD (HL-),A`
pub open spec fn store_a_effect(indirect: Indirect, reg: RegState, mem: Seq<u8>) -> Effect {
    Effect {
        reg: after_indirect(reg, indirect),
        mem: mem_write(mem, indirect_address(reg, indirect), reg.a),
        cycles: 8,
    }
}

/// `LD A,(BC)`, `LD A,(DE)`, `LD A,(HL+)`, `LD A,(HL-)`
pub open spec fn load_a_effect(indirect: Indirect, reg: RegState, mem: Seq<u8>) -> Effect {
    Effect {
        reg: after_indirect(reg, indirect).with(
            Reg8::A,
            mem[indirect_address(reg, indirect) as int],
        ),
        mem,
        cycles: 8,
    }
}

/// `INC rr`: no flag changes.
pub open spec fn increment16_effect(rr: Reg16, reg: RegState, mem: Seq<u8>) -> Effect {
    Effect { reg: reg.with16(rr, inc16(reg.get16(rr))), mem, cycles: 8 }
}

/// `INC r`, `INC (HL)`
pub open spec fn increment_effect(operand: Operand8, reg: RegState, mem: Seq<u8>) -> Effect {
    let v = operand_value(reg, mem, operand);
    Effect {
        reg: operand_store_reg(reg, operand, inc8(v)).with_flags(inc_flags(reg.f, v)),
        mem: operand_store_mem(reg, mem, operand, inc8(v)),
        cycles: step_cycles(operand),
    }
}

/// `DEC r`, `DEC (HL)`
pub open spec fn decrement_effect(operand: Operand8, reg: RegState, mem: Seq<u8>) -> Effect {
    let v = operand_value(reg, mem, operand);
    Effect {
        reg: operand_store_reg(reg, operand, dec8(v)).with_flags(dec_flags(reg.f, v)),
        mem: operand_store_mem(reg, mem, operand, dec8(v)),
        cycles: step_cycles(operand),
    }
}

/// `LD r,d8`
pub open spec fn load_immediate_effect(r: Reg8, reg: RegState, mem: Seq<u8>) -> Effect {
    Effect { reg: reg.with(r, immediate8(reg, mem)).with_pc(inc16(reg.pc)), mem, cycles: 8 }
}

/// `RLCA`, `RRCA`, `RLA`, `RRA`
pub open spec fn rotate_a_effect(rotation: Rotation, reg: RegState, mem: Seq<u8>) -> Effect {
    Effect {
        reg: reg.with(Reg8::A, rotation_result(rotation, reg.a, reg.f.carry)).with_flags(
            rotate_a_flags(rotation_carry(rotation, reg.a)),
        ),
        mem,
        cycles: 4,
    }
}

/// `JR r8`, `JR cc,r8`: the displacement counts from the address after the
/// operand byte; a jump not taken still moves past the operand.
pub open spec fn jump_relative_effect(
    condition: Option<Condition>,
    reg: RegState,
    mem: Seq<u8>,
) -> Effect {
    let next = inc16(reg.pc);
    if condition_holds(reg.f, condition) {
        Effect { reg: reg.with_pc(offset_address(next, immediate8(reg, mem))), mem, cycles: 12 }
    } else {
        Effect { reg: reg.with_pc(next), mem, cycles: 8 }
    }
}

/// `LD r,r'`, `LD r,(HL)`, `LD (HL),r`
pub open spec fn load_effect(dst: Operand8, src: Operand8, reg: RegState, mem: Seq<u8>) -> Effect {
    let v = operand_value(reg, mem, src);
    Effect {
        reg: operand_store_reg(reg, dst, v),
        mem: operand_store_mem(reg, mem, dst, v),
        cycles: load_cycles(dst, src),
    }
}

/// `XOR A,r`
pub open spec fn xor_effect(r: Reg8, reg: RegState, mem: Seq<u8>) -> Effect {
    Effect {
        reg: reg.with(Reg8::A, reg.a ^ reg.get(r)).with_flags(logic_flags(reg.a ^ reg.get(r))),
        mem,
        cycles: 4,
    }
}

/// `POP rr`: reads the word at SP, then moves SP up by two.
pub open spec fn pop_effect(pair: StackPair, reg: RegState, mem: Seq<u8>) -> Effect {
    Effect {
        reg: reg.with_sp(inc16_twice(reg.sp)).with_stack_pair(pair, mem_read_short(mem, reg.sp)),
        mem,
        cycles: 12,
    }
}

/// `PUSH rr`: moves SP down by two, then stores the pair there.
pub open spec fn push_effect(pair: StackPair, reg: RegState, mem: Seq<u8>) -> Effect {
    Effect {
        reg: reg.with_sp(dec16_twice(reg.sp)),
        mem: mem_write_short(mem, dec16_twice(reg.sp), reg.stack_pair(pair)),
        cycles: 16,
    }
}

/// `RET`: pops the program counter.
pub open spec fn return_effect(reg: RegState, mem: Seq<u8>) -> Effect {
    Effect {
        reg: reg.with_sp(inc16_twice(reg.sp)).with_pc(mem_read_short(mem, reg.sp)),
        mem,
        cycles: 16,
    }
}

/// `CALL a16`: pushes the address that follows the two operand bytes, then
/// jumps to the operand.
pub open spec fn call_effect(reg: RegState, mem: Seq<u8>) -> Effect {
    Effect {
        reg: reg.with_sp(dec16_twice(reg.sp)).with_pc(immediate16(reg, mem)),
        mem: mem_write_short(mem, dec16_twice(reg.sp), inc16_twice(reg.pc)),
        cycles: 24,
    }
}

/// `LDH (a8),A`
pub open spec fn store_high_effect(reg: RegState, mem: Seq<u8>) -> Effect {
    Effect {
        reg: reg.with_pc(inc16(reg.pc)),
        mem: mem_write(mem, high_address(immediate8(reg, mem)), reg.a),
        cycles: 12,
    }
}

/// `LDH A,(a8)`
pub open spec fn load_high_effect(reg: RegState, mem: Seq<u8>) -> Effect {
    Effect {
        reg: reg.with(Reg8::A, mem[high_address(immediate8(reg, mem)) as int]).with_pc(
            inc16(reg.pc),
        ),
        mem,
        cycles: 12,
    }
}

/// `LD (FF00+C),A`
pub open spec fn store_high_c_effect(reg: RegState, mem: Seq<u8>) -> Effect {
    Effect { reg, mem: mem_write(mem, high_address(reg.c), reg.a), cycles: 8 }
}

/// `LD A,(FF00+C)`
pub open spec fn load_high_c_effect(reg: RegState, mem: Seq<u8>) -> Effect {
    Effect { reg: reg.with(Reg8::A, mem[high_address(reg.c) as int]), mem, cycles: 8 }
}

/// `LD (a16),A`
pub open spec fn store_absolute_effect(reg: RegState, mem: Seq<u8>) -> Effect {
    Effect {
        reg: reg.with_pc(inc16_twice(reg.pc)),
        mem: mem_write(mem, immediate16(reg, mem), reg.a),
        cycles: 16,
    }
}

/// `CP A,d8`
pub open spec fn compare_immediate_effect(reg: RegState, mem: Seq<u8>) -> Effect {
    Effect {
        reg: reg.with_pc(inc16(reg.pc)).with_flags(compare_flags(reg.a, immediate8(reg, mem))),
        mem,
        cycles: 8,
    }
}

/// The effect of an instruction of the primary table. `reg.pc` is the address
/// that follows the opcode byte; an instruction with an immediate operand
/// reads it there and moves the program counter past it.
pub open spec fn effect(instr: Instr, reg: RegState, mem: Seq<u8>) -> Effect {
    match instr {
        Instr::Nop => Effect { reg, mem, cycles: 4 },
        Instr::LoadImmediate16(rr) => load_immediate16_effect(rr, reg, mem),
        Instr::StoreA(indirect) => store_a_effect(indirect, reg, mem),
        Instr::LoadA(indirect) => load_a_effect(indirect, reg, mem),
        Instr::Increment16(rr) => increment16_effect(rr, reg, mem),
        Instr::Increment(operand) => increment_effect(operand, reg, mem),
        Instr::Decrement(operand) => decrement_effect(operand, reg, mem),
        Instr::LoadImmediate(r) => load_immediate_effect(r, reg, mem),
        Instr::RotateA(rotation) => rotate_a_effect(rotation, reg, mem),
        Instr::JumpRelative(condition) => jump_relative_effect(condition, reg, mem),
        Instr::Load(dst, src) => load_effect(dst, src, reg, mem),
        Instr::Xor(r) => xor_effect(r, reg, mem),
        Instr::Pop(pair) => pop_effect(pair, reg, mem),
        Instr::Push(pair) => push_effect(pair, reg, mem),
        Instr::Return => return_effect(reg, mem),
        Instr::Call => call_effect(reg, mem),
        Instr::StoreHigh => store_high_effect(reg, mem),
        Instr::LoadHigh => load_high_effect(reg, mem),
        Instr::StoreHighC => store_high_c_effect(reg, mem),
        Instr::LoadHighC => load_high_c_effect(reg, mem),
        Instr::StoreAbsolute => store_absolute_effect(reg, mem),
        Instr::CompareImmediate => compare_immediate_effect(reg, mem),
    }
}

/// Whether going from `before` and `mem_before` to `after` and `mem_after`
/// in `cycles` cycles is exactly `e`. The interrupt master enable stays.
pub open spec fn performs(
    e: Effect,
    before: CpuState,
    after: CpuState,
    mem_after: Seq<u8>,
    cycles: u32,
) -> bool {
    &&& after == before.with_reg(e.reg)
    &&& mem_after == e.mem
    &&& cycles == e.cycles
}

/// The effect of an instruction of the prefixed table.
pub open spec fn prefixed_effect(instr: PrefixedInstr, reg: RegState, mem: Seq<u8>) -> Effect {
    match instr {
        PrefixedInstr::RotateLeft(operand) => {
            let v = operand_value(reg, mem, operand);
            let rotated = rotate_left(v, reg.f.carry);
            Effect {
                reg: operand_store_reg(reg, operand, rotated).with_flags(
                    rotate_flags(rotated, top_bit(v)),
                ),
                mem: operand_store_mem(reg, mem, operand, rotated),
                cycles: prefixed_cycles(operand),
            }
        },
        PrefixedInstr::Bit(n, operand) => Effect {
            reg: reg.with_flags(bit_test_flags(reg.f, operand_value(reg, mem, operand), n)),
            mem,
            cycles: prefixed_cycles(operand),
        },
    }
}

/// The CPU with its program counter moved past the byte it points at.
pub open spec fn fetched(cpu: CpuState) -> CpuState {
    cpu.with_reg(cpu.reg.with_pc(inc16(cpu.reg.pc)))
}

/// What follows the prefix byte: the byte at the program counter is fetched
/// and looked up in the prefixed table. A byte without an entry stops the
/// step with the program counter past it and nothing else changed.
pub open spec fn prefixed_step_spec(cpu: CpuState, mem: Seq<u8>) -> Outcome {
    let opcode = mem[cpu.reg.pc as int];
    let after = fetched(cpu);
    match decode_prefixed_spec(opcode) {
        Some(instr) => {
            let e = prefixed_effect(instr, after.reg, mem);
            Outcome { cpu: after.with_reg(e.reg), mem: e.mem, result: Ok(e.cycles) }
        },
        None => Outcome {
            cpu: after,
            mem,
            result: Err(DecodeError { opcode, pc: after.reg.pc, prefixed: true }),
        },
    }
}

/// One step: the byte at the program counter is fetched; the prefix byte
/// hands over to the prefixed table, any other byte is looked up in the
/// primary table and executed. A byte without an entry stops the step with
/// the program counter past it and nothing else changed.
pub open spec fn step_spec(cpu: CpuState, mem: Seq<u8>) -> Outcome {
    let opcode = mem[cpu.reg.pc as int];
    let after = fetched(cpu);
    if opcode == PREFIX {
        prefixed_step_spec(after, mem)
    } else {
        match decode_spec(opcode) {
            Some(instr) => {
                let e = effect(instr, after.reg, mem);
                Outcome { cpu: after.with_reg(e.reg), mem: e.mem, result: Ok(e.cycles) }
            },
            None => Outcome {
                cpu: after,
                mem,
                result: Err(DecodeError { opcode, pc: after.reg.pc, prefixed: false }),
            },
        }
    }
}

/// A step that succeeds costs 4, 8, 12, 16 or 24 cycles.
pub proof fn lemma_cycle_costs(cpu: CpuState, mem: Seq<u8>)
    ensures
        step_spec(cpu, mem).result matches Ok(cycles) ==> cycles == 4 || cycles == 8 || cycles
            == 12 || cycles == 16 || cycles == 24,
{
}

/// An instruction of the prefixed table costs 16 cycles when the low nibble
/// of its opcode is `0x6` or `0xE`, which are the forms that work on the
/// byte at (HL), and 8 cycles otherwise.
pub proof fn lemma_prefixed_costs(cpu: CpuState, mem: Seq<u8>)
    ensures
        prefixed_step_spec(cpu, mem).result matches Ok(cycles) ==> cycles == if mem[cpu.reg.pc as int]
            % 16 == 0x6 || mem[cpu.reg.pc as int] % 16 == 0xE {
            16u32
        } else {
            8u32
        },
{
}

/// Incrementing a register that holds `0xFF` leaves `0x00` in it, with the
/// zero and half-carry flags set, the subtract flag clear and the carry as it was.
pub proof fn lemma_increment_wraps(r: Reg8, reg: RegState, mem: Seq<u8>)
    requires
        reg.get(r) == 0xFF,
    ensures
        effect(Instr::Increment(Operand8::Reg(r)), reg, mem).reg.get(r) == 0x00,
        effect(Instr::Increment(Operand8::Reg(r)), reg, mem).reg.f == (FlagState {
            zero: true,
            sub: false,
            half_carry: true,
            carry: reg.f.carry,
        }),
{
}

/// Decrementing a register that holds `0x01` leaves `0x00` in it, with the
/// zero and subtract flags set, the half-carry clear and the carry as it was.
pub proof fn lemma_decrement_to_zero(r: Reg8, reg: RegState, mem: Seq<u8>)
    requires
        reg.get(r) == 0x01,
    ensures
        effect(Instr::Decrement(Operand8::Reg(r)), reg, mem).reg.get(r) == 0x00,
        effect(Instr::Decrement(Operand8::Reg(r)), reg, mem).reg.f == (FlagState {
            zero: true,
            sub: true,
            half_carry: false,
            carry: reg.f.carry,
        }),
{
}

/// `XOR A,A` clears A whatever it held: A is `0x00`, the zero flag is set,
/// the other three flags are clear, and the cost is 4 cycles. Nothing else changes.
pub proof fn lemma_xor_a_clears(reg: RegState, mem: Seq<u8>)
    ensures
        effect(Instr::Xor(Reg8::A), reg, mem) == (Effect {
            reg: reg.with(Reg8::A, 0).with_flags(
                FlagState { zero: true, sub: false, half_carry: false, carry: false },
            ),
            mem,
            cycles: 4,
        }),
{
    lemma_xor_self(reg.a);
}

/// `JR Z,+5` moves the program counter 2 + 5 bytes on from the address of
/// its opcode and costs 12 cycles when the zero flag is set; otherwise it
/// moves 2 bytes on and costs 8 cycles. Memory and the other registers stay.
pub proof fn lemma_jump_if_zero(cpu: Cpu, bus: MemoryBus)
    requires
        bus@[cpu@.reg.pc as int] == 0x28,
        bus@[inc16(cpu@.reg.pc) as int] == 5,
    ensures
        step_spec(cpu@, bus@).mem == bus@,
        cpu@.reg.f.zero ==> step_spec(cpu@, bus@).result == Ok::<u32, DecodeError>(12)
            && step_spec(cpu@, bus@).cpu == cpu@.with_reg(
            cpu@.reg.with_pc(((cpu@.reg.pc + 7) % 0x10000) as u16),
        ),
        !cpu@.reg.f.zero ==> step_spec(cpu@, bus@).result == Ok::<u32, DecodeError>(8)
            && step_spec(cpu@, bus@).cpu == cpu@.with_reg(
            cpu@.reg.with_pc(((cpu@.reg.pc + 2) % 0x10000) as u16),
        ),
{
}

/// `CALL` stores the address that follows its two operand bytes at SP - 2,
/// lowers SP by 2 and continues at the operand; a `RET` executed there
/// brings back that address and the old SP. This needs the two stack cells
/// to be mapped, since a store to an unmapped cell is lost.
pub proof fn lemma_call_then_return(cpu: Cpu, bus: MemoryBus)
    requires
        bus@[cpu@.reg.pc as int] == 0xCD,
        is_mapped(dec16_twice(cpu@.reg.sp)),
        is_mapped(dec16(cpu@.reg.sp)),
        step_spec(cpu@, bus@).mem[mem_read_short(bus@, inc16(cpu@.reg.pc)) as int] == 0xC9,
    ensures
        ({
            let return_address = inc16(inc16_twice(cpu@.reg.pc));
            let called = step_spec(cpu@, bus@);
            let returned = step_spec(called.cpu, called.mem);
            &&& called.result == Ok::<u32, DecodeError>(24)
            &&& called.cpu.reg.pc == mem_read_short(bus@, inc16(cpu@.reg.pc))
            &&& called.cpu.reg.sp == dec16_twice(cpu@.reg.sp)
            &&& called.mem == mem_write_short(bus@, dec16_twice(cpu@.reg.sp), return_address)
            &&& mem_read_short(called.mem, called.cpu.reg.sp) == return_address
            &&& returned.result == Ok::<u32, DecodeError>(16)
            &&& returned.cpu.reg.pc == return_address
            &&& returned.cpu.reg.sp == cpu@.reg.sp
            &&& returned.mem == called.mem
        }),
{
    bus.lemma_view_len();
}

} // verus!
