//! The operations of the machine, one module each, and the decoding of the
//! fields of an instruction word that they share.

pub mod op_add;
pub mod op_and;
pub mod op_br;
pub mod op_jmp;
pub mod op_jsr;
pub mod op_ld;
pub mod op_ldi;
pub mod op_ldr;
pub mod op_lea;
pub mod op_not;
pub mod op_st;
pub mod op_sti;
pub mod op_str;
pub mod trap;

use vstd::prelude::*;
use vstd::arithmetic::power2::lemma2_to64;

use crate::constants::R_PC;
use crate::utils::{sign_extend, signed_field, wrap16};

verus! {

/// The operation code of an instruction: its bits 15 to 12.
pub open spec fn opcode_of(instr: u16) -> u16 {
    instr / 4096
}

/// Bits 11 to 9 of an instruction: the destination register of an
/// operation that computes or loads, the source register of one that
/// stores, the condition mask of a branch.
pub open spec fn dest_of(instr: u16) -> u16 {
    (instr / 512) % 8
}

/// Bits 8 to 6 of an instruction: its first source register, or its base
/// register.
pub open spec fn base_of(instr: u16) -> u16 {
    (instr / 64) % 8
}

/// Bits 2 to 0 of an instruction: its second source register.
pub open spec fn src2_of(instr: u16) -> u16 {
    instr % 8
}

/// Bit 5 of an instruction: whether the second operand is an immediate.
pub open spec fn imm_mode(instr: u16) -> bool {
    (instr / 32) % 2 == 1
}

/// Bit 11 of an instruction: whether a subroutine call gives its target as
/// an offset from the program counter.
pub open spec fn long_mode(instr: u16) -> bool {
    (instr / 2048) % 2 == 1
}

/// The immediate operand of an instruction: its bits 4 to 0, in two's
/// complement.
pub open spec fn imm5_of(instr: u16) -> int {
    signed_field(instr, 32)
}

/// The offset from a base register: bits 5 to 0, in two's complement.
pub open spec fn offset6_of(instr: u16) -> int {
    signed_field(instr, 64)
}

/// The offset from the program counter: bits 8 to 0, in two's complement.
pub open spec fn offset9_of(instr: u16) -> int {
    signed_field(instr, 512)
}

/// The long offset from the program counter: bits 10 to 0, in two's
/// complement.
pub open spec fn offset11_of(instr: u16) -> int {
    signed_field(instr, 2048)
}

/// The trap vector of an instruction: its low byte.
pub open spec fn trap_vector_of(instr: u16) -> u16 {
    instr % 256
}

/// The address that an instruction names by an offset from the program
/// counter, in a machine whose register file is `regs`.
pub open spec fn pc_relative(regs: Seq<u16>, instr: u16) -> u16 {
    wrap16(regs[R_PC as int] + offset9_of(instr))
}

/// The address that an instruction names by an offset from its base
/// register, in a machine whose register file is `regs`.
pub open spec fn base_relative(regs: Seq<u16>, instr: u16) -> u16 {
    wrap16(regs[base_of(instr) as int] + offset6_of(instr))
}

/// The register fields of an instruction name general-purpose registers
/// only: a field of three bits is never the index of the program counter
/// or of the condition register. An operation code is one of sixteen.
pub proof fn lemma_fields_in_range(instr: u16)
    ensures
        dest_of(instr) < 8,
        base_of(instr) < 8,
        src2_of(instr) < 8,
        opcode_of(instr) < 16,
        -16 <= imm5_of(instr) < 16,
        -32 <= offset6_of(instr) < 32,
        -256 <= offset9_of(instr) < 256,
        -1024 <= offset11_of(instr) < 1024,
        trap_vector_of(instr) < 256,
{
}

/// Extracts the operation code of an instruction.
pub fn opcode(instr: u16) -> (op: u16)
    ensures
        op == opcode_of(instr),
        op < 16,
{
    assert(instr >> 12 == instr / 4096) by (bit_vector);
    instr >> 12
}

/// Extracts bits 11 to 9 of an instruction.
pub fn dest(instr: u16) -> (r: u16)
    ensures
        r == dest_of(instr),
        r < 8,
{
    assert((instr >> 9) & 0x7 == (instr / 512) % 8) by (bit_vector);
    (instr >> 9) & 0x7
}

/// Extracts bits 8 to 6 of an instruction.
pub fn base(instr: u16) -> (r: u16)
    ensures
        r == base_of(instr),
        r < 8,
{
    assert((instr >> 6) & 0x7 == (instr / 64) % 8) by (bit_vector);
    (instr >> 6) & 0x7
}

/// Extracts bits 2 to 0 of an instruction.
pub fn src2(instr: u16) -> (r: u16)
    ensures
        r == src2_of(instr),
        r < 8,
{
    assert(instr & 0x7 == instr % 8) by (bit_vector);
    instr & 0x7
}

/// Tells whether bit 5 of an instruction is set.
pub fn is_imm(instr: u16) -> (b: bool)
    ensures
        b == imm_mode(instr),
{
    assert((instr >> 5) & 0x1 == (instr / 32) % 2) by (bit_vector);
    (instr >> 5) & 0x1 == 1
}

/// Tells whether bit 11 of an instruction is set.
pub fn is_long(instr: u16) -> (b: bool)
    ensures
        b == long_mode(instr),
{
    assert((instr >> 11) & 1 == (instr / 2048) % 2) by (bit_vector);
    (instr >> 11) & 1 == 1
}

/// Extracts the immediate operand of an instruction.
pub fn imm5(instr: u16) -> (imm: i16)
    ensures
        imm as int == imm5_of(instr),
        -16 <= imm < 16,
{
    proof {
        lemma2_to64();
    }
    assert(instr & 0x1F == instr % 32) by (bit_vector);
    sign_extend(instr & 0x1F, 5)
}

/// Extracts the offset that an instruction adds to a base register.
pub fn offset6(instr: u16) -> (off: i16)
    ensures
        off as int == offset6_of(instr),
        -32 <= off < 32,
{
    proof {
        lemma2_to64();
    }
    assert(instr & 0x3F == instr % 64) by (bit_vector);
    sign_extend(instr & 0x3F, 6)
}

/// Extracts the offset that an instruction adds to the program counter.
pub fn offset9(instr: u16) -> (off: i16)
    ensures
        off as int == offset9_of(instr),
        -256 <= off < 256,
{
    proof {
        lemma2_to64();
    }
    assert(instr & 0x1FF == instr % 512) by (bit_vector);
    sign_extend(instr & 0x1FF, 9)
}

/// Extracts the long offset that a subroutine call adds to the program
/// counter.
pub fn offset11(instr: u16) -> (off: i16)
    ensures
        off as int == offset11_of(instr),
        -1024 <= off < 1024,
{
    proof {
        lemma2_to64();
    }
    assert(instr & 0x7FF == instr % 2048) by (bit_vector);
    sign_extend(instr & 0x7FF, 11)
}

/// Extracts the trap vector of an instruction.
pub fn trap_vector(instr: u16) -> (code: u16)
    ensures
        code == trap_vector_of(instr),
        code < 256,
{
    assert(instr & 0xFF == instr % 256) by (bit_vector);
    instr & 0xFF
}

} // verus!
