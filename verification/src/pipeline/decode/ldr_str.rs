//! Loads and Stores

use super::{extract_bits, field};
use crate::instr::{AddressingMode, Instruction};
use vstd::prelude::*;

pub mod ldr_str_reg_imm;
pub mod ldr_str_reg_reg_off;

verus! {

pub const OP0_SHIFT: u32 = 28;
pub const OP0_WIDTH: u32 = 4;

pub const OP1_SHIFT: u32 = 26;
pub const OP1_WIDTH: u32 = 1;

pub const OP2_SHIFT: u32 = 25;
pub const OP2_WIDTH: u32 = 15;

/// The bits of `op2` that select the addressing form.
pub const OP2_FORM_MASK: u32 = 0b100_1000_0000_0011;

/// What an encoding of the load/store group decodes to, if it is a supported
/// instruction.
///
/// `op0` must have its two low bits set; the bits of `op2` under
/// [`OP2_FORM_MASK`] then pick post-indexed, pre-indexed, register-offset or
/// unsigned-offset addressing.
pub open spec fn spec_decode(instr: u32) -> Option<Instruction> {
    let op0 = field(instr, OP0_SHIFT, OP0_WIDTH);
    let form = field(instr, OP2_SHIFT, OP2_WIDTH) & OP2_FORM_MASK;
    if op0 & 0b11 != 0b11 {
        None
    } else if form == 0b000_0000_0000_0001 {
        ldr_str_reg_imm::spec_decode(instr, AddressingMode::PostIndex)
    } else if form == 0b000_0000_0000_0011 {
        ldr_str_reg_imm::spec_decode(instr, AddressingMode::PreIndex)
    } else if form == 0b000_1000_0000_0010 {
        ldr_str_reg_reg_off::spec_decode(instr)
    } else if form & 0b100_0000_0000_0000 == 0b100_0000_0000_0000 {
        ldr_str_reg_imm::spec_decode(instr, AddressingMode::UnsignedOffset)
    } else {
        None
    }
}

/// Decodes `instr` if it is a supported encoding of this group; `None` if
/// it is not.
pub fn try_decode(instr: u32) -> (r: Option<Instruction>)
    ensures
        r == spec_decode(instr),
{
    let op0 = extract_bits(instr, OP0_SHIFT, OP0_WIDTH);
    let _op1 = extract_bits(instr, OP1_SHIFT, OP1_WIDTH);
    let op2 = extract_bits(instr, OP2_SHIFT, OP2_WIDTH);

    if op0 & 0b11 != 0b11 {
        return None;
    }
    let form = op2 & OP2_FORM_MASK;
    if form == 0b000_0000_0000_0001 {
        ldr_str_reg_imm::try_decode(instr, AddressingMode::PostIndex)
    } else if form == 0b000_0000_0000_0011 {
        ldr_str_reg_imm::try_decode(instr, AddressingMode::PreIndex)
    } else if form == 0b000_1000_0000_0010 {
        ldr_str_reg_reg_off::try_decode(instr)
    } else if form & 0b100_0000_0000_0000 == 0b100_0000_0000_0000 {
        ldr_str_reg_imm::try_decode(instr, AddressingMode::UnsignedOffset)
    } else {
        None
    }
}

/// Decodes an instruction of the load/store group.
pub fn decode(instr: u32) -> (r: Instruction)
    requires
        spec_decode(instr) is Some,
    ensures
        spec_decode(instr) == Some(r),
{
    match try_decode(instr) {
        Some(r) => r,
        None => vstd::pervasive::unreached(),
    }
}

} // verus!
