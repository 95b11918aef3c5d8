//! Branches, Exception Generation and System Instructions

use super::{extract_bits, field};
use crate::instr::Instruction;
use vstd::prelude::*;

pub mod cond_br_imm;
pub mod hints;
pub mod uncond_br_imm;
pub mod uncond_br_reg;

verus! {

pub const OP0_SHIFT: u32 = 29;
pub const OP0_WIDTH: u32 = 3;

pub const OP1_SHIFT: u32 = 12;
pub const OP1_WIDTH: u32 = 14;

pub const OP2_SHIFT: u32 = 0;
pub const OP2_WIDTH: u32 = 5;

/// The `op1` value that, together with `op0 == 110` and `op2 == 11111`,
/// selects the hint instructions.
pub const HINTS_OP1: u32 = 0b01_0000_0011_0010;

/// What an encoding of the branch/exception/system group decodes to, if it is
/// a supported instruction.
pub open spec fn spec_decode(instr: u32) -> Option<Instruction> {
    let op0 = field(instr, OP0_SHIFT, OP0_WIDTH);
    let op1 = field(instr, OP1_SHIFT, OP1_WIDTH);
    let op2 = field(instr, OP2_SHIFT, OP2_WIDTH);
    if op0 == 0b010 && (op1 >> 12u32) == 0b00 {
        cond_br_imm::spec_decode(instr)
    } else if op0 == 0b110 && op1 == HINTS_OP1 && op2 == 0b11111 {
        hints::spec_decode(instr)
    } else if op0 == 0b110 && (op1 >> 13u32) == 0b1 {
        uncond_br_reg::spec_decode(instr)
    } else if op0 == 0b000 || op0 == 0b100 {
        uncond_br_imm::spec_decode(instr)
    } else {
        None
    }
}

/// Decodes `instr` if it is a supported encoding of this group; `None` if
/// it is not.
pub fn try_decode(instr: u32) -> (r: Option<Instruction>)
    ensures
        r == spec_decode(instr),
{
    let op0 = extract_bits(instr, OP0_SHIFT, OP0_WIDTH);
    let op1 = extract_bits(instr, OP1_SHIFT, OP1_WIDTH);
    let op2 = extract_bits(instr, OP2_SHIFT, OP2_WIDTH);

    if op0 == 0b010 && (op1 >> 12u32) == 0b00 {
        cond_br_imm::try_decode(instr)
    } else if op0 == 0b110 && op1 == HINTS_OP1 && op2 == 0b11111 {
        hints::try_decode(instr)
    } else if op0 == 0b110 && (op1 >> 13u32) == 0b1 {
        uncond_br_reg::try_decode(instr)
    } else if op0 == 0b000 || op0 == 0b100 {
        uncond_br_imm::try_decode(instr)
    } else {
        None
    }
}

/// Decodes an instruction of the branch/exception/system group.
pub fn decode(instr: u32) -> (r: Instruction)
    requires
        spec_decode(instr) is Some,
    ensures
        spec_decode(instr) == Some(r),
{
    match try_decode(instr) {
        Some(r) => r,
        None => vstd::pervasive::unreached(),
    }
}

} // verus!
