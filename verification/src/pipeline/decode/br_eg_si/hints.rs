//! Hints.

use crate::instr::Instruction;
use crate::pipeline::decode::{extract_bits, field};
use vstd::prelude::*;

verus! {

pub const CRM_SHIFT: u32 = 8;
pub const CRM_WIDTH: u32 = 4;

pub const OP2_SHIFT: u32 = 5;
pub const OP2_WIDTH: u32 = 3;

/// What a hint encoding decodes to, if it is supported: only `NOP`
/// (`CRm == 0000`, `op2 == 000`) is.
pub open spec fn spec_decode(instr: u32) -> Option<Instruction> {
    if field(instr, CRM_SHIFT, CRM_WIDTH) == 0b0000 && field(instr, OP2_SHIFT, OP2_WIDTH) == 0b000 {
        Some(Instruction::Nop)
    } else {
        None
    }
}

/// Decodes `instr` if it is a supported encoding of this group; `None` if
/// it is not.
pub fn try_decode(instr: u32) -> (r: Option<Instruction>)
    ensures
        r == spec_decode(instr),
{
    let crm = extract_bits(instr, CRM_SHIFT, CRM_WIDTH);
    let op2 = extract_bits(instr, OP2_SHIFT, OP2_WIDTH);

    match (crm, op2) {
        (0b0000, 0b000) => Some(Instruction::Nop),
        _ => None,
    }
}

/// Decodes a hint instruction.
pub fn decode(instr: u32) -> (r: Instruction)
    requires
        spec_decode(instr) is Some,
    ensures
        spec_decode(instr) == Some(r),
{
    match try_decode(instr) {
        Some(r) => r,
        None => vstd::pervasive::unreached(),
    }
}

} // verus!
