//! Data Processing -- Immediate

use super::{extract_bits, field};
use crate::instr::Instruction;
use vstd::prelude::*;

pub mod add_sub;
pub mod logical;
pub mod min_max;
pub mod move_wide;

verus! {

pub const OP1_SHIFT: u32 = 22;
pub const OP1_WIDTH: u32 = 4;

/// What an encoding of the data-processing (immediate) group decodes to, if
/// it is a supported instruction.
pub open spec fn spec_decode(instr: u32) -> Option<Instruction> {
    let op1 = field(instr, OP1_SHIFT, OP1_WIDTH);
    if op1 == 0b0100 || op1 == 0b0101 {
        Some(add_sub::spec_decode(instr))
    } else if op1 == 0b0111 {
        min_max::spec_decode(instr)
    } else if op1 == 0b1000 || op1 == 0b1001 {
        logical::spec_decode(instr)
    } else if op1 == 0b1010 || op1 == 0b1011 {
        move_wide::spec_decode(instr)
    } else {
        None
    }
}

/// Decodes `instr` if it is a supported encoding of this group; `None` if
/// it is not.
pub fn try_decode(instr: u32) -> (r: Option<Instruction>)
    ensures
        r == spec_decode(instr),
{
    let op1 = extract_bits(instr, OP1_SHIFT, OP1_WIDTH);
    if op1 == 0b0100 || op1 == 0b0101 {
        Some(add_sub::decode(instr))
    } else if op1 == 0b0111 {
        min_max::try_decode(instr)
    } else if op1 == 0b1000 || op1 == 0b1001 {
        logical::try_decode(instr)
    } else if op1 == 0b1010 || op1 == 0b1011 {
        move_wide::try_decode(instr)
    } else {
        None
    }
}

/// Decodes an instruction of the data-processing (immediate) group.
pub fn decode(instr: u32) -> (r: Instruction)
    requires
        spec_decode(instr) is Some,
    ensures
        spec_decode(instr) == Some(r),
{
    match try_decode(instr) {
        Some(r) => r,
        None => vstd::pervasive::unreached(),
    }
}

} // verus!
