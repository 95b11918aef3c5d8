//! Data Processing -- Register

use super::{extract_bits, field};
use crate::instr::Instruction;
use vstd::prelude::*;

pub mod add_sub_shift;
pub mod dp_1src;
pub mod dp_2src;
pub mod dp_3src;
pub mod logic_shift;

verus! {

pub const OP0_SHIFT: u32 = 30;
pub const OP0_WIDTH: u32 = 1;

pub const OP1_SHIFT: u32 = 28;
pub const OP1_WIDTH: u32 = 1;

pub const OP2_SHIFT: u32 = 21;
pub const OP2_WIDTH: u32 = 4;

/// What an encoding of the data-processing (register) group decodes to, if it
/// is a supported instruction.
pub open spec fn spec_decode(instr: u32) -> Option<Instruction> {
    let op0 = field(instr, OP0_SHIFT, OP0_WIDTH);
    let op1 = field(instr, OP1_SHIFT, OP1_WIDTH);
    let op2 = field(instr, OP2_SHIFT, OP2_WIDTH);
    if op0 == 0b0 && op1 == 0b1 && op2 == 0b0110 {
        dp_2src::spec_decode(instr)
    } else if op0 == 0b1 && op1 == 0b1 && op2 == 0b0110 {
        dp_1src::spec_decode(instr)
    } else if op1 == 0b0 && (op2 >> 3u32) == 0b0 {
        logic_shift::spec_decode(instr)
    } else if op1 == 0b1 && (op2 & 0b1001) == 0b1000 {
        Some(add_sub_shift::spec_decode(instr))
    } else if op1 == 0b1 && (op2 >> 3u32) == 0b1 {
        dp_3src::spec_decode(instr)
    } else {
        None
    }
}

/// Decodes `instr` if it is a supported encoding of this group; `None` if
/// it is not.
pub fn try_decode(instr: u32) -> (r: Option<Instruction>)
    ensures
        r == spec_decode(instr),
{
    let op0 = extract_bits(instr, OP0_SHIFT, OP0_WIDTH);
    let op1 = extract_bits(instr, OP1_SHIFT, OP1_WIDTH);
    let op2 = extract_bits(instr, OP2_SHIFT, OP2_WIDTH);

    if op0 == 0b0 && op1 == 0b1 && op2 == 0b0110 {
        dp_2src::try_decode(instr)
    } else if op0 == 0b1 && op1 == 0b1 && op2 == 0b0110 {
        dp_1src::try_decode(instr)
    } else if op1 == 0b0 && (op2 >> 3u32) == 0b0 {
        logic_shift::try_decode(instr)
    } else if op1 == 0b1 && (op2 & 0b1001) == 0b1000 {
        Some(add_sub_shift::decode(instr))
    } else if op1 == 0b1 && (op2 >> 3u32) == 0b1 {
        dp_3src::try_decode(instr)
    } else {
        None
    }
}

/// Decodes an instruction of the data-processing (register) group.
pub fn decode(instr: u32) -> (r: Instruction)
    requires
        spec_decode(instr) is Some,
    ensures
        spec_decode(instr) == Some(r),
{
    match try_decode(instr) {
        Some(r) => r,
        None => vstd::pervasive::unreached(),
    }
}

} // verus!
