//! Conditional branch (immediate).

use crate::instr::{CondBranchImm, Instruction};
use crate::pipeline::decode::{extract_bits, field};
use vstd::prelude::*;

verus! {

pub const IMM19_SHIFT: u32 = 5;
pub const IMM19_WIDTH: u32 = 19;

pub const O0_SHIFT: u32 = 4;
pub const O0_WIDTH: u32 = 1;

pub const COND_SHIFT: u32 = 0;
pub const COND_WIDTH: u32 = 4;

/// What a conditional-branch (immediate) encoding decodes to, if it is
/// supported: `B.cond` (`o0` clear) is, `BC.cond` is not.
pub open spec fn spec_decode(instr: u32) -> Option<Instruction> {
    if field(instr, O0_SHIFT, O0_WIDTH) == 0b0 {
        Some(
            Instruction::Bcond(
                CondBranchImm {
                    cond: field(instr, COND_SHIFT, COND_WIDTH),
                    imm19: field(instr, IMM19_SHIFT, IMM19_WIDTH),
                },
            ),
        )
    } else {
        None
    }
}

/// Decodes `instr` if it is a supported encoding of this group; `None` if
/// it is not.
pub fn try_decode(instr: u32) -> (r: Option<Instruction>)
    ensures
        r == spec_decode(instr),
{
    let imm19 = extract_bits(instr, IMM19_SHIFT, IMM19_WIDTH);
    let o0 = extract_bits(instr, O0_SHIFT, O0_WIDTH);
    let cond = extract_bits(instr, COND_SHIFT, COND_WIDTH);

    match o0 {
        0b0 => Some(Instruction::Bcond(CondBranchImm { cond, imm19 })),
        _ => None,
    }
}

/// Decodes a conditional-branch (immediate) instruction.
pub fn decode(instr: u32) -> (r: Instruction)
    requires
        spec_decode(instr) is Some,
    ensures
        spec_decode(instr) == Some(r),
{
    match try_decode(instr) {
        Some(r) => r,
        None => vstd::pervasive::unreached(),
    }
}

} // verus!
