//! Unconditional branch (immediate).

use crate::instr::{BranchImm, Instruction};
use crate::pipeline::decode::{extract_bits, field};
use vstd::prelude::*;

verus! {

pub const OP_SHIFT: u32 = 31;
pub const OP_WIDTH: u32 = 1;

pub const IMM26_SHIFT: u32 = 0;
pub const IMM26_WIDTH: u32 = 26;

/// What an unconditional-branch (immediate) encoding decodes to, if it is
/// supported: `B` (`op` clear) is, `BL` is not.
pub open spec fn spec_decode(instr: u32) -> Option<Instruction> {
    if field(instr, OP_SHIFT, OP_WIDTH) == 0b0 {
        Some(Instruction::B(BranchImm { imm26: field(instr, IMM26_SHIFT, IMM26_WIDTH) }))
    } else {
        None
    }
}

/// Decodes `instr` if it is a supported encoding of this group; `None` if
/// it is not.
pub fn try_decode(instr: u32) -> (r: Option<Instruction>)
    ensures
        r == spec_decode(instr),
{
    let op = extract_bits(instr, OP_SHIFT, OP_WIDTH);
    let imm26 = extract_bits(instr, IMM26_SHIFT, IMM26_WIDTH);

    match op {
        0b0 => Some(Instruction::B(BranchImm { imm26 })),
        _ => None,
    }
}

/// Decodes an unconditional-branch (immediate) instruction.
pub fn decode(instr: u32) -> (r: Instruction)
    requires
        spec_decode(instr) is Some,
    ensures
        spec_decode(instr) == Some(r),
{
    match try_decode(instr) {
        Some(r) => r,
        None => vstd::pervasive::unreached(),
    }
}

} // verus!
