//! Data-processing (3 source).

use crate::instr::{Instruction, ThreeSource};
use crate::pipeline::decode::{extract_bits, field, REG_WIDTH};
use vstd::prelude::*;

verus! {

pub const SF_SHIFT: u32 = 31;
pub const SF_WIDTH: u32 = 1;

pub const OP54_SHIFT: u32 = 29;
pub const OP54_WIDTH: u32 = 2;

pub const OP31_SHIFT: u32 = 21;
pub const OP31_WIDTH: u32 = 3;

pub const RM_SHIFT: u32 = 16;

pub const O0_SHIFT: u32 = 15;
pub const O0_WIDTH: u32 = 1;

pub const RA_SHIFT: u32 = 10;

pub const RN_SHIFT: u32 = 5;

pub const RD_SHIFT: u32 = 0;

/// What a data-processing (3 source) encoding decodes to, if it is supported:
/// only `MADD` and `MSUB` (`op54 == 00`, `op31 == 000`) are.
pub open spec fn spec_decode(instr: u32) -> Option<Instruction> {
    let ops = ThreeSource {
        rd: field(instr, RD_SHIFT, REG_WIDTH),
        rn: field(instr, RN_SHIFT, REG_WIDTH),
        rm: field(instr, RM_SHIFT, REG_WIDTH),
        ra: field(instr, RA_SHIFT, REG_WIDTH),
        sf: field(instr, SF_SHIFT, SF_WIDTH),
    };
    if field(instr, OP54_SHIFT, OP54_WIDTH) != 0b00 || field(instr, OP31_SHIFT, OP31_WIDTH)
        != 0b000 {
        None
    } else if field(instr, O0_SHIFT, O0_WIDTH) == 0b0 {
        Some(Instruction::Madd(ops))
    } else {
        Some(Instruction::Msub(ops))
    }
}

/// Decodes `instr` if it is a supported encoding of this group; `None` if
/// it is not.
pub fn try_decode(instr: u32) -> (r: Option<Instruction>)
    ensures
        r == spec_decode(instr),
{
    let sf = extract_bits(instr, SF_SHIFT, SF_WIDTH);
    let op54 = extract_bits(instr, OP54_SHIFT, OP54_WIDTH);
    let op31 = extract_bits(instr, OP31_SHIFT, OP31_WIDTH);
    let rm = extract_bits(instr, RM_SHIFT, REG_WIDTH);
    let o0 = extract_bits(instr, O0_SHIFT, O0_WIDTH);
    let ra = extract_bits(instr, RA_SHIFT, REG_WIDTH);
    let rn = extract_bits(instr, RN_SHIFT, REG_WIDTH);
    let rd = extract_bits(instr, RD_SHIFT, REG_WIDTH);

    let ops = ThreeSource { rd, rn, rm, ra, sf };
    match (op54, op31, o0) {
        (0b00, 0b000, 0b0) => Some(Instruction::Madd(ops)),
        (0b00, 0b000, _) => Some(Instruction::Msub(ops)),
        _ => None,
    }
}

/// Decodes a data-processing (3 source) instruction.
pub fn decode(instr: u32) -> (r: Instruction)
    requires
        spec_decode(instr) is Some,
    ensures
        spec_decode(instr) == Some(r),
{
    match try_decode(instr) {
        Some(r) => r,
        None => vstd::pervasive::unreached(),
    }
}

} // verus!
