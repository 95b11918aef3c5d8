//! Data-processing (1 source).

use crate::instr::{Instruction, OneSource};
use crate::pipeline::decode::{extract_bits, field, REG_WIDTH};
use vstd::prelude::*;

verus! {

pub const SF_SHIFT: u32 = 31;
pub const SF_WIDTH: u32 = 1;

pub const S_SHIFT: u32 = 29;
pub const S_WIDTH: u32 = 1;

pub const OPCODE_SHIFT: u32 = 10;
pub const OPCODE_WIDTH: u32 = 6;

pub const OPCODE2_SHIFT: u32 = 16;
pub const OPCODE2_WIDTH: u32 = 5;

pub const RN_SHIFT: u32 = 5;

pub const RD_SHIFT: u32 = 0;

/// What a data-processing (1 source) encoding decodes to, if it is supported:
/// only `ABS` (opcode `001000`, opcode2 `00000`, `S` clear) is.
pub open spec fn spec_decode(instr: u32) -> Option<Instruction> {
    let ops = OneSource {
        rd: field(instr, RD_SHIFT, REG_WIDTH),
        rn: field(instr, RN_SHIFT, REG_WIDTH),
        sf: field(instr, SF_SHIFT, SF_WIDTH),
    };
    if field(instr, S_SHIFT, S_WIDTH) == 0 && field(instr, OPCODE_SHIFT, OPCODE_WIDTH) == 0b001000
        && field(instr, OPCODE2_SHIFT, OPCODE2_WIDTH) == 0b00000 {
        Some(Instruction::Abs(ops))
    } else {
        None
    }
}

/// Decodes `instr` if it is a supported encoding of this group; `None` if
/// it is not.
pub fn try_decode(instr: u32) -> (r: Option<Instruction>)
    ensures
        r == spec_decode(instr),
{
    let sf = extract_bits(instr, SF_SHIFT, SF_WIDTH);
    let s = extract_bits(instr, S_SHIFT, S_WIDTH);
    let opcode = extract_bits(instr, OPCODE_SHIFT, OPCODE_WIDTH);
    let opcode2 = extract_bits(instr, OPCODE2_SHIFT, OPCODE2_WIDTH);
    let rn = extract_bits(instr, RN_SHIFT, REG_WIDTH);
    let rd = extract_bits(instr, RD_SHIFT, REG_WIDTH);

    if s != 0 {
        return None;
    }
    match (opcode, opcode2) {
        (0b001000, 0b00000) => Some(Instruction::Abs(OneSource { rd, rn, sf })),
        _ => None,
    }
}

/// Decodes a data-processing (1 source) instruction.
pub fn decode(instr: u32) -> (r: Instruction)
    requires
        spec_decode(instr) is Some,
    ensures
        spec_decode(instr) == Some(r),
{
    match try_decode(instr) {
        Some(r) => r,
        None => vstd::pervasive::unreached(),
    }
}

} // verus!
