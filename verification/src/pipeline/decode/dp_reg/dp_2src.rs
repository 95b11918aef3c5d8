//! Data-processing (2 source).

use crate::instr::{Instruction, TwoSource};
use crate::pipeline::decode::{extract_bits, field, REG_WIDTH};
use vstd::prelude::*;

verus! {

pub const SF_SHIFT: u32 = 31;
pub const SF_WIDTH: u32 = 1;

pub const S_SHIFT: u32 = 29;
pub const S_WIDTH: u32 = 1;

pub const OPCODE_SHIFT: u32 = 10;
pub const OPCODE_WIDTH: u32 = 6;

pub const RM_SHIFT: u32 = 16;

pub const RN_SHIFT: u32 = 5;

pub const RD_SHIFT: u32 = 0;

/// The instruction a two-source opcode selects, given its operands.
pub open spec fn spec_from_opcode(opcode: u32, ops: TwoSource) -> Option<Instruction> {
    if opcode == 0b000010 {
        Some(Instruction::Udiv(ops))
    } else if opcode == 0b000011 {
        Some(Instruction::Sdiv(ops))
    } else if opcode == 0b001000 {
        Some(Instruction::Lslv(ops))
    } else if opcode == 0b001001 {
        Some(Instruction::Lsrv(ops))
    } else if opcode == 0b001010 {
        Some(Instruction::Asrv(ops))
    } else if opcode == 0b001011 {
        Some(Instruction::Rorv(ops))
    } else if opcode == 0b011000 {
        Some(Instruction::Smax(ops))
    } else if opcode == 0b011001 {
        Some(Instruction::Umax(ops))
    } else if opcode == 0b011010 {
        Some(Instruction::Smin(ops))
    } else if opcode == 0b011011 {
        Some(Instruction::Umin(ops))
    } else {
        None
    }
}

/// What a data-processing (2 source) encoding decodes to, if it is supported:
/// `S` must be clear and the opcode one of the ten listed in
/// [`spec_from_opcode`].
pub open spec fn spec_decode(instr: u32) -> Option<Instruction> {
    let ops = TwoSource {
        rd: field(instr, RD_SHIFT, REG_WIDTH),
        rn: field(instr, RN_SHIFT, REG_WIDTH),
        rm: field(instr, RM_SHIFT, REG_WIDTH),
        sf: field(instr, SF_SHIFT, SF_WIDTH),
    };
    if field(instr, S_SHIFT, S_WIDTH) != 0 {
        None
    } else {
        spec_from_opcode(field(instr, OPCODE_SHIFT, OPCODE_WIDTH), ops)
    }
}

/// Decodes `instr` if it is a supported encoding of this group; `None` if
/// it is not.
pub fn try_decode(instr: u32) -> (r: Option<Instruction>)
    ensures
        r == spec_decode(instr),
{
    let sf = extract_bits(instr, SF_SHIFT, SF_WIDTH);
    let s = extract_bits(instr, S_SHIFT, S_WIDTH);
    let opcode = extract_bits(instr, OPCODE_SHIFT, OPCODE_WIDTH);
    let rm = extract_bits(instr, RM_SHIFT, REG_WIDTH);
    let rn = extract_bits(instr, RN_SHIFT, REG_WIDTH);
    let rd = extract_bits(instr, RD_SHIFT, REG_WIDTH);

    if s != 0 {
        return None;
    }
    let ops = TwoSource { rd, rn, rm, sf };
    match opcode {
        0b000010 => Some(Instruction::Udiv(ops)),
        0b000011 => Some(Instruction::Sdiv(ops)),
        0b001000 => Some(Instruction::Lslv(ops)),
        0b001001 => Some(Instruction::Lsrv(ops)),
        0b001010 => Some(Instruction::Asrv(ops)),
        0b001011 => Some(Instruction::Rorv(ops)),
        0b011000 => Some(Instruction::Smax(ops)),
        0b011001 => Some(Instruction::Umax(ops)),
        0b011010 => Some(Instruction::Smin(ops)),
        0b011011 => Some(Instruction::Umin(ops)),
        _ => None,
    }
}

/// Decodes a data-processing (2 source) instruction.
pub fn decode(instr: u32) -> (r: Instruction)
    requires
        spec_decode(instr) is Some,
    ensures
        spec_decode(instr) == Some(r),
{
    match try_decode(instr) {
        Some(r) => r,
        None => vstd::pervasive::unreached(),
    }
}

} // verus!
