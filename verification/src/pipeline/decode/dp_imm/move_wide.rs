//! Move wide (immediate).

use crate::instr::{Instruction, MoveWideImm};
use crate::pipeline::decode::{extract_bits, field, REG_WIDTH};
use vstd::prelude::*;

verus! {

pub const SF_SHIFT: u32 = 31;
pub const SF_WIDTH: u32 = 1;

pub const OPC_SHIFT: u32 = 29;
pub const OPC_WIDTH: u32 = 2;

pub const HW_SHIFT: u32 = 21;
pub const HW_WIDTH: u32 = 2;

pub const IMM16_SHIFT: u32 = 5;
pub const IMM16_WIDTH: u32 = 16;

pub const RD_SHIFT: u32 = 0;

/// What a move-wide (immediate) encoding decodes to, if it is supported: only
/// `MOVZ` is, and a 32-bit operation (`sf == 0`) may only shift by 0 or 16.
pub open spec fn spec_decode(instr: u32) -> Option<Instruction> {
    let sf = field(instr, SF_SHIFT, SF_WIDTH);
    let hw = field(instr, HW_SHIFT, HW_WIDTH);
    let ops = MoveWideImm {
        rd: field(instr, RD_SHIFT, REG_WIDTH),
        sf,
        imm16: field(instr, IMM16_SHIFT, IMM16_WIDTH),
        hw,
    };
    if sf == 0 && (hw & 0b10) != 0b00 {
        None
    } else if field(instr, OPC_SHIFT, OPC_WIDTH) == 0b10 {
        Some(Instruction::Movz(ops))
    } else {
        None
    }
}

/// Decodes `instr` if it is a supported encoding of this group; `None` if
/// it is not.
pub fn try_decode(instr: u32) -> (r: Option<Instruction>)
    ensures
        r == spec_decode(instr),
{
    let sf = extract_bits(instr, SF_SHIFT, SF_WIDTH);
    let opc = extract_bits(instr, OPC_SHIFT, OPC_WIDTH);
    let hw = extract_bits(instr, HW_SHIFT, HW_WIDTH);
    let imm16 = extract_bits(instr, IMM16_SHIFT, IMM16_WIDTH);
    let rd = extract_bits(instr, RD_SHIFT, REG_WIDTH);

    if sf == 0 && (hw & 0b10) != 0b00 {
        return None;
    }
    match opc {
        0b10 => Some(Instruction::Movz(MoveWideImm { rd, sf, imm16, hw })),
        _ => None,
    }
}

/// Decodes a move-wide (immediate) instruction.
pub fn decode(instr: u32) -> (r: Instruction)
    requires
        spec_decode(instr) is Some,
    ensures
        spec_decode(instr) == Some(r),
{
    match try_decode(instr) {
        Some(r) => r,
        None => vstd::pervasive::unreached(),
    }
}

} // verus!
