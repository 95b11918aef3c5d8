//! Logical (immediate).

use crate::instr::{Instruction, LogicalImm};
use crate::pipeline::decode::{extract_bits, field, REG_WIDTH};
use vstd::prelude::*;

verus! {

pub const SF_SHIFT: u32 = 31;
pub const SF_WIDTH: u32 = 1;

pub const OPC_SHIFT: u32 = 29;
pub const OPC_WIDTH: u32 = 2;

pub const N_SHIFT: u32 = 22;
pub const N_WIDTH: u32 = 1;

pub const IMMR_SHIFT: u32 = 16;
pub const IMMR_WIDTH: u32 = 6;

pub const IMMS_SHIFT: u32 = 10;
pub const IMMS_WIDTH: u32 = 6;

pub const RN_SHIFT: u32 = 5;

pub const RD_SHIFT: u32 = 0;

/// What a logical (immediate) encoding decodes to, if it is supported: a
/// 32-bit operation (`sf == 0`) must not set `N`.
pub open spec fn spec_decode(instr: u32) -> Option<Instruction> {
    let sf = field(instr, SF_SHIFT, SF_WIDTH);
    let n = field(instr, N_SHIFT, N_WIDTH);
    let ops = LogicalImm {
        rd: field(instr, RD_SHIFT, REG_WIDTH),
        rn: field(instr, RN_SHIFT, REG_WIDTH),
        sf,
        n,
        immr: field(instr, IMMR_SHIFT, IMMR_WIDTH),
        imms: field(instr, IMMS_SHIFT, IMMS_WIDTH),
    };
    let opc = field(instr, OPC_SHIFT, OPC_WIDTH);
    if sf == 0 && n != 0 {
        None
    } else if opc == 0b00 {
        Some(Instruction::AndImm(ops))
    } else if opc == 0b01 {
        Some(Instruction::OrrImm(ops))
    } else if opc == 0b10 {
        Some(Instruction::EorImm(ops))
    } else {
        Some(Instruction::AndsImm(ops))
    }
}

/// Decodes `instr` if it is a supported encoding of this group; `None` if
/// it is not.
pub fn try_decode(instr: u32) -> (r: Option<Instruction>)
    ensures
        r == spec_decode(instr),
{
    let sf = extract_bits(instr, SF_SHIFT, SF_WIDTH);
    let opc = extract_bits(instr, OPC_SHIFT, OPC_WIDTH);
    let n = extract_bits(instr, N_SHIFT, N_WIDTH);
    let immr = extract_bits(instr, IMMR_SHIFT, IMMR_WIDTH);
    let imms = extract_bits(instr, IMMS_SHIFT, IMMS_WIDTH);
    let rn = extract_bits(instr, RN_SHIFT, REG_WIDTH);
    let rd = extract_bits(instr, RD_SHIFT, REG_WIDTH);

    if sf == 0 && n != 0 {
        return None;
    }
    let ops = LogicalImm { rd, rn, sf, n, immr, imms };
    match opc {
        0b00 => Some(Instruction::AndImm(ops)),
        0b01 => Some(Instruction::OrrImm(ops)),
        0b10 => Some(Instruction::EorImm(ops)),
        _ => Some(Instruction::AndsImm(ops)),
    }
}

/// Decodes a logical (immediate) instruction.
pub fn decode(instr: u32) -> (r: Instruction)
    requires
        spec_decode(instr) is Some,
    ensures
        spec_decode(instr) == Some(r),
{
    match try_decode(instr) {
        Some(r) => r,
        None => vstd::pervasive::unreached(),
    }
}

} // verus!
