//! Minimum/maximum (immediate).

use crate::instr::{Instruction, MinMaxImm};
use crate::pipeline::decode::{extract_bits, field, REG_WIDTH};
use vstd::prelude::*;

verus! {

pub const SF_SHIFT: u32 = 31;
pub const SF_WIDTH: u32 = 1;

pub const OP_SHIFT: u32 = 30;
pub const OP_WIDTH: u32 = 1;

pub const S_SHIFT: u32 = 29;
pub const S_WIDTH: u32 = 1;

pub const OPC_SHIFT: u32 = 18;
pub const OPC_WIDTH: u32 = 4;

pub const IMM8_SHIFT: u32 = 10;
pub const IMM8_WIDTH: u32 = 8;

pub const RN_SHIFT: u32 = 5;

pub const RD_SHIFT: u32 = 0;

/// What a minimum/maximum (immediate) encoding decodes to, if it is supported.
pub open spec fn spec_decode(instr: u32) -> Option<Instruction> {
    let ops = MinMaxImm {
        rd: field(instr, RD_SHIFT, REG_WIDTH),
        rn: field(instr, RN_SHIFT, REG_WIDTH),
        sf: field(instr, SF_SHIFT, SF_WIDTH),
        imm8: field(instr, IMM8_SHIFT, IMM8_WIDTH),
    };
    let opc = field(instr, OPC_SHIFT, OPC_WIDTH);
    if field(instr, OP_SHIFT, OP_WIDTH) != 0 || field(instr, S_SHIFT, S_WIDTH) != 0 {
        None
    } else if opc == 0b0000 {
        Some(Instruction::SmaxImm(ops))
    } else if opc == 0b0001 {
        Some(Instruction::UmaxImm(ops))
    } else if opc == 0b0010 {
        Some(Instruction::SminImm(ops))
    } else if opc == 0b0011 {
        Some(Instruction::UminImm(ops))
    } else {
        None
    }
}

/// Decodes `instr` if it is a supported encoding of this group; `None` if
/// it is not.
pub fn try_decode(instr: u32) -> (r: Option<Instruction>)
    ensures
        r == spec_decode(instr),
{
    let sf = extract_bits(instr, SF_SHIFT, SF_WIDTH);
    let op = extract_bits(instr, OP_SHIFT, OP_WIDTH);
    let s = extract_bits(instr, S_SHIFT, S_WIDTH);
    let opc = extract_bits(instr, OPC_SHIFT, OPC_WIDTH);
    let imm8 = extract_bits(instr, IMM8_SHIFT, IMM8_WIDTH);
    let rn = extract_bits(instr, RN_SHIFT, REG_WIDTH);
    let rd = extract_bits(instr, RD_SHIFT, REG_WIDTH);

    if op != 0 || s != 0 {
        return None;
    }
    let ops = MinMaxImm { rd, rn, sf, imm8 };
    match opc {
        0b0000 => Some(Instruction::SmaxImm(ops)),
        0b0001 => Some(Instruction::UmaxImm(ops)),
        0b0010 => Some(Instruction::SminImm(ops)),
        0b0011 => Some(Instruction::UminImm(ops)),
        _ => None,
    }
}

/// Decodes a minimum/maximum (immediate) instruction.
pub fn decode(instr: u32) -> (r: Instruction)
    requires
        spec_decode(instr) is Some,
    ensures
        spec_decode(instr) == Some(r),
{
    match try_decode(instr) {
        Some(r) => r,
        None => vstd::pervasive::unreached(),
    }
}

} // verus!
