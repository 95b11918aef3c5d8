//! Logical (shifted register).

use crate::instr::{Instruction, ShiftedRegister};
use crate::pipeline::decode::{extract_bits, field, REG_WIDTH};
use vstd::prelude::*;

verus! {

pub const SF_SHIFT: u32 = 31;
pub const SF_WIDTH: u32 = 1;

pub const OPC_SHIFT: u32 = 29;
pub const OPC_WIDTH: u32 = 2;

pub const N_SHIFT: u32 = 21;
pub const N_WIDTH: u32 = 1;

pub const SHIFT_SHIFT: u32 = 22;
pub const SHIFT_WIDTH: u32 = 2;

pub const RM_SHIFT: u32 = 16;

pub const IMM6_SHIFT: u32 = 10;
pub const IMM6_WIDTH: u32 = 6;

pub const RN_SHIFT: u32 = 5;

pub const RD_SHIFT: u32 = 0;

/// What a logical (shifted register) encoding decodes to, if it is supported:
/// the inverting forms (`N` set) are not.
pub open spec fn spec_decode(instr: u32) -> Option<Instruction> {
    let ops = ShiftedRegister {
        rd: field(instr, RD_SHIFT, REG_WIDTH),
        rn: field(instr, RN_SHIFT, REG_WIDTH),
        rm: field(instr, RM_SHIFT, REG_WIDTH),
        sf: field(instr, SF_SHIFT, SF_WIDTH),
        shift: field(instr, SHIFT_SHIFT, SHIFT_WIDTH),
        imm6: field(instr, IMM6_SHIFT, IMM6_WIDTH),
    };
    let opc = field(instr, OPC_SHIFT, OPC_WIDTH);
    if field(instr, N_SHIFT, N_WIDTH) != 0b0 {
        None
    } else if opc == 0b00 {
        Some(Instruction::And(ops))
    } else if opc == 0b01 {
        Some(Instruction::Orr(ops))
    } else if opc == 0b10 {
        Some(Instruction::Eor(ops))
    } else {
        Some(Instruction::Ands(ops))
    }
}

/// Decodes `instr` if it is a supported encoding of this group; `None` if
/// it is not.
pub fn try_decode(instr: u32) -> (r: Option<Instruction>)
    ensures
        r == spec_decode(instr),
{
    let sf = extract_bits(instr, SF_SHIFT, SF_WIDTH);
    let opc = extract_bits(instr, OPC_SHIFT, OPC_WIDTH);
    let n = extract_bits(instr, N_SHIFT, N_WIDTH);
    let shift = extract_bits(instr, SHIFT_SHIFT, SHIFT_WIDTH);
    let rm = extract_bits(instr, RM_SHIFT, REG_WIDTH);
    let imm6 = extract_bits(instr, IMM6_SHIFT, IMM6_WIDTH);
    let rn = extract_bits(instr, RN_SHIFT, REG_WIDTH);
    let rd = extract_bits(instr, RD_SHIFT, REG_WIDTH);

    if n != 0b0 {
        return None;
    }
    let ops = ShiftedRegister { rd, rn, rm, sf, shift, imm6 };
    match opc {
        0b00 => Some(Instruction::And(ops)),
        0b01 => Some(Instruction::Orr(ops)),
        0b10 => Some(Instruction::Eor(ops)),
        _ => Some(Instruction::Ands(ops)),
    }
}

/// Decodes a logical (shifted register) instruction.
pub fn decode(instr: u32) -> (r: Instruction)
    requires
        spec_decode(instr) is Some,
    ensures
        spec_decode(instr) == Some(r),
{
    match try_decode(instr) {
        Some(r) => r,
        None => vstd::pervasive::unreached(),
    }
}

} // verus!
