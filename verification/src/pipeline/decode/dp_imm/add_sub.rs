//! Add/subtract (immediate).

use crate::instr::{AddSubImm, Instruction};
use crate::pipeline::decode::{extract_bits, field, REG_WIDTH};
use vstd::prelude::*;

verus! {

pub const SF_SHIFT: u32 = 31;
pub const SF_WIDTH: u32 = 1;

pub const OP_SHIFT: u32 = 30;
pub const OP_WIDTH: u32 = 1;

pub const S_SHIFT: u32 = 29;
pub const S_WIDTH: u32 = 1;

pub const SH_SHIFT: u32 = 22;
pub const SH_WIDTH: u32 = 1;

pub const IMM12_SHIFT: u32 = 10;
pub const IMM12_WIDTH: u32 = 12;

pub const RN_SHIFT: u32 = 5;

pub const RD_SHIFT: u32 = 0;

/// The instruction that an add/subtract (immediate) encoding stands for.
pub open spec fn spec_decode(instr: u32) -> Instruction {
    let ops = AddSubImm {
        rd: field(instr, RD_SHIFT, REG_WIDTH),
        rn: field(instr, RN_SHIFT, REG_WIDTH),
        sf: field(instr, SF_SHIFT, SF_WIDTH),
        sh: field(instr, SH_SHIFT, SH_WIDTH),
        imm12: field(instr, IMM12_SHIFT, IMM12_WIDTH),
    };
    if field(instr, OP_SHIFT, OP_WIDTH) == 0 {
        if field(instr, S_SHIFT, S_WIDTH) == 0 {
            Instruction::AddImm(ops)
        } else {
            Instruction::AddsImm(ops)
        }
    } else {
        if field(instr, S_SHIFT, S_WIDTH) == 0 {
            Instruction::SubImm(ops)
        } else {
            Instruction::SubsImm(ops)
        }
    }
}

/// Decodes an add/subtract (immediate) instruction.
pub fn decode(instr: u32) -> (r: Instruction)
    ensures
        r == spec_decode(instr),
{
    let sf = extract_bits(instr, SF_SHIFT, SF_WIDTH);
    let op = extract_bits(instr, OP_SHIFT, OP_WIDTH);
    let s = extract_bits(instr, S_SHIFT, S_WIDTH);
    let sh = extract_bits(instr, SH_SHIFT, SH_WIDTH);
    let imm12 = extract_bits(instr, IMM12_SHIFT, IMM12_WIDTH);
    let rn = extract_bits(instr, RN_SHIFT, REG_WIDTH);
    let rd = extract_bits(instr, RD_SHIFT, REG_WIDTH);

    let ops = AddSubImm { rd, rn, sf, sh, imm12 };
    if op == 0 {
        if s == 0 {
            Instruction::AddImm(ops)
        } else {
            Instruction::AddsImm(ops)
        }
    } else {
        if s == 0 {
            Instruction::SubImm(ops)
        } else {
            Instruction::SubsImm(ops)
        }
    }
}

} // verus!
