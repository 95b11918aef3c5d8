//! Add/subtract (shifted register).

use crate::instr::{Instruction, ShiftedRegister};
use crate::pipeline::decode::{extract_bits, field, REG_WIDTH};
use vstd::prelude::*;

verus! {

pub const SF_SHIFT: u32 = 31;
pub const SF_WIDTH: u32 = 1;

pub const OP_SHIFT: u32 = 30;
pub const OP_WIDTH: u32 = 1;

pub const S_SHIFT: u32 = 29;
pub const S_WIDTH: u32 = 1;

pub const SHIFT_SHIFT: u32 = 22;
pub const SHIFT_WIDTH: u32 = 2;

pub const RM_SHIFT: u32 = 16;

pub const IMM6_SHIFT: u32 = 10;
pub const IMM6_WIDTH: u32 = 6;

pub const RN_SHIFT: u32 = 5;

pub const RD_SHIFT: u32 = 0;

/// The instruction that an add/subtract (shifted register) encoding stands for.
pub open spec fn spec_decode(instr: u32) -> Instruction {
    let ops = ShiftedRegister {
        rd: field(instr, RD_SHIFT, REG_WIDTH),
        rn: field(instr, RN_SHIFT, REG_WIDTH),
        rm: field(instr, RM_SHIFT, REG_WIDTH),
        sf: field(instr, SF_SHIFT, SF_WIDTH),
        shift: field(instr, SHIFT_SHIFT, SHIFT_WIDTH),
        imm6: field(instr, IMM6_SHIFT, IMM6_WIDTH),
    };
    if field(instr, OP_SHIFT, OP_WIDTH) == 0b0 {
        if field(instr, S_SHIFT, S_WIDTH) == 0b0 {
            Instruction::Add(ops)
        } else {
            Instruction::Adds(ops)
        }
    } else {
        if field(instr, S_SHIFT, S_WIDTH) == 0b0 {
            Instruction::Sub(ops)
        } else {
            Instruction::Subs(ops)
        }
    }
}

/// Decodes an add/subtract (shifted register) instruction.
pub fn decode(instr: u32) -> (r: Instruction)
    ensures
        r == spec_decode(instr),
{
    let sf = extract_bits(instr, SF_SHIFT, SF_WIDTH);
    let op = extract_bits(instr, OP_SHIFT, OP_WIDTH);
    let s = extract_bits(instr, S_SHIFT, S_WIDTH);
    let shift = extract_bits(instr, SHIFT_SHIFT, SHIFT_WIDTH);
    let rm = extract_bits(instr, RM_SHIFT, REG_WIDTH);
    let imm6 = extract_bits(instr, IMM6_SHIFT, IMM6_WIDTH);
    let rn = extract_bits(instr, RN_SHIFT, REG_WIDTH);
    let rd = extract_bits(instr, RD_SHIFT, REG_WIDTH);

    let ops = ShiftedRegister { rd, rn, rm, sf, shift, imm6 };
    if op == 0b0 {
        if s == 0b0 {
            Instruction::Add(ops)
        } else {
            Instruction::Adds(ops)
        }
    } else {
        if s == 0b0 {
            Instruction::Sub(ops)
        } else {
            Instruction::Subs(ops)
        }
    }
}

} // verus!
