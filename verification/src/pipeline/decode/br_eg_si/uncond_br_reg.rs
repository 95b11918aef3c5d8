//! Unconditional branch (register).

use crate::instr::{BranchReg, Instruction};
use crate::pipeline::decode::{extract_bits, field, REG_WIDTH};
use vstd::prelude::*;

verus! {

pub const OPC_SHIFT: u32 = 21;
pub const OPC_WIDTH: u32 = 4;

pub const OP2_SHIFT: u32 = 16;
pub const OP2_WIDTH: u32 = 5;

pub const OP3_SHIFT: u32 = 10;
pub const OP3_WIDTH: u32 = 6;

pub const RN_SHIFT: u32 = 5;

pub const OP4_SHIFT: u32 = 0;
pub const OP4_WIDTH: u32 = 5;

/// What an unconditional-branch (register) encoding decodes to, if it is
/// supported: `BR` (`opc == 0000`) and `RET` (`opc == 0010`), each with
/// `op2 == 11111`, `op3 == 000000` and `op4 == 00000`.
pub open spec fn spec_decode(instr: u32) -> Option<Instruction> {
    let opc = field(instr, OPC_SHIFT, OPC_WIDTH);
    let target = BranchReg { rn: field(instr, RN_SHIFT, REG_WIDTH) };
    if field(instr, OP2_SHIFT, OP2_WIDTH) != 0b11111 || field(instr, OP3_SHIFT, OP3_WIDTH)
        != 0b000000 || field(instr, OP4_SHIFT, OP4_WIDTH) != 0b00000 {
        None
    } else if opc == 0b0000 {
        Some(Instruction::Br(target))
    } else if opc == 0b0010 {
        Some(Instruction::Ret(target))
    } else {
        None
    }
}

/// Decodes `instr` if it is a supported encoding of this group; `None` if
/// it is not.
pub fn try_decode(instr: u32) -> (r: Option<Instruction>)
    ensures
        r == spec_decode(instr),
{
    let opc = extract_bits(instr, OPC_SHIFT, OPC_WIDTH);
    let op2 = extract_bits(instr, OP2_SHIFT, OP2_WIDTH);
    let op3 = extract_bits(instr, OP3_SHIFT, OP3_WIDTH);
    let rn = extract_bits(instr, RN_SHIFT, REG_WIDTH);
    let op4 = extract_bits(instr, OP4_SHIFT, OP4_WIDTH);

    match (opc, op2, op3, op4) {
        (0b0000, 0b11111, 0b000000, 0b00000) => Some(Instruction::Br(BranchReg { rn })),
        (0b0010, 0b11111, 0b000000, 0b00000) => Some(Instruction::Ret(BranchReg { rn })),
        _ => None,
    }
}

/// Decodes an unconditional-branch (register) instruction.
pub fn decode(instr: u32) -> (r: Instruction)
    requires
        spec_decode(instr) is Some,
    ensures
        spec_decode(instr) == Some(r),
{
    match try_decode(instr) {
        Some(r) => r,
        None => vstd::pervasive::unreached(),
    }
}

} // verus!
