//! Load/store register (register offset).

use crate::instr::{
    Instruction, LoadStoreReg, LoadStoreRegOpc, LoadStoreRegOpcScaled, LoadStoreRegScaled,
    LoadStoreRegSize,
};
use crate::pipeline::decode::{extract_bits, field, REG_WIDTH};
use vstd::prelude::*;

verus! {

pub const SIZE_SHIFT: u32 = 30;
pub const SIZE_WIDTH: u32 = 2;

pub const VR_SHIFT: u32 = 26;
pub const VR_WIDTH: u32 = 1;

pub const OPC_SHIFT: u32 = 22;
pub const OPC_WIDTH: u32 = 2;

pub const RM_SHIFT: u32 = 16;

pub const OPTION_SHIFT: u32 = 13;
pub const OPTION_WIDTH: u32 = 3;

pub const S_SHIFT: u32 = 12;
pub const S_WIDTH: u32 = 1;

pub const RN_SHIFT: u32 = 5;

pub const RT_SHIFT: u32 = 0;

/// What a load/store (register offset) encoding decodes to, if it is
/// supported: the same instructions as the immediate forms, with an index
/// register `Rm` extended by `option` and scaled when `S` is set.
pub open spec fn spec_decode(instr: u32) -> Option<Instruction> {
    let size = field(instr, SIZE_SHIFT, SIZE_WIDTH);
    let opc = field(instr, OPC_SHIFT, OPC_WIDTH);
    let rt = field(instr, RT_SHIFT, REG_WIDTH);
    let rn = field(instr, RN_SHIFT, REG_WIDTH);
    let rm = field(instr, RM_SHIFT, REG_WIDTH);
    let option = field(instr, OPTION_SHIFT, OPTION_WIDTH);
    let s = field(instr, S_SHIFT, S_WIDTH);
    if field(instr, VR_SHIFT, VR_WIDTH) != 0b0 {
        None
    } else if size == 0b00 {
        if opc == 0b00 {
            Some(Instruction::StrbReg(LoadStoreReg { rt, rn, rm, option }))
        } else if opc == 0b01 {
            Some(Instruction::LdrbReg(LoadStoreReg { rt, rn, rm, option }))
        } else {
            Some(Instruction::LdrsbReg(LoadStoreRegOpc { rt, rn, rm, opc, option }))
        }
    } else if size == 0b01 {
        if opc == 0b00 {
            Some(Instruction::StrhReg(LoadStoreRegScaled { rt, rn, rm, option, s }))
        } else if opc == 0b01 {
            Some(Instruction::LdrhReg(LoadStoreRegScaled { rt, rn, rm, option, s }))
        } else {
            Some(Instruction::LdrshReg(LoadStoreRegOpcScaled { rt, rn, rm, opc, option, s }))
        }
    } else if (size == 0b10 || size == 0b11) && opc == 0b00 {
        Some(Instruction::StrReg(LoadStoreRegSize { rt, rn, rm, option, s, size }))
    } else if (size == 0b10 || size == 0b11) && opc == 0b01 {
        Some(Instruction::LdrReg(LoadStoreRegSize { rt, rn, rm, option, s, size }))
    } else if size == 0b10 && opc == 0b10 {
        Some(Instruction::LdrswReg(LoadStoreRegScaled { rt, rn, rm, option, s }))
    } else {
        None
    }
}

/// Decodes `instr` if it is a supported encoding of this group; `None` if
/// it is not.
pub fn try_decode(instr: u32) -> (r: Option<Instruction>)
    ensures
        r == spec_decode(instr),
{
    let size = extract_bits(instr, SIZE_SHIFT, SIZE_WIDTH);
    let vr = extract_bits(instr, VR_SHIFT, VR_WIDTH);
    let opc = extract_bits(instr, OPC_SHIFT, OPC_WIDTH);
    let rm = extract_bits(instr, RM_SHIFT, REG_WIDTH);
    let option = extract_bits(instr, OPTION_SHIFT, OPTION_WIDTH);
    let s = extract_bits(instr, S_SHIFT, S_WIDTH);
    let rn = extract_bits(instr, RN_SHIFT, REG_WIDTH);
    let rt = extract_bits(instr, RT_SHIFT, REG_WIDTH);

    match (size, vr, opc) {
        (0b00, 0b0, 0b00) => Some(Instruction::StrbReg(LoadStoreReg { rt, rn, rm, option })),
        (0b00, 0b0, 0b01) => Some(Instruction::LdrbReg(LoadStoreReg { rt, rn, rm, option })),
        (0b00, 0b0, opc) => Some(Instruction::LdrsbReg(LoadStoreRegOpc { rt, rn, rm, opc, option })),
        (0b01, 0b0, 0b00) => Some(Instruction::StrhReg(LoadStoreRegScaled { rt, rn, rm, option, s })),
        (0b01, 0b0, 0b01) => Some(Instruction::LdrhReg(LoadStoreRegScaled { rt, rn, rm, option, s })),
        (0b01, 0b0, opc) => {
            Some(Instruction::LdrshReg(LoadStoreRegOpcScaled { rt, rn, rm, opc, option, s }))
        },
        (0b10, 0b0, 0b00) | (0b11, 0b0, 0b00) => {
            Some(Instruction::StrReg(LoadStoreRegSize { rt, rn, rm, option, s, size }))
        },
        (0b10, 0b0, 0b01) | (0b11, 0b0, 0b01) => {
            Some(Instruction::LdrReg(LoadStoreRegSize { rt, rn, rm, option, s, size }))
        },
        (0b10, 0b0, 0b10) => Some(Instruction::LdrswReg(LoadStoreRegScaled { rt, rn, rm, option, s })),
        _ => None,
    }
}

/// Decodes a load/store (register offset) instruction.
pub fn decode(instr: u32) -> (r: Instruction)
    requires
        spec_decode(instr) is Some,
    ensures
        spec_decode(instr) == Some(r),
{
    match try_decode(instr) {
        Some(r) => r,
        None => vstd::pervasive::unreached(),
    }
}

} // verus!
