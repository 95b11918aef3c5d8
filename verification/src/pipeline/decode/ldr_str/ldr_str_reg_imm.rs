//! Load/store register (immediate: post-indexed, pre-indexed or unsigned offset).

use crate::instr::{
    AddressingMode, Instruction, LoadStoreImm, LoadStoreImmOpc, LoadStoreImmSize,
};
use crate::pipeline::decode::{extract_bits, field, REG_WIDTH};
use vstd::prelude::*;

verus! {

pub const SIZE_SHIFT: u32 = 30;
pub const SIZE_WIDTH: u32 = 2;

pub const VR_SHIFT: u32 = 26;
pub const VR_WIDTH: u32 = 1;

pub const OPC_SHIFT: u32 = 22;
pub const OPC_WIDTH: u32 = 2;

pub const IMM9_SHIFT: u32 = 12;
pub const IMM9_WIDTH: u32 = 9;

pub const IMM12_SHIFT: u32 = 10;
pub const IMM12_WIDTH: u32 = 12;

pub const RN_SHIFT: u32 = 5;

pub const RT_SHIFT: u32 = 0;

/// The immediate of a load/store encoding: 9 bits at bit 12 for the indexed
/// forms, 12 bits at bit 10 for the unsigned-offset form.
pub open spec fn spec_imm(instr: u32, addr_mode: AddressingMode) -> u32 {
    match addr_mode {
        AddressingMode::PostIndex | AddressingMode::PreIndex => field(
            instr,
            IMM9_SHIFT,
            IMM9_WIDTH,
        ),
        AddressingMode::UnsignedOffset => field(instr, IMM12_SHIFT, IMM12_WIDTH),
    }
}

/// What a load/store (immediate) encoding decodes to under `addr_mode`, if it
/// is supported: general-purpose registers only (`V` clear), every byte and
/// half-word form, and word/double-word `STR`/`LDR` plus `LDRSW`.
pub open spec fn spec_decode(instr: u32, addr_mode: AddressingMode) -> Option<Instruction> {
    let size = field(instr, SIZE_SHIFT, SIZE_WIDTH);
    let opc = field(instr, OPC_SHIFT, OPC_WIDTH);
    let rt = field(instr, RT_SHIFT, REG_WIDTH);
    let rn = field(instr, RN_SHIFT, REG_WIDTH);
    let imm = spec_imm(instr, addr_mode);
    let plain = LoadStoreImm { rt, rn, imm, addr_mode };
    let signed = LoadStoreImmOpc { rt, rn, imm, opc, addr_mode };
    let sized = LoadStoreImmSize { rt, rn, imm, size, addr_mode };
    if field(instr, VR_SHIFT, VR_WIDTH) != 0b0 {
        None
    } else if size == 0b00 {
        if opc == 0b00 {
            Some(Instruction::Strb(plain))
        } else if opc == 0b01 {
            Some(Instruction::Ldrb(plain))
        } else {
            Some(Instruction::Ldrsb(signed))
        }
    } else if size == 0b01 {
        if opc == 0b00 {
            Some(Instruction::Strh(plain))
        } else if opc == 0b01 {
            Some(Instruction::Ldrh(plain))
        } else {
            Some(Instruction::Ldrsh(signed))
        }
    } else if (size == 0b10 || size == 0b11) && opc == 0b00 {
        Some(Instruction::Str(sized))
    } else if (size == 0b10 || size == 0b11) && opc == 0b01 {
        Some(Instruction::Ldr(sized))
    } else if size == 0b10 && opc == 0b10 {
        Some(Instruction::Ldrsw(plain))
    } else {
        None
    }
}

/// Decodes `instr` if it is a supported encoding of this group; `None` if
/// it is not.
pub fn try_decode(instr: u32, addr_mode: AddressingMode) -> (r: Option<Instruction>)
    ensures
        r == spec_decode(instr, addr_mode),
{
    let size = extract_bits(instr, SIZE_SHIFT, SIZE_WIDTH);
    let vr = extract_bits(instr, VR_SHIFT, VR_WIDTH);
    let opc = extract_bits(instr, OPC_SHIFT, OPC_WIDTH);
    let imm = match addr_mode {
        AddressingMode::PostIndex | AddressingMode::PreIndex => {
            extract_bits(instr, IMM9_SHIFT, IMM9_WIDTH)
        },
        AddressingMode::UnsignedOffset => extract_bits(instr, IMM12_SHIFT, IMM12_WIDTH),
    };
    let rn = extract_bits(instr, RN_SHIFT, REG_WIDTH);
    let rt = extract_bits(instr, RT_SHIFT, REG_WIDTH);

    match (size, vr, opc) {
        (0b00, 0b0, 0b00) => Some(Instruction::Strb(LoadStoreImm { rt, rn, imm, addr_mode })),
        (0b00, 0b0, 0b01) => Some(Instruction::Ldrb(LoadStoreImm { rt, rn, imm, addr_mode })),
        (0b00, 0b0, opc) => Some(Instruction::Ldrsb(LoadStoreImmOpc { rt, rn, imm, opc, addr_mode })),
        (0b01, 0b0, 0b00) => Some(Instruction::Strh(LoadStoreImm { rt, rn, imm, addr_mode })),
        (0b01, 0b0, 0b01) => Some(Instruction::Ldrh(LoadStoreImm { rt, rn, imm, addr_mode })),
        (0b01, 0b0, opc) => Some(Instruction::Ldrsh(LoadStoreImmOpc { rt, rn, imm, opc, addr_mode })),
        (0b10, 0b0, 0b00) | (0b11, 0b0, 0b00) => {
            Some(Instruction::Str(LoadStoreImmSize { rt, rn, imm, size, addr_mode }))
        },
        (0b10, 0b0, 0b01) | (0b11, 0b0, 0b01) => {
            Some(Instruction::Ldr(LoadStoreImmSize { rt, rn, imm, size, addr_mode }))
        },
        (0b10, 0b0, 0b10) => Some(Instruction::Ldrsw(LoadStoreImm { rt, rn, imm, addr_mode })),
        _ => None,
    }
}

/// Decodes a load/store (immediate) instruction whose addressing form is
/// `addr_mode`.
pub fn decode(instr: u32, addr_mode: AddressingMode) -> (r: Instruction)
    requires
        spec_decode(instr, addr_mode) is Some,
    ensures
        spec_decode(instr, addr_mode) == Some(r),
{
    match try_decode(instr, addr_mode) {
        Some(r) => r,
        None => vstd::pervasive::unreached(),
    }
}

} // verus!
