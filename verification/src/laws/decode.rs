//! What the decoders make of each encoding, stated field by field with the
//! fixed bit positions and values of the instruction set.

use crate::instr::raw::{spec_type_from_opcode, RawInstrType};
use crate::instr::{
    AddSubImm, AddressingMode, BranchImm, BranchReg, CondBranchImm, Instruction, LoadStoreImm,
    LoadStoreImmOpc, LoadStoreImmSize, LoadStoreReg, LoadStoreRegOpc, LoadStoreRegOpcScaled,
    LoadStoreRegScaled, LoadStoreRegSize, LogicalImm, MinMaxImm, MoveWideImm, OneSource, ShiftedRegister, ThreeSource,
    TwoSource,
};
use crate::pipeline::decode;
use crate::pipeline::decode::br_eg_si::{cond_br_imm, hints, uncond_br_imm, uncond_br_reg};
use crate::pipeline::decode::dp_imm::{add_sub, logical, min_max, move_wide};
use crate::pipeline::decode::{br_eg_si, dp_imm, dp_reg, ldr_str};
use crate::pipeline::decode::dp_reg::{add_sub_shift, dp_1src, dp_2src, dp_3src, logic_shift};
use crate::pipeline::decode::ldr_str::{ldr_str_reg_imm, ldr_str_reg_reg_off};
use vstd::arithmetic::power2::lemma2_to64;
use vstd::prelude::*;

verus! {

/// The top-level decoder picks the encoding group by bits 25..28: 0b1000 and
/// 0b1001 data processing (immediate), 0b1010 and 0b1011 branches and system
/// instructions, 0b0101 and 0b1101 data processing (register), 0b0100,
/// 0b0110, 0b1100 and 0b1110 loads and stores; any other value is no
/// instruction.
pub proof fn law_encoding_groups(instr: u32)
    ensures
        ({
            let op1 = (instr / 0x200_0000) % 16;
            let d = decode::spec_decode(instr);
            &&& (op1 == 8 || op1 == 9) ==> d == dp_imm::spec_decode(instr)
            &&& (op1 == 10 || op1 == 11) ==> d == br_eg_si::spec_decode(instr)
            &&& (op1 == 5 || op1 == 13) ==> d == dp_reg::spec_decode(instr)
            &&& (op1 == 4 || op1 == 6 || op1 == 12 || op1 == 14) ==> d == ldr_str::spec_decode(
                instr,
            )
            &&& (op1 < 4 || op1 == 7 || op1 == 15) ==> d is None
        }),
{
    lemma2_to64();
}

/// Data processing (immediate) is split by bits 22..25: 0b0100 and 0b0101
/// add/subtract, 0b0111 min/max, 0b1000 and 0b1001 logical, 0b1010 and
/// 0b1011 move wide; any other value is no instruction.
pub proof fn law_data_processing_immediate_groups(instr: u32)
    ensures
        ({
            let op1 = (instr / 0x40_0000) % 16;
            let d = dp_imm::spec_decode(instr);
            &&& (op1 == 4 || op1 == 5) ==> d == Some(add_sub::spec_decode(instr))
            &&& op1 == 7 ==> d == min_max::spec_decode(instr)
            &&& (op1 == 8 || op1 == 9) ==> d == logical::spec_decode(instr)
            &&& (op1 == 10 || op1 == 11) ==> d == move_wide::spec_decode(instr)
            &&& (op1 < 4 || op1 == 6 || op1 >= 12) ==> d is None
        }),
{
    lemma2_to64();
}

/// Data processing (register) is split by `op0` (bit 30), `op1` (bit 28) and
/// `op2` (bits 21..24): two-source when `op0` is clear, `op1` set and `op2`
/// 0b0110; one-source when `op0` and `op1` are set and `op2` is 0b0110;
/// otherwise logical (shifted register) when `op1` is clear and `op2` below
/// 0b1000; add/subtract (shifted register) when `op1` is set and `op2` is
/// 0b1000, 0b1010, 0b1100 or 0b1110; three-source when `op1` is set and `op2`
/// is any other value from 0b1000 up; no instruction else.
pub proof fn law_data_processing_register_groups(instr: u32)
    ensures
        ({
            let op0 = (instr / 0x4000_0000) % 2;
            let op1 = (instr / 0x1000_0000) % 2;
            let op2 = (instr / 0x20_0000) % 16;
            let d = dp_reg::spec_decode(instr);
            if op1 == 1 && op2 == 6 {
                &&& op0 == 0 ==> d == dp_2src::spec_decode(instr)
                &&& op0 == 1 ==> d == dp_1src::spec_decode(instr)
            } else if op1 == 0 {
                &&& op2 < 8 ==> d == logic_shift::spec_decode(instr)
                &&& op2 >= 8 ==> d is None
            } else {
                &&& (op2 == 8 || op2 == 10 || op2 == 12 || op2 == 14) ==> d == Some(
                    add_sub_shift::spec_decode(instr),
                )
                &&& (op2 == 9 || op2 == 11 || op2 == 13 || op2 == 15) ==> d
                    == dp_3src::spec_decode(instr)
                &&& op2 < 8 ==> d is None
            }
        }),
{
    lemma2_to64();
    let op2: u32 = ((instr / 0x20_0000) % 16) as u32;
    assert(((op2 >> 3u32) == 0 <==> op2 < 8) && ((op2 >> 3u32) == 1 <==> op2 >= 8) && ((op2
        & 0b1001) == 0b1000 <==> (op2 == 8 || op2 == 10 || op2 == 12 || op2 == 14))) by (bit_vector)
        requires
            op2 < 16,
    ;
}

/// Branches and system instructions are split by `op0` (bits 29..31), `op1`
/// (bits 12..25) and `op2` (bits 0..4): conditional branch when `op0` is
/// 0b010 and bits 24..25 are clear; hints when `op0` is 0b110, `op1` is
/// 0b01_0000_0011_0010 and `op2` all ones; branch to register when `op0` is
/// 0b110 and bit 25 is set; branch (immediate) when `op0` is 0b000 or 0b100;
/// no instruction else.
pub proof fn law_branch_groups(instr: u32)
    ensures
        ({
            let op0 = instr / 0x2000_0000;
            let op1 = (instr / 4096) % 0x4000;
            let d = br_eg_si::spec_decode(instr);
            &&& op0 == 2 && op1 < 0x1000 ==> d == cond_br_imm::spec_decode(instr)
            &&& op0 == 2 && op1 >= 0x1000 ==> d is None
            &&& op0 == 6 && op1 == 0b01_0000_0011_0010 && instr % 32 == 31 ==> d
                == hints::spec_decode(instr)
            &&& op0 == 6 && op1 >= 0x2000 ==> d == uncond_br_reg::spec_decode(instr)
            &&& op0 == 6 && op1 < 0x2000 && !(op1 == 0b01_0000_0011_0010 && instr % 32 == 31)
                ==> d is None
            &&& (op0 == 0 || op0 == 4) ==> d == uncond_br_imm::spec_decode(instr)
            &&& (op0 == 1 || op0 == 3 || op0 == 5 || op0 == 7) ==> d is None
        }),
{
    lemma2_to64();
    let op1: u32 = ((instr / 4096) % 0x4000) as u32;
    assert(((op1 >> 12u32) == 0 <==> op1 < 0x1000) && ((op1 >> 13u32) == 1 <==> op1 >= 0x2000))
        by (bit_vector)
        requires
            op1 < 0x4000,
    ;
}

/// Loads and stores need bits 28 and 29 set. Of the form bits above bit 24
/// (bit 25 and the `V` bit 26) the group decoder picks the post-indexed
/// immediate form when bit 25 is set and bit 26 clear, the pre-indexed one
/// when both are set, and nothing when bit 25 is clear.
pub proof fn law_load_store_groups(instr: u32)
    ensures
        ({
            let d = ldr_str::spec_decode(instr);
            let b25 = (instr / 0x200_0000) % 2;
            let b26 = (instr / 0x400_0000) % 2;
            if (instr / 0x1000_0000) % 4 != 3 {
                d is None
            } else {
                &&& b25 == 1 && b26 == 0 ==> d == ldr_str_reg_imm::spec_decode(
                    instr,
                    AddressingMode::PostIndex,
                )
                &&& b25 == 1 && b26 == 1 ==> d == ldr_str_reg_imm::spec_decode(
                    instr,
                    AddressingMode::PreIndex,
                )
                &&& b25 == 0 ==> d is None
            }
        }),
{
    lemma2_to64();
    let op0: u32 = (instr / 0x1000_0000) as u32;
    let op2: u32 = (instr / 0x200_0000) as u32;
    assert(op0 & 0b11 == op0 % 4) by (bit_vector);
    assert(op2 & 0b100_1000_0000_0011 == 2 * ((op2 / 2) % 2) + op2 % 2 && (op2
        & 0b100_1000_0000_0011) & 0b100_0000_0000_0000 == 0) by (bit_vector)
        requires
            op2 < 128,
    ;
}

/// A min/max (immediate) word with `op` (bit 30) and `S` (bit 29) clear is
/// picked by `opc` (bits 18..21): 0 `SMAX`, 1 `UMAX`, 2 `SMIN`, 3 `UMIN`; no
/// other `opc` is an instruction. The operands are `Rd` (bits 0..4), `Rn`
/// (bits 5..9), `sf` (bit 31) and `imm8` (bits 10..17).
pub proof fn law_min_max_opcodes(instr: u32)
    requires
        (instr / 0x4000_0000) % 2 == 0,
        (instr / 0x2000_0000) % 2 == 0,
    ensures
        ({
            let ops = MinMaxImm {
                rd: instr % 32,
                rn: (instr / 32) % 32,
                sf: instr / 0x8000_0000,
                imm8: (instr / 1024) % 256,
            };
            let opc = (instr / 0x4_0000) % 16;
            &&& opc == 0 ==> min_max::spec_decode(instr) == Some(Instruction::SmaxImm(ops))
            &&& opc == 1 ==> min_max::spec_decode(instr) == Some(Instruction::UmaxImm(ops))
            &&& opc == 2 ==> min_max::spec_decode(instr) == Some(Instruction::SminImm(ops))
            &&& opc == 3 ==> min_max::spec_decode(instr) == Some(Instruction::UminImm(ops))
            &&& opc >= 4 ==> min_max::spec_decode(instr) is None
        }),
{
    lemma2_to64();
}

/// A min/max (immediate) word with `op` or `S` set is no instruction.
pub proof fn law_min_max_needs_op_and_s_clear(instr: u32)
    requires
        (instr / 0x4000_0000) % 2 == 1 || (instr / 0x2000_0000) % 2 == 1,
    ensures
        min_max::spec_decode(instr) is None,
{
    lemma2_to64();
}

/// A two-source word with `S` (bit 29) clear is picked by its opcode (bits
/// 10..15): `UDIV` 0b000010, `SDIV` 0b000011, `LSLV` 0b001000, `LSRV`
/// 0b001001, `ASRV` 0b001010, `RORV` 0b001011, `SMAX` 0b011000, `UMAX`
/// 0b011001, `SMIN` 0b011010, `UMIN` 0b011011; no other opcode is an
/// instruction, and neither is any word with `S` set. The operands are `Rd`
/// (bits 0..4), `Rn` (bits 5..9), `Rm` (bits 16..20) and `sf` (bit 31).
pub proof fn law_two_source_opcodes(instr: u32)
    ensures
        ({
            let ops = TwoSource {
                rd: instr % 32,
                rn: (instr / 32) % 32,
                rm: (instr / 0x1_0000) % 32,
                sf: instr / 0x8000_0000,
            };
            let opcode = (instr / 1024) % 64;
            let d = dp_2src::spec_decode(instr);
            if (instr / 0x2000_0000) % 2 == 1 {
                d is None
            } else {
                &&& opcode == 0b000010 ==> d == Some(Instruction::Udiv(ops))
                &&& opcode == 0b000011 ==> d == Some(Instruction::Sdiv(ops))
                &&& opcode == 0b001000 ==> d == Some(Instruction::Lslv(ops))
                &&& opcode == 0b001001 ==> d == Some(Instruction::Lsrv(ops))
                &&& opcode == 0b001010 ==> d == Some(Instruction::Asrv(ops))
                &&& opcode == 0b001011 ==> d == Some(Instruction::Rorv(ops))
                &&& opcode == 0b011000 ==> d == Some(Instruction::Smax(ops))
                &&& opcode == 0b011001 ==> d == Some(Instruction::Umax(ops))
                &&& opcode == 0b011010 ==> d == Some(Instruction::Smin(ops))
                &&& opcode == 0b011011 ==> d == Some(Instruction::Umin(ops))
                &&& !(opcode == 0b000010 || opcode == 0b000011 || opcode == 0b001000 || opcode
                    == 0b001001 || opcode == 0b001010 || opcode == 0b001011 || opcode == 0b011000
                    || opcode == 0b011001 || opcode == 0b011010 || opcode == 0b011011) ==> d is None
            }
        }),
{
    lemma2_to64();
}

/// An add/subtract (immediate) word is picked by `op` (bit 30) and `S` (bit
/// 29): `ADD`, `ADDS`, `SUB`, `SUBS`. The operands are `Rd` (bits 0..4), `Rn`
/// (bits 5..9), `sf` (bit 31), `sh` (bit 22) and `imm12` (bits 10..21).
pub proof fn law_add_sub_immediate(instr: u32)
    ensures
        ({
            let ops = AddSubImm {
                rd: instr % 32,
                rn: (instr / 32) % 32,
                sf: instr / 0x8000_0000,
                sh: (instr / 0x40_0000) % 2,
                imm12: (instr / 1024) % 4096,
            };
            let op = (instr / 0x4000_0000) % 2;
            let s = (instr / 0x2000_0000) % 2;
            let d = add_sub::spec_decode(instr);
            &&& op == 0 && s == 0 ==> d == Instruction::AddImm(ops)
            &&& op == 0 && s == 1 ==> d == Instruction::AddsImm(ops)
            &&& op == 1 && s == 0 ==> d == Instruction::SubImm(ops)
            &&& op == 1 && s == 1 ==> d == Instruction::SubsImm(ops)
        }),
{
    lemma2_to64();
}

/// A logical (immediate) word is picked by `opc` (bits 29..30): `AND`, `ORR`,
/// `EOR`, `ANDS`; a 32-bit one (`sf`, bit 31, clear) with `N` (bit 22) set is
/// no instruction. The operands are `Rd` (bits 0..4), `Rn` (bits 5..9), `sf`,
/// `N`, `immr` (bits 16..21) and `imms` (bits 10..15).
pub proof fn law_logical_immediate(instr: u32)
    ensures
        ({
            let sf = instr / 0x8000_0000;
            let n = (instr / 0x40_0000) % 2;
            let ops = LogicalImm {
                rd: instr % 32,
                rn: (instr / 32) % 32,
                sf,
                n,
                immr: (instr / 0x1_0000) % 64,
                imms: (instr / 1024) % 64,
            };
            let opc = (instr / 0x2000_0000) % 4;
            let d = logical::spec_decode(instr);
            if sf == 0 && n == 1 {
                d is None
            } else {
                &&& opc == 0 ==> d == Some(Instruction::AndImm(ops))
                &&& opc == 1 ==> d == Some(Instruction::OrrImm(ops))
                &&& opc == 2 ==> d == Some(Instruction::EorImm(ops))
                &&& opc == 3 ==> d == Some(Instruction::AndsImm(ops))
            }
        }),
{
    lemma2_to64();
}

/// A move-wide (immediate) word is `MOVZ` when `opc` (bits 29..30) is 0b10,
/// unless it is a 32-bit one (`sf`, bit 31, clear) that shifts by 32 or 48
/// (bit 22 of `hw` set); nothing else is an instruction. The operands are
/// `Rd` (bits 0..4), `sf`, `imm16` (bits 5..20) and `hw` (bits 21..22).
pub proof fn law_move_wide_immediate(instr: u32)
    ensures
        ({
            let sf = instr / 0x8000_0000;
            let hw = (instr / 0x20_0000) % 4;
            let ops = MoveWideImm { rd: instr % 32, sf, imm16: (instr / 32) % 0x1_0000, hw };
            let opc = (instr / 0x2000_0000) % 4;
            let d = move_wide::spec_decode(instr);
            &&& opc == 2 && !(sf == 0 && hw >= 2) ==> d == Some(Instruction::Movz(ops))
            &&& opc != 2 ==> d is None
            &&& sf == 0 && hw >= 2 ==> d is None
        }),
{
    lemma2_to64();
    let hw = (instr / 0x20_0000) % 4;
    let h: u32 = hw as u32;
    assert((h & 0b10) != 0 <==> h >= 2) by (bit_vector)
        requires
            h < 4,
    ;
}

/// A one-source word is `ABS` exactly when `S` (bit 29) is clear, its opcode
/// (bits 10..15) is 0b001000 and opcode2 (bits 16..20) is zero; its operands
/// are `Rd` (bits 0..4), `Rn` (bits 5..9) and `sf` (bit 31).
pub proof fn law_one_source(instr: u32)
    ensures
        ({
            let ops = OneSource { rd: instr % 32, rn: (instr / 32) % 32, sf: instr / 0x8000_0000 };
            let d = dp_1src::spec_decode(instr);
            if (instr / 0x2000_0000) % 2 == 0 && (instr / 1024) % 64 == 0b001000 && (instr
                / 0x1_0000) % 32 == 0 {
                d == Some(Instruction::Abs(ops))
            } else {
                d is None
            }
        }),
{
    lemma2_to64();
}

/// A three-source word with `op54` (bits 29..30) and `op31` (bits 21..23)
/// zero is `MADD` when `o0` (bit 15) is clear and `MSUB` when it is set; any
/// other word is no instruction. The operands are `Rd` (bits 0..4), `Rn`
/// (bits 5..9), `Rm` (bits 16..20), `Ra` (bits 10..14) and `sf` (bit 31).
pub proof fn law_three_source(instr: u32)
    ensures
        ({
            let ops = ThreeSource {
                rd: instr % 32,
                rn: (instr / 32) % 32,
                rm: (instr / 0x1_0000) % 32,
                ra: (instr / 1024) % 32,
                sf: instr / 0x8000_0000,
            };
            let d = dp_3src::spec_decode(instr);
            if (instr / 0x2000_0000) % 4 != 0 || (instr / 0x20_0000) % 8 != 0 {
                d is None
            } else if (instr / 0x8000) % 2 == 0 {
                d == Some(Instruction::Madd(ops))
            } else {
                d == Some(Instruction::Msub(ops))
            }
        }),
{
    lemma2_to64();
}

/// The shifted-register operands of a word: `Rd` (bits 0..4), `Rn` (bits
/// 5..9), `Rm` (bits 16..20), `sf` (bit 31), the shift type (bits 22..23) and
/// `imm6` (bits 10..15).
pub open spec fn shifted_register_operands(instr: u32) -> ShiftedRegister {
    ShiftedRegister {
        rd: instr % 32,
        rn: (instr / 32) % 32,
        rm: (instr / 0x1_0000) % 32,
        sf: instr / 0x8000_0000,
        shift: (instr / 0x40_0000) % 4,
        imm6: (instr / 1024) % 64,
    }
}

/// A logical (shifted register) word with `N` (bit 21) clear is picked by
/// `opc` (bits 29..30): `AND`, `ORR`, `EOR`, `ANDS`; with `N` set it is no
/// instruction.
pub proof fn law_logical_shifted_register(instr: u32)
    ensures
        ({
            let ops = shifted_register_operands(instr);
            let opc = (instr / 0x2000_0000) % 4;
            let d = logic_shift::spec_decode(instr);
            if (instr / 0x20_0000) % 2 == 1 {
                d is None
            } else {
                &&& opc == 0 ==> d == Some(Instruction::And(ops))
                &&& opc == 1 ==> d == Some(Instruction::Orr(ops))
                &&& opc == 2 ==> d == Some(Instruction::Eor(ops))
                &&& opc == 3 ==> d == Some(Instruction::Ands(ops))
            }
        }),
{
    lemma2_to64();
}

/// An add/subtract (shifted register) word is picked by `op` (bit 30) and
/// `S` (bit 29): `ADD`, `ADDS`, `SUB`, `SUBS`.
pub proof fn law_add_sub_shifted_register(instr: u32)
    ensures
        ({
            let ops = shifted_register_operands(instr);
            let op = (instr / 0x4000_0000) % 2;
            let s = (instr / 0x2000_0000) % 2;
            let d = add_sub_shift::spec_decode(instr);
            &&& op == 0 && s == 0 ==> d == Instruction::Add(ops)
            &&& op == 0 && s == 1 ==> d == Instruction::Adds(ops)
            &&& op == 1 && s == 0 ==> d == Instruction::Sub(ops)
            &&& op == 1 && s == 1 ==> d == Instruction::Subs(ops)
        }),
{
    lemma2_to64();
}

/// A conditional-branch word with `o0` (bit 4) clear is `B.cond` with all
/// four condition bits (bits 0..3) and the 19-bit offset (bits 5..23); with
/// `o0` set it is no instruction.
pub proof fn law_conditional_branch_fields(instr: u32)
    ensures
        (instr / 16) % 2 == 0 ==> cond_br_imm::spec_decode(instr) == Some(
            Instruction::Bcond(CondBranchImm { cond: instr % 16, imm19: (instr / 32) % 0x8_0000 }),
        ),
        (instr / 16) % 2 == 1 ==> cond_br_imm::spec_decode(instr) is None,
{
    lemma2_to64();
}

/// The immediate of a load/store word: 9 bits from bit 12 for the indexed
/// forms, 12 bits from bit 10 for the unsigned offset.
pub open spec fn load_store_immediate(instr: u32, addr_mode: AddressingMode) -> u32 {
    match addr_mode {
        AddressingMode::UnsignedOffset => (instr / 1024) % 4096,
        _ => (instr / 4096) % 512,
    }
}

/// A load/store (immediate) word of the general registers (`V`, bit 26,
/// clear) is picked by its access size (bits 30..31) and `opc` (bits
/// 22..23):
/// size 0 (byte): opc 0 `STRB`, 1 `LDRB`, 2 or 3 `LDRSB`;
/// size 1 (half-word): opc 0 `STRH`, 1 `LDRH`, 2 or 3 `LDRSH`;
/// size 2 or 3 (word, double word): opc 0 `STR`, 1 `LDR`; size 2 with opc 2
/// `LDRSW`; nothing else, and no word with `V` set.
/// The operands are `Rt` (bits 0..4), `Rn` (bits 5..9) and the immediate.
pub proof fn law_load_store_immediate_table(instr: u32, addr_mode: AddressingMode)
    ensures
        ({
            let size = instr / 0x4000_0000;
            let opc = (instr / 0x40_0000) % 4;
            let rt = instr % 32;
            let rn = (instr / 32) % 32;
            let imm = load_store_immediate(instr, addr_mode);
            let plain = LoadStoreImm { rt, rn, imm, addr_mode };
            let signed = LoadStoreImmOpc { rt, rn, imm, opc, addr_mode };
            let sized = LoadStoreImmSize { rt, rn, imm, size, addr_mode };
            let d = ldr_str_reg_imm::spec_decode(instr, addr_mode);
            if (instr / 0x400_0000) % 2 == 1 {
                d is None
            } else {
                &&& size == 0 && opc == 0 ==> d == Some(Instruction::Strb(plain))
                &&& size == 0 && opc == 1 ==> d == Some(Instruction::Ldrb(plain))
                &&& size == 0 && opc >= 2 ==> d == Some(Instruction::Ldrsb(signed))
                &&& size == 1 && opc == 0 ==> d == Some(Instruction::Strh(plain))
                &&& size == 1 && opc == 1 ==> d == Some(Instruction::Ldrh(plain))
                &&& size == 1 && opc >= 2 ==> d == Some(Instruction::Ldrsh(signed))
                &&& size >= 2 && opc == 0 ==> d == Some(Instruction::Str(sized))
                &&& size >= 2 && opc == 1 ==> d == Some(Instruction::Ldr(sized))
                &&& size == 2 && opc == 2 ==> d == Some(Instruction::Ldrsw(plain))
                &&& size == 2 && opc == 3 ==> d is None
                &&& size == 3 && opc >= 2 ==> d is None
            }
        }),
{
    lemma2_to64();
}

/// A hint word is `NOP` exactly when `CRm` (bits 8..11) and `op2` (bits
/// 5..7) are zero.
pub proof fn law_hints(instr: u32)
    ensures
        (instr / 256) % 16 == 0 && (instr / 32) % 8 == 0 ==> hints::spec_decode(instr) == Some(
            Instruction::Nop,
        ),
        !((instr / 256) % 16 == 0 && (instr / 32) % 8 == 0) ==> hints::spec_decode(instr) is None,
{
    lemma2_to64();
}

/// An unconditional-branch (register) word with `op2` (bits 16..20) all ones
/// and `op3` (bits 10..15) and `op4` (bits 0..4) zero is `BR` when `opc`
/// (bits 21..24) is 0 and `RET` when it is 2, through `Rn` (bits 5..9);
/// any other word is no instruction.
pub proof fn law_branch_register(instr: u32)
    ensures
        ({
            let target = BranchReg { rn: (instr / 32) % 32 };
            let opc = (instr / 0x20_0000) % 16;
            let d = uncond_br_reg::spec_decode(instr);
            if (instr / 0x1_0000) % 32 == 31 && (instr / 1024) % 64 == 0 && instr % 32 == 0 {
                &&& opc == 0 ==> d == Some(Instruction::Br(target))
                &&& opc == 2 ==> d == Some(Instruction::Ret(target))
                &&& opc != 0 && opc != 2 ==> d is None
            } else {
                d is None
            }
        }),
{
    lemma2_to64();
}

/// An unconditional-branch (immediate) word with `op` (bit 31) clear is `B`
/// with the 26-bit offset of bits 0..25; with `op` set it is no instruction.
pub proof fn law_branch_immediate(instr: u32)
    ensures
        instr < 0x8000_0000 ==> uncond_br_imm::spec_decode(instr) == Some(
            Instruction::B(BranchImm { imm26: instr % 0x400_0000 }),
        ),
        instr >= 0x8000_0000 ==> uncond_br_imm::spec_decode(instr) is None,
{
    lemma2_to64();
}

/// A load/store (register offset) word of the general registers (`V`, bit
/// 26, clear) is picked by its access size (bits 30..31) and `opc` (bits
/// 22..23), as the immediate forms are:
/// size 0: opc 0 `STRB`, 1 `LDRB`, 2 or 3 `LDRSB`;
/// size 1: opc 0 `STRH`, 1 `LDRH`, 2 or 3 `LDRSH`;
/// size 2 or 3: opc 0 `STR`, 1 `LDR`; size 2 with opc 2 `LDRSW`; nothing
/// else, and no word with `V` set.
/// The operands are `Rt` (bits 0..4), `Rn` (bits 5..9), `Rm` (bits 16..20),
/// `option` (bits 13..15) and `S` (bit 12).
pub proof fn law_load_store_register_table(instr: u32)
    ensures
        ({
            let size = instr / 0x4000_0000;
            let opc = (instr / 0x40_0000) % 4;
            let rt = instr % 32;
            let rn = (instr / 32) % 32;
            let rm = (instr / 0x1_0000) % 32;
            let option = (instr / 0x2000) % 8;
            let s = (instr / 0x1000) % 2;
            let plain = LoadStoreReg { rt, rn, rm, option };
            let scaled = LoadStoreRegScaled { rt, rn, rm, option, s };
            let d = ldr_str_reg_reg_off::spec_decode(instr);
            if (instr / 0x400_0000) % 2 == 1 {
                d is None
            } else {
                &&& size == 0 && opc == 0 ==> d == Some(Instruction::StrbReg(plain))
                &&& size == 0 && opc == 1 ==> d == Some(Instruction::LdrbReg(plain))
                &&& size == 0 && opc >= 2 ==> d == Some(
                    Instruction::LdrsbReg(LoadStoreRegOpc { rt, rn, rm, opc, option }),
                )
                &&& size == 1 && opc == 0 ==> d == Some(Instruction::StrhReg(scaled))
                &&& size == 1 && opc == 1 ==> d == Some(Instruction::LdrhReg(scaled))
                &&& size == 1 && opc >= 2 ==> d == Some(
                    Instruction::LdrshReg(LoadStoreRegOpcScaled { rt, rn, rm, opc, option, s }),
                )
                &&& size >= 2 && opc == 0 ==> d == Some(
                    Instruction::StrReg(LoadStoreRegSize { rt, rn, rm, option, s, size }),
                )
                &&& size >= 2 && opc == 1 ==> d == Some(
                    Instruction::LdrReg(LoadStoreRegSize { rt, rn, rm, option, s, size }),
                )
                &&& size == 2 && opc == 2 ==> d == Some(Instruction::LdrswReg(scaled))
                &&& size == 2 && opc == 3 ==> d is None
                &&& size == 3 && opc >= 2 ==> d is None
            }
        }),
{
    lemma2_to64();
}

/// An RV32I word is a jump when its opcode (bits 0..6) is `JAL` (0b1101111),
/// or `JALR` (0b1100111) with funct3 (bits 12..14) zero; a conditional
/// branch when its opcode is 0b1100011 and funct3 is that of `BEQ` (0),
/// `BNE` (1), `BLT` (4), `BGE` (5), `BLTU` (6) or `BGEU` (7); regular
/// otherwise.
pub proof fn law_instruction_types(encoded: u32)
    ensures
        ({
            let opcode = encoded % 128;
            let funct3 = (encoded / 4096) % 8;
            let t = spec_type_from_opcode(encoded);
            &&& opcode == 0b110_1111 ==> t == RawInstrType::Jump
            &&& opcode == 0b110_0111 && funct3 == 0 ==> t == RawInstrType::Jump
            &&& opcode == 0b110_0111 && funct3 != 0 ==> t == RawInstrType::Regular
            &&& opcode == 0b110_0011 && (funct3 == 0 || funct3 == 1 || funct3 == 4 || funct3 == 5
                || funct3 == 6 || funct3 == 7) ==> t == RawInstrType::Branch
            &&& opcode == 0b110_0011 && (funct3 == 2 || funct3 == 3) ==> t == RawInstrType::Regular
            &&& opcode != 0b110_1111 && opcode != 0b110_0111 && opcode != 0b110_0011 ==> t
                == RawInstrType::Regular
        }),
{
    lemma2_to64();
}

} // verus!
