use cpu_sim::instr::{
    AddSubImm, AddressingMode, BranchImm, BranchReg, CondBranchImm, Instruction, LoadStoreImm,
    LoadStoreImmSize, LoadStoreRegSize, LogicalImm, MinMaxImm, MoveWideImm, OneSource, RawInstr,
    ShiftedRegister, ThreeSource, TwoSource,
};
use cpu_sim::pipeline::decode::br_eg_si::{cond_br_imm, hints, uncond_br_imm, uncond_br_reg};
use cpu_sim::pipeline::decode::dp_imm::{add_sub, logical, min_max, move_wide};
use cpu_sim::pipeline::decode::dp_reg::{add_sub_shift, dp_1src, dp_2src, dp_3src, logic_shift};
use cpu_sim::pipeline::decode::ldr_str::{ldr_str_reg_imm, ldr_str_reg_reg_off};
use cpu_sim::pipeline::decode::{br_eg_si, dp_imm, dp_reg, extract_bits, ldr_str, DecodeStage};

fn decode(encoded: u32) -> Instruction {
    DecodeStage.decode(RawInstr(encoded))
}

#[test]
fn extract_bits_takes_the_field() {
    assert_eq!(extract_bits(0xD28000A0, 25, 4), 9);
    assert_eq!(extract_bits(0xD28000A0, 5, 16), 5);
    assert_eq!(extract_bits(0xFFFF_FFFF, 31, 1), 1);
    assert_eq!(extract_bits(0x8000_0000, 0, 31), 0);
}

#[test]
fn decodes_add_immediate() {
    let expected = Instruction::AddImm(AddSubImm { rd: 1, rn: 2, sf: 1, sh: 0, imm12: 3 });
    assert_eq!(decode(0x91000C41), expected);
    assert_eq!(dp_imm::decode(0x91000C41), expected);
    assert_eq!(add_sub::decode(0x91000C41), expected);
}

#[test]
fn decodes_subs_immediate() {
    assert_eq!(
        decode(0x71000420),
        Instruction::SubsImm(AddSubImm { rd: 0, rn: 1, sf: 0, sh: 0, imm12: 1 })
    );
    assert_eq!(
        add_sub::decode(0x51000420),
        Instruction::SubImm(AddSubImm { rd: 0, rn: 1, sf: 0, sh: 0, imm12: 1 })
    );
    assert_eq!(
        add_sub::decode(0x31000420),
        Instruction::AddsImm(AddSubImm { rd: 0, rn: 1, sf: 0, sh: 0, imm12: 1 })
    );
}

#[test]
fn decodes_min_max_immediate() {
    let expected = Instruction::SmaxImm(MinMaxImm { rd: 0, rn: 1, sf: 1, imm8: 5 });
    assert_eq!(decode(0x91C01420), expected);
    assert_eq!(min_max::decode(0x91C01420), expected);
    assert_eq!(
        min_max::decode(0x91C01420 | (0b0011 << 18)),
        Instruction::UminImm(MinMaxImm { rd: 0, rn: 1, sf: 1, imm8: 5 })
    );
}

#[test]
fn decodes_logical_immediate() {
    assert_eq!(
        decode(0x92401C20),
        Instruction::AndImm(LogicalImm { rd: 0, rn: 1, sf: 1, n: 1, immr: 0, imms: 7 })
    );
    assert_eq!(
        logical::decode(0xB2401C20),
        Instruction::OrrImm(LogicalImm { rd: 0, rn: 1, sf: 1, n: 1, immr: 0, imms: 7 })
    );
    assert_eq!(
        decode(0x12000000),
        Instruction::AndImm(LogicalImm { rd: 0, rn: 0, sf: 0, n: 0, immr: 0, imms: 0 })
    );
}

#[test]
fn decodes_movz() {
    let expected = Instruction::Movz(MoveWideImm { rd: 0, sf: 1, imm16: 5, hw: 0 });
    assert_eq!(decode(0xD28000A0), expected);
    assert_eq!(move_wide::decode(0xD28000A0), expected);
    assert_eq!(
        move_wide::decode(0x52A000A0),
        Instruction::Movz(MoveWideImm { rd: 0, sf: 0, imm16: 5, hw: 1 })
    );
}

#[test]
fn decodes_two_source() {
    let expected = Instruction::Udiv(TwoSource { rd: 0, rn: 1, rm: 2, sf: 1 });
    assert_eq!(decode(0x9AC20820), expected);
    assert_eq!(dp_reg::decode(0x9AC20820), expected);
    assert_eq!(dp_2src::decode(0x9AC20820), expected);
    assert_eq!(
        dp_2src::decode(0x9AC22C20),
        Instruction::Rorv(TwoSource { rd: 0, rn: 1, rm: 2, sf: 1 })
    );
}

#[test]
fn decodes_abs() {
    let expected = Instruction::Abs(OneSource { rd: 0, rn: 1, sf: 1 });
    assert_eq!(decode(0xDAC02020), expected);
    assert_eq!(dp_1src::decode(0xDAC02020), expected);
}

#[test]
fn decodes_logical_shifted_register() {
    let expected =
        Instruction::Orr(ShiftedRegister { rd: 0, rn: 1, rm: 2, sf: 1, shift: 0, imm6: 0 });
    assert_eq!(decode(0xAA020020), expected);
    assert_eq!(logic_shift::decode(0xAA020020), expected);
}

#[test]
fn add_sub_shift_group_takes_bit_24_and_clear_bit_21() {
    // Bits 24..21 of 1000 route the encoding to add/subtract (shifted register).
    let expected =
        Instruction::Add(ShiftedRegister { rd: 0, rn: 1, rm: 2, sf: 1, shift: 0, imm6: 3 });
    assert_eq!(decode(0x9B020C20), expected);
    assert_eq!(add_sub_shift::decode(0x9B020C20), expected);
    assert_eq!(
        add_sub_shift::decode(0xEB020C20),
        Instruction::Subs(ShiftedRegister { rd: 0, rn: 1, rm: 2, sf: 1, shift: 0, imm6: 3 })
    );
}

#[test]
fn decodes_three_source() {
    assert_eq!(
        dp_3src::decode(0x9B020C20),
        Instruction::Madd(ThreeSource { rd: 0, rn: 1, rm: 2, ra: 3, sf: 1 })
    );
    assert_eq!(
        dp_3src::decode(0x9B028C20),
        Instruction::Msub(ThreeSource { rd: 0, rn: 1, rm: 2, ra: 3, sf: 1 })
    );
}

#[test]
fn decodes_branches() {
    assert_eq!(decode(0x14000002), Instruction::B(BranchImm { imm26: 2 }));
    assert_eq!(uncond_br_imm::decode(0x14000002), Instruction::B(BranchImm { imm26: 2 }));
    assert_eq!(
        decode(0x54000040),
        Instruction::Bcond(CondBranchImm { cond: 0, imm19: 2 })
    );
    assert_eq!(
        cond_br_imm::decode(0x54000041),
        Instruction::Bcond(CondBranchImm { cond: 1, imm19: 2 })
    );
    assert_eq!(decode(0xD503201F), Instruction::Nop);
    assert_eq!(hints::decode(0xD503201F), Instruction::Nop);
    assert_eq!(decode(0xD61F0020), Instruction::Br(BranchReg { rn: 1 }));
    assert_eq!(br_eg_si::decode(0xD65F03C0), Instruction::Ret(BranchReg { rn: 30 }));
    assert_eq!(uncond_br_reg::decode(0xD65F03C0), Instruction::Ret(BranchReg { rn: 30 }));
}

#[test]
fn decodes_loads_and_stores() {
    assert_eq!(
        ldr_str_reg_imm::decode(0xF9400420, AddressingMode::UnsignedOffset),
        Instruction::Ldr(LoadStoreImmSize {
            rt: 0,
            rn: 1,
            imm: 1,
            size: 3,
            addr_mode: AddressingMode::UnsignedOffset
        })
    );
    assert_eq!(
        ldr_str_reg_reg_off::decode(0xF8626820),
        Instruction::LdrReg(LoadStoreRegSize { rt: 0, rn: 1, rm: 2, option: 3, s: 0, size: 3 })
    );
    // Bits 29..28 set and bit 25 set: the post-indexed form.
    assert_eq!(
        ldr_str::decode(0x3A000422),
        Instruction::Strb(LoadStoreImm {
            rt: 2,
            rn: 1,
            imm: 0,
            addr_mode: AddressingMode::PostIndex
        })
    );
}

#[test]
fn try_decode_gives_supported_instructions() {
    assert_eq!(
        cpu_sim::pipeline::decode::try_decode(0x91000C41),
        Some(Instruction::AddImm(AddSubImm { rd: 1, rn: 2, sf: 1, sh: 0, imm12: 3 }))
    );
    assert_eq!(cpu_sim::pipeline::decode::try_decode(0x0000_0000), None);
    assert_eq!(cpu_sim::pipeline::decode::try_decode(0xFFFF_FFFF), None);
    for encoded in [0x91000C41u32, 0x71000420, 0xD503201F, 0x14000010, 0x54000040] {
        assert_eq!(cpu_sim::pipeline::decode::try_decode(encoded), Some(decode(encoded)));
    }
    assert_eq!(min_max::try_decode(0x4000_0000), None);
    assert_eq!(hints::try_decode(0xD503203F), None);
}
