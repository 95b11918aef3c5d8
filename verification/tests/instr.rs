use cpu_sim::instr::stall::{read_regs_from_iter, write_reg};
use cpu_sim::instr::{RawInstr, RawInstrType};
use cpu_sim::reg::RegisterName;

#[test]
fn jal_is_a_jump() {
    assert_eq!(RawInstr(0x0000_006F).type_from_opcode(), RawInstrType::Jump);
}

#[test]
fn jalr_with_funct3_zero_is_a_jump() {
    assert_eq!(RawInstr(0x0000_8067).type_from_opcode(), RawInstrType::Jump);
    assert_eq!(RawInstr(0x0000_1067).type_from_opcode(), RawInstrType::Regular);
}

#[test]
fn branches_are_branches_but_for_reserved_funct3() {
    assert_eq!(RawInstr(0x0000_0063).type_from_opcode(), RawInstrType::Branch);
    assert_eq!(RawInstr(0x0000_7063).type_from_opcode(), RawInstrType::Branch);
    assert_eq!(RawInstr(0x0000_2063).type_from_opcode(), RawInstrType::Regular);
    assert_eq!(RawInstr(0x0000_3063).type_from_opcode(), RawInstrType::Regular);
}

#[test]
fn other_opcodes_are_regular() {
    assert_eq!(RawInstr(0x0000_0013).type_from_opcode(), RawInstrType::Regular);
    assert_eq!(RawInstr(0x0000_0033).type_from_opcode(), RawInstrType::Regular);
}

#[test]
fn encoded_gives_the_word_back() {
    assert_eq!(RawInstr(0xDEAD_BEEF).encoded(), 0xDEAD_BEEF);
}

#[test]
fn read_regs_drop_zero_and_duplicates() {
    let regs = vec![
        RegisterName::X(3),
        RegisterName::Zero,
        RegisterName::X(3),
        RegisterName::X(5),
        RegisterName::X(0),
    ];
    assert_eq!(read_regs_from_iter(regs), vec![RegisterName::X(3), RegisterName::X(5)]);
    assert_eq!(read_regs_from_iter(vec![]), vec![]);
}

#[test]
fn write_reg_drops_zero() {
    assert_eq!(write_reg(RegisterName::Zero), None);
    assert_eq!(write_reg(RegisterName::X(0)), None);
    assert_eq!(write_reg(RegisterName::X(7)), Some(RegisterName::X(7)));
}
