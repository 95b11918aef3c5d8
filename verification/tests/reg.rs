use cpu_sim::reg::{RegisterName, MAX_GPR, REG_LEN};

#[test]
fn decode_zero_is_the_zero_register() {
    assert_eq!(RegisterName::decode(0), RegisterName::Zero);
    assert!(RegisterName::decode(0).is_zero());
}

#[test]
fn decode_other_numbers_are_general_registers() {
    assert_eq!(RegisterName::decode(1), RegisterName::X(1));
    assert_eq!(RegisterName::decode(30), RegisterName::X(30));
    assert_eq!(RegisterName::decode(31), RegisterName::X(31));
    assert_eq!(RegisterName::decode(31).name(), "t6");
    assert!(!RegisterName::decode(5).is_zero());
    assert!(RegisterName::X(0).is_zero());
}

#[test]
fn register_limits() {
    assert_eq!(REG_LEN, 5);
    assert_eq!(MAX_GPR, 30);
}

#[test]
fn abi_names() {
    assert_eq!(RegisterName::Zero.name(), "zero");
    assert_eq!(RegisterName::X(1).name(), "ra");
    assert_eq!(RegisterName::X(2).name(), "sp");
    assert_eq!(RegisterName::X(8).name(), "s0");
    assert_eq!(RegisterName::X(10).name(), "a0");
    assert_eq!(RegisterName::X(27).name(), "s11");
    assert_eq!(RegisterName::X(31).name(), "t6");
}

#[test]
fn format_plain_and_alternate() {
    assert_eq!(RegisterName::X(1).format(false), "ra");
    assert_eq!(RegisterName::X(1).format(true), "  ra");
    assert_eq!(RegisterName::X(27).format(true), " s11");
    assert_eq!(RegisterName::Zero.format(true), "zero");
}
