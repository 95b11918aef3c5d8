use cpu_sim::pipeline::decode::{ones, replicate, ror, sign_extend};

#[test]
fn sign_extend_of_negative_byte() {
    assert_eq!(sign_extend(0xFF, 8), -1);
    assert_eq!(sign_extend(0x80, 8), -128);
}

#[test]
fn sign_extend_of_positive_byte() {
    assert_eq!(sign_extend(0x7F, 8), 127);
    assert_eq!(sign_extend(0x17F, 8), 127);
}

#[test]
fn sign_extend_of_full_word() {
    assert_eq!(sign_extend(0x8000_0000, 32), i32::MIN as i64);
    assert_eq!(sign_extend(0x7FFF_FFFF, 32), i32::MAX as i64);
}

#[test]
fn sign_extend_of_one_bit() {
    assert_eq!(sign_extend(1, 1), -1);
    assert_eq!(sign_extend(2, 1), 0);
}

#[test]
fn ones_makes_low_masks() {
    assert_eq!(ones(0), 0);
    assert_eq!(ones(1), 1);
    assert_eq!(ones(5), 31);
    assert_eq!(ones(63), u64::MAX >> 1);
}

#[test]
fn ones_saturates_at_the_width() {
    assert_eq!(ones(64), u64::MAX);
    assert_eq!(ones(70), u64::MAX);
}

#[test]
fn ror_rotates_within_the_size() {
    assert_eq!(ror(0b0001, 4, 1), 0b1000);
    assert_eq!(ror(0b0110, 4, 2), 0b1001);
    assert_eq!(ror(0xAB, 8, 8), 0xAB);
    assert_eq!(ror(0xAB, 8, 0), 0xAB);
    assert_eq!(ror(0x1, 8, 4), 0x10);
}

#[test]
fn replicate_repeats_the_pattern() {
    assert_eq!(replicate(0b01, 2, 4), 0x55);
    assert_eq!(replicate(0xF0, 8, 2), 0xF0F0);
    assert_eq!(replicate(0x5, 4, 1), 0x5);
    assert_eq!(replicate(0x5, 4, 0), 0);
}

#[test]
fn ror_moves_each_bit() {
    let x = 0b1011u64;
    let r = ror(x, 4, 1);
    assert_eq!(r, 0b1101);
    for i in 0..4u64 {
        let from = (i + 1) % 4;
        assert_eq!((r >> i) & 1, (x >> from) & 1);
    }
    assert_eq!(r >> 4, 0);
    assert_eq!(ror(0x8000_0000_0000_0001, 64, 4), 0x1800_0000_0000_0000);
}
