//! The names the registers are shown by, stated as the calling convention
//! groups them.

use crate::reg::abi_name;
use vstd::prelude::*;

verus! {

/// The decimal digit `d` (below ten) as a character.
pub open spec fn digit(d: int) -> char {
    if d == 0 {
        '0'
    } else if d == 1 {
        '1'
    } else if d == 2 {
        '2'
    } else if d == 3 {
        '3'
    } else if d == 4 {
        '4'
    } else if d == 5 {
        '5'
    } else if d == 6 {
        '6'
    } else if d == 7 {
        '7'
    } else if d == 8 {
        '8'
    } else {
        '9'
    }
}

/// The register names of the RISC-V calling convention: x0 to x4 are `zero`,
/// `ra`, `sp`, `gp` and `tp`; the temporaries `t0` to `t2` are x5 to x7 and
/// `t3` to `t6` are x28 to x31; the saved registers `s0` and `s1` are x8 and
/// x9 and `s2` to `s11` are x18 to x27; the arguments `a0` to `a7` are x10 to
/// x17.
pub proof fn law_register_names(n: u8)
    requires
        n < 32,
    ensures
        n == 0 ==> abi_name(n) == seq!['z', 'e', 'r', 'o'],
        n == 1 ==> abi_name(n) == seq!['r', 'a'],
        n == 2 ==> abi_name(n) == seq!['s', 'p'],
        n == 3 ==> abi_name(n) == seq!['g', 'p'],
        n == 4 ==> abi_name(n) == seq!['t', 'p'],
        5 <= n <= 7 ==> abi_name(n) == seq!['t', digit(n - 5)],
        28 <= n <= 31 ==> abi_name(n) == seq!['t', digit(n - 25)],
        8 <= n <= 9 ==> abi_name(n) == seq!['s', digit(n - 8)],
        18 <= n <= 25 ==> abi_name(n) == seq!['s', digit(n - 16)],
        26 <= n <= 27 ==> abi_name(n) == seq!['s', '1', digit(n - 26)],
        10 <= n <= 17 ==> abi_name(n) == seq!['a', digit(n - 10)],
{
    reveal_strlit("zero");
    reveal_strlit("ra");
    reveal_strlit("sp");
    reveal_strlit("gp");
    reveal_strlit("tp");
    reveal_strlit("t0");
    reveal_strlit("t1");
    reveal_strlit("t2");
    reveal_strlit("s0");
    reveal_strlit("s1");
    reveal_strlit("a0");
    reveal_strlit("a1");
    reveal_strlit("a2");
    reveal_strlit("a3");
    reveal_strlit("a4");
    reveal_strlit("a5");
    reveal_strlit("a6");
    reveal_strlit("a7");
    reveal_strlit("s2");
    reveal_strlit("s3");
    reveal_strlit("s4");
    reveal_strlit("s5");
    reveal_strlit("s6");
    reveal_strlit("s7");
    reveal_strlit("s8");
    reveal_strlit("s9");
    reveal_strlit("s10");
    reveal_strlit("s11");
    reveal_strlit("t3");
    reveal_strlit("t4");
    reveal_strlit("t5");
    reveal_strlit("t6");
    assert(abi_name(n) =~= if n == 0 {
        seq!['z', 'e', 'r', 'o']
    } else if n == 1 {
        seq!['r', 'a']
    } else if n == 2 {
        seq!['s', 'p']
    } else if n == 3 {
        seq!['g', 'p']
    } else if n == 4 {
        seq!['t', 'p']
    } else if 5 <= n <= 7 {
        seq!['t', digit(n - 5)]
    } else if 28 <= n <= 31 {
        seq!['t', digit(n - 25)]
    } else if 8 <= n <= 9 {
        seq!['s', digit(n - 8)]
    } else if 18 <= n <= 25 {
        seq!['s', digit(n - 16)]
    } else if 26 <= n <= 27 {
        seq!['s', '1', digit(n - 26)]
    } else {
        seq!['a', digit(n - 10)]
    });
}

} // verus!
