//! Architectural register names.

use vstd::prelude::*;
use vstd::string::*;

verus! {

/// The value held by a register.
pub type RegSize = i32;

/// The number of a general-purpose register.
pub type GprId = u8;

/// Width, in bits, of an encoded register number.
pub const REG_LEN: u32 = 5;

/// `(1 << REG_LEN) - 2`: the highest register number below the last one of
/// the `REG_LEN`-bit field.
pub const MAX_GPR: u64 = 30;

/// An architectural integer register.
#[derive(Clone, Copy, Debug, PartialEq, Eq, Hash, Structural)]
pub enum RegisterName {
    /// The hard-wired zero register.
    Zero,
    /// A general-purpose register.
    X(GprId),
}

/// The ABI mnemonic of register number `n`.
pub open spec fn abi_name(n: u8) -> Seq<char> {
    if n == 0 {
        "zero"@
    } else if n == 1 {
        "ra"@
    } else if n == 2 {
        "sp"@
    } else if n == 3 {
        "gp"@
    } else if n == 4 {
        "tp"@
    } else if n == 5 {
        "t0"@
    } else if n == 6 {
        "t1"@
    } else if n == 7 {
        "t2"@
    } else if n == 8 {
        "s0"@
    } else if n == 9 {
        "s1"@
    } else if n == 10 {
        "a0"@
    } else if n == 11 {
        "a1"@
    } else if n == 12 {
        "a2"@
    } else if n == 13 {
        "a3"@
    } else if n == 14 {
        "a4"@
    } else if n == 15 {
        "a5"@
    } else if n == 16 {
        "a6"@
    } else if n == 17 {
        "a7"@
    } else if n == 18 {
        "s2"@
    } else if n == 19 {
        "s3"@
    } else if n == 20 {
        "s4"@
    } else if n == 21 {
        "s5"@
    } else if n == 22 {
        "s6"@
    } else if n == 23 {
        "s7"@
    } else if n == 24 {
        "s8"@
    } else if n == 25 {
        "s9"@
    } else if n == 26 {
        "s10"@
    } else if n == 27 {
        "s11"@
    } else if n == 28 {
        "t3"@
    } else if n == 29 {
        "t4"@
    } else if n == 30 {
        "t5"@
    } else {
        "t6"@
    }
}

/// `count` spaces.
pub open spec fn spaces(count: nat) -> Seq<char> {
    Seq::new(count, |i: int| ' ')
}

impl RegisterName {
    /// The register number, with the zero register as 0.
    pub open spec fn number(self) -> u8 {
        match self {
            RegisterName::Zero => 0,
            RegisterName::X(n) => n,
        }
    }

    /// Whether this names the zero register.
    pub open spec fn spec_is_zero(self) -> bool {
        self.number() == 0
    }

    /// Decodes a register number taken from a `REG_LEN`-bit field of an
    /// instruction: x0 is the zero register, x1 to x31 general-purpose ones.
    pub fn decode(encoded: u8) -> (r: Self)
        requires
            encoded < 32,
        ensures
            r == (if encoded == 0 {
                RegisterName::Zero
            } else {
                RegisterName::X(encoded)
            }),
    {
        match encoded {
            0 => RegisterName::Zero,
            r => RegisterName::X(r as GprId),
        }
    }

    /// Whether this names the zero register.
    pub fn is_zero(&self) -> (r: bool)
        ensures
            r == self.spec_is_zero(),
    {
        match self {
            RegisterName::Zero => true,
            RegisterName::X(n) => *n == 0,
        }
    }

    /// The ABI mnemonic of this register (`zero`, `ra`, `sp`, ..., `t6`).
    pub fn name(&self) -> (r: &'static str)
        requires
            self.number() < 32,
        ensures
            r@ == abi_name(self.number()),
    {
        let n = match self {
            RegisterName::Zero => 0,
            RegisterName::X(n) => *n,
        };
        match n {
            0 => "zero",
            1 => "ra",
            2 => "sp",
            3 => "gp",
            4 => "tp",
            5 => "t0",
            6 => "t1",
            7 => "t2",
            8 => "s0",
            9 => "s1",
            10 => "a0",
            11 => "a1",
            12 => "a2",
            13 => "a3",
            14 => "a4",
            15 => "a5",
            16 => "a6",
            17 => "a7",
            18 => "s2",
            19 => "s3",
            20 => "s4",
            21 => "s5",
            22 => "s6",
            23 => "s7",
            24 => "s8",
            25 => "s9",
            26 => "s10",
            27 => "s11",
            28 => "t3",
            29 => "t4",
            30 => "t5",
            _ => "t6",
        }
    }

    /// The text this register is shown as: its ABI mnemonic, right-aligned in
    /// a field of four characters in the alternate form.
    pub fn format(&self, alternate: bool) -> (r: String)
        requires
            self.number() < 32,
        ensures
            r@ == (if alternate && abi_name(self.number()).len() < 4 {
                spaces((4 - abi_name(self.number()).len()) as nat) + abi_name(self.number())
            } else {
                abi_name(self.number())
            }),
    {
        let name = self.name();
        let len = name.unicode_len();
        let mut text = String::new();
        if alternate {
            let mut i: usize = len;
            while i < 4
                invariant
                    len <= i <= 4 || (len >= 4 && i == len),
                    text@ == spaces((i - len) as nat),
                decreases 4 - i,
            {
                text.append(" ");
                proof {
                    reveal_strlit(" ");
                    assert(spaces((i + 1 - len) as nat) =~= spaces((i - len) as nat) + " "@);
                }
                i = i + 1;
            }
        }
        text.append(name);
        proof {
            if !(alternate && abi_name(self.number()).len() < 4) {
                assert(text@ =~= name@);
            }
        }
        text
    }
}

} // verus!
