//! The decode stage: turns raw 32-bit encodings into [`Instruction`]s.

use crate::instr::{Instruction, RawInstr};
use vstd::prelude::*;

pub use self::bit_ops::{ones, replicate, ror, sign_extend};

pub mod bit_ops;
pub mod br_eg_si;
pub mod dp_imm;
pub mod dp_reg;
pub mod ldr_str;

verus! {

/// Width of a register-number field.
pub const REG_WIDTH: u32 = 5;

/// The value of the `width`-bit field of `x` that starts at bit `lo`.
pub open spec fn field(x: u32, lo: u32, width: u32) -> u32 {
    ((x as nat / vstd::arithmetic::power2::pow2(lo as nat)) % vstd::arithmetic::power2::pow2(
        width as nat,
    )) as u32
}

/// Extracts the `width`-bit field of `instr` that starts at bit `shift`.
pub fn extract_bits(instr: u32, shift: u32, width: u32) -> (r: u32)
    requires
        shift < 32,
        0 < width < 32,
    ensures
        r == field(instr, shift, width),
{
    proof {
        vstd::bits::lemma_u32_pow2_no_overflow(width as nat);
        vstd::bits::lemma_u32_shl_is_mul(1, width);
    }
    let mask: u32 = (1u32 << width) - 1;
    let shifted: u32 = instr >> shift;
    proof {
        vstd::bits::lemma_u32_shr_is_div(instr, shift);
        vstd::bits::lemma_u32_low_bits_mask_is_mod(shifted, width as nat);
        vstd::arithmetic::power2::lemma_pow2_pos(width as nat);
        assert(mask == vstd::bits::low_bits_mask(width as nat) as u32);
    }
    shifted & mask
}

pub const OP1_SHIFT: u32 = 25;
pub const OP1_WIDTH: u32 = 4;

/// What a 32-bit encoding decodes to, if it is a supported instruction: bits
/// 25..29 select the instruction group, whose own decoder does the rest.
pub open spec fn spec_decode(instr: u32) -> Option<Instruction> {
    let op1 = field(instr, OP1_SHIFT, OP1_WIDTH);
    if op1 == 0b1000 || op1 == 0b1001 {
        dp_imm::spec_decode(instr)
    } else if op1 == 0b1010 || op1 == 0b1011 {
        br_eg_si::spec_decode(instr)
    } else if op1 == 0b0101 || op1 == 0b1101 {
        dp_reg::spec_decode(instr)
    } else if op1 == 0b0100 || op1 == 0b0110 || op1 == 0b1100 || op1 == 0b1110 {
        ldr_str::spec_decode(instr)
    } else {
        None
    }
}

/// Decodes `instr` if it is a supported instruction; `None` if it is not.
pub fn try_decode(instr: u32) -> (r: Option<Instruction>)
    ensures
        r == spec_decode(instr),
{
    let group = extract_bits(instr, OP1_SHIFT, OP1_WIDTH);
    match group {
        0b1000 | 0b1001 => dp_imm::try_decode(instr),
        0b1010 | 0b1011 => br_eg_si::try_decode(instr),
        0b0101 | 0b1101 => dp_reg::try_decode(instr),
        0b0100 | 0b0110 | 0b1100 | 0b1110 => ldr_str::try_decode(instr),
        _ => None,
    }
}

/// The decode stage of the pipeline.
pub struct DecodeStage;

impl DecodeStage {
    /// Decodes a raw instruction; only supported encodings may be decoded.
    pub fn decode(&self, instr: RawInstr) -> (r: Instruction)
        requires
            spec_decode(instr.0) is Some,
        ensures
            spec_decode(instr.0) == Some(r),
    {
        match try_decode(instr.encoded()) {
            Some(r) => r,
            None => vstd::pervasive::unreached(),
        }
    }
}

} // verus!
