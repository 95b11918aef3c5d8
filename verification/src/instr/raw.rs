//! Raw instruction encodings and what can be told from their opcode alone.

use crate::pipeline::decode::{extract_bits, field};
use vstd::prelude::*;

verus! {

/// A raw 32-bit instruction encoding, as fetched from memory.
#[derive(Clone, Copy, Debug, PartialEq, Eq, Structural)]
pub struct RawInstr(pub u32);

impl RawInstr {
    /// The encoding itself.
    pub fn encoded(&self) -> (r: u32)
        ensures
            r == self.0,
    {
        self.0
    }
}

/// The type of instruction that could be easily inferred just from the OPCODE.
///
/// Used for branch predictors to distinguish between jumps and regular instructions.
#[derive(Clone, Copy, Debug, PartialEq, Eq, Structural)]
pub enum RawInstrType {
    /// Regular instruction (does not modify the PC).
    Regular,
    /// Unconditional jump.
    Jump,
    /// Conditional jump (branch).
    Branch,
}

/// The RV32I major opcode of `JAL`.
pub const OPCODE_JAL: u32 = 0b110_1111;
/// The RV32I major opcode of `JALR`.
pub const OPCODE_JALR: u32 = 0b110_0111;
/// The RV32I major opcode of the conditional branches.
pub const OPCODE_BRANCH: u32 = 0b110_0011;

pub const OPCODE_SHIFT: u32 = 0;
pub const OPCODE_WIDTH: u32 = 7;

pub const FUNCT3_SHIFT: u32 = 12;
pub const FUNCT3_WIDTH: u32 = 3;

/// Whether `funct3` selects one of the six conditional branches
/// (`BEQ`, `BNE`, `BLT`, `BGE`, `BLTU`, `BGEU`).
pub open spec fn is_branch_funct3(funct3: u32) -> bool {
    funct3 == 0b000 || funct3 == 0b001 || funct3 == 0b100 || funct3 == 0b101 || funct3 == 0b110
        || funct3 == 0b111
}

/// The type of the instruction an RV32I encoding stands for: `JAL` and `JALR`
/// jump, the six conditional branches branch, and everything else (including
/// encodings that are no valid jump or branch) is regular.
pub open spec fn spec_type_from_opcode(encoded: u32) -> RawInstrType {
    let opcode = field(encoded, OPCODE_SHIFT, OPCODE_WIDTH);
    let funct3 = field(encoded, FUNCT3_SHIFT, FUNCT3_WIDTH);
    if opcode == OPCODE_JAL || (opcode == OPCODE_JALR && funct3 == 0b000) {
        RawInstrType::Jump
    } else if opcode == OPCODE_BRANCH && is_branch_funct3(funct3) {
        RawInstrType::Branch
    } else {
        RawInstrType::Regular
    }
}

impl RawInstr {
    /// Returns what type of instruction this raw encoding represents.
    pub fn type_from_opcode(&self) -> (r: RawInstrType)
        ensures
            r == spec_type_from_opcode(self.0),
    {
        let opcode = extract_bits(self.0, OPCODE_SHIFT, OPCODE_WIDTH);
        let funct3 = extract_bits(self.0, FUNCT3_SHIFT, FUNCT3_WIDTH);
        if opcode == OPCODE_JAL || (opcode == OPCODE_JALR && funct3 == 0b000) {
            RawInstrType::Jump
        } else if opcode == OPCODE_BRANCH && (funct3 == 0b000 || funct3 == 0b001 || funct3
            == 0b100 || funct3 == 0b101 || funct3 == 0b110 || funct3 == 0b111) {
            RawInstrType::Branch
        } else {
            RawInstrType::Regular
        }
    }
}

} // verus!
