//! Decoded instructions and the operand formats they carry.
//!
//! Every operand is kept exactly as it was extracted from the encoding: register
//! numbers, flags and immediates are raw unsigned bit-field values.

use vstd::prelude::*;

pub use self::raw::{RawInstr, RawInstrType};
pub use self::stall::StallControl;
pub use self::writeback::Writeback;

pub mod raw;
pub mod stall;
pub mod writeback;

verus! {

/// How a load or store computes its effective address.
#[derive(Clone, Copy, Debug, PartialEq, Eq, Structural)]
pub enum AddressingMode {
    /// Access the base address, then write back `base + imm`.
    PostIndex,
    /// Write back `base + imm`, then access it.
    PreIndex,
    /// Access `base + imm`, scaled, with no write-back.
    UnsignedOffset,
}

/// Add/subtract (immediate) operands.
#[derive(Clone, Copy, Debug, PartialEq, Eq, Structural)]
pub struct AddSubImm {
    pub rd: u32,
    pub rn: u32,
    pub sf: u32,
    pub sh: u32,
    pub imm12: u32,
}

/// Minimum/maximum (immediate) operands.
#[derive(Clone, Copy, Debug, PartialEq, Eq, Structural)]
pub struct MinMaxImm {
    pub rd: u32,
    pub rn: u32,
    pub sf: u32,
    pub imm8: u32,
}

/// Logical (bitmask immediate) operands.
#[derive(Clone, Copy, Debug, PartialEq, Eq, Structural)]
pub struct LogicalImm {
    pub rd: u32,
    pub rn: u32,
    pub sf: u32,
    pub n: u32,
    pub immr: u32,
    pub imms: u32,
}

/// Move wide (immediate) operands.
#[derive(Clone, Copy, Debug, PartialEq, Eq, Structural)]
pub struct MoveWideImm {
    pub rd: u32,
    pub sf: u32,
    pub imm16: u32,
    pub hw: u32,
}

/// Data processing (two source registers) operands.
#[derive(Clone, Copy, Debug, PartialEq, Eq, Structural)]
pub struct TwoSource {
    pub rd: u32,
    pub rn: u32,
    pub rm: u32,
    pub sf: u32,
}

/// Data processing (one source register) operands.
#[derive(Clone, Copy, Debug, PartialEq, Eq, Structural)]
pub struct OneSource {
    pub rd: u32,
    pub rn: u32,
    pub sf: u32,
}

/// Shifted-register operands of logical and add/subtract instructions.
#[derive(Clone, Copy, Debug, PartialEq, Eq, Structural)]
pub struct ShiftedRegister {
    pub rd: u32,
    pub rn: u32,
    pub rm: u32,
    pub sf: u32,
    pub shift: u32,
    pub imm6: u32,
}

/// Data processing (three source registers) operands.
#[derive(Clone, Copy, Debug, PartialEq, Eq, Structural)]
pub struct ThreeSource {
    pub rd: u32,
    pub rn: u32,
    pub rm: u32,
    pub ra: u32,
    pub sf: u32,
}

/// Conditional branch (immediate) operands.
#[derive(Clone, Copy, Debug, PartialEq, Eq, Structural)]
pub struct CondBranchImm {
    pub cond: u32,
    pub imm19: u32,
}

/// Unconditional branch (register) operand.
#[derive(Clone, Copy, Debug, PartialEq, Eq, Structural)]
pub struct BranchReg {
    pub rn: u32,
}

/// Unconditional branch (immediate) operand.
#[derive(Clone, Copy, Debug, PartialEq, Eq, Structural)]
pub struct BranchImm {
    pub imm26: u32,
}

/// Load/store (immediate) operands.
#[derive(Clone, Copy, Debug, PartialEq, Eq, Structural)]
pub struct LoadStoreImm {
    pub rt: u32,
    pub rn: u32,
    pub imm: u32,
    pub addr_mode: AddressingMode,
}

/// Load/store (immediate) operands of a sign-extending load.
#[derive(Clone, Copy, Debug, PartialEq, Eq, Structural)]
pub struct LoadStoreImmOpc {
    pub rt: u32,
    pub rn: u32,
    pub imm: u32,
    pub opc: u32,
    pub addr_mode: AddressingMode,
}

/// Load/store (immediate) operands of a word or double-word access.
#[derive(Clone, Copy, Debug, PartialEq, Eq, Structural)]
pub struct LoadStoreImmSize {
    pub rt: u32,
    pub rn: u32,
    pub imm: u32,
    pub size: u32,
    pub addr_mode: AddressingMode,
}

/// Load/store (register offset) operands of a byte access.
#[derive(Clone, Copy, Debug, PartialEq, Eq, Structural)]
pub struct LoadStoreReg {
    pub rt: u32,
    pub rn: u32,
    pub rm: u32,
    pub option: u32,
}

/// Load/store (register offset) operands of a sign-extending byte load.
#[derive(Clone, Copy, Debug, PartialEq, Eq, Structural)]
pub struct LoadStoreRegOpc {
    pub rt: u32,
    pub rn: u32,
    pub rm: u32,
    pub opc: u32,
    pub option: u32,
}

/// Load/store (register offset) operands with a scaling flag.
#[derive(Clone, Copy, Debug, PartialEq, Eq, Structural)]
pub struct LoadStoreRegScaled {
    pub rt: u32,
    pub rn: u32,
    pub rm: u32,
    pub option: u32,
    pub s: u32,
}

/// Load/store (register offset) operands of a sign-extending half-word load.
#[derive(Clone, Copy, Debug, PartialEq, Eq, Structural)]
pub struct LoadStoreRegOpcScaled {
    pub rt: u32,
    pub rn: u32,
    pub rm: u32,
    pub opc: u32,
    pub option: u32,
    pub s: u32,
}

/// Load/store (register offset) operands of a word or double-word access.
#[derive(Clone, Copy, Debug, PartialEq, Eq, Structural)]
pub struct LoadStoreRegSize {
    pub rt: u32,
    pub rn: u32,
    pub rm: u32,
    pub option: u32,
    pub s: u32,
    pub size: u32,
}

/// A decoded instruction.
#[derive(Clone, Copy, Debug, PartialEq, Eq, Structural)]
pub enum Instruction {
    // Data processing -- immediate
    AddImm(AddSubImm),
    AddsImm(AddSubImm),
    SubImm(AddSubImm),
    SubsImm(AddSubImm),
    SmaxImm(MinMaxImm),
    UmaxImm(MinMaxImm),
    SminImm(MinMaxImm),
    UminImm(MinMaxImm),
    AndImm(LogicalImm),
    OrrImm(LogicalImm),
    EorImm(LogicalImm),
    AndsImm(LogicalImm),
    Movz(MoveWideImm),
    // Data processing -- register
    Udiv(TwoSource),
    Sdiv(TwoSource),
    Lslv(TwoSource),
    Lsrv(TwoSource),
    Asrv(TwoSource),
    Rorv(TwoSource),
    Smax(TwoSource),
    Umax(TwoSource),
    Smin(TwoSource),
    Umin(TwoSource),
    Abs(OneSource),
    And(ShiftedRegister),
    Orr(ShiftedRegister),
    Eor(ShiftedRegister),
    Ands(ShiftedRegister),
    Add(ShiftedRegister),
    Adds(ShiftedRegister),
    Sub(ShiftedRegister),
    Subs(ShiftedRegister),
    Madd(ThreeSource),
    Msub(ThreeSource),
    // Branches, exception generation and system instructions
    Bcond(CondBranchImm),
    Nop,
    Br(BranchReg),
    Ret(BranchReg),
    B(BranchImm),
    // Loads and stores -- register and immediate
    Strb(LoadStoreImm),
    Ldrb(LoadStoreImm),
    Ldrsb(LoadStoreImmOpc),
    Strh(LoadStoreImm),
    Ldrh(LoadStoreImm),
    Ldrsh(LoadStoreImmOpc),
    Str(LoadStoreImmSize),
    Ldr(LoadStoreImmSize),
    Ldrsw(LoadStoreImm),
    // Loads and stores -- register and register offset
    StrbReg(LoadStoreReg),
    LdrbReg(LoadStoreReg),
    LdrsbReg(LoadStoreRegOpc),
    StrhReg(LoadStoreRegScaled),
    LdrhReg(LoadStoreRegScaled),
    LdrshReg(LoadStoreRegOpcScaled),
    StrReg(LoadStoreRegSize),
    LdrReg(LoadStoreRegSize),
    LdrswReg(LoadStoreRegScaled),
}

} // verus!
