//! Instructions that may write a result back to a register.

use vstd::prelude::*;

verus! {

/// An instruction that may write its result back to a register.
pub trait Writeback {
    /// Whether the instruction writes a register.
    fn reg_write(&self) -> bool;
}

} // verus!
