//! What an instruction reads and writes, for deciding when to stall.

use crate::reg::RegisterName;
use vstd::prelude::*;

verus! {

/// The registers an instruction reads and writes.
pub trait StallControl {
    /// The registers the instruction reads (`read_regs_from_iter` gives them
    /// from its operands).
    fn read_regs(&self) -> Vec<RegisterName>;

    /// The register the instruction writes, if any (`write_reg` gives it from
    /// its destination operand).
    fn write_reg(&self) -> Option<RegisterName>;
}

/// Whether `regs` holds `reg`.
fn contains(regs: &Vec<RegisterName>, reg: RegisterName) -> (r: bool)
    ensures
        r == regs@.contains(reg),
{
    let mut i: usize = 0;
    while i < regs.len()
        invariant
            i <= regs.len(),
            forall|j: int| 0 <= j < i ==> regs@[j] != reg,
        decreases regs.len() - i,
    {
        if regs[i] == reg {
            return true;
        }
        i = i + 1;
    }
    false
}

/// The set of registers read, given every register operand: the zero register
/// is dropped and each register is kept once, in order of first appearance.
pub fn read_regs_from_iter(regs: Vec<RegisterName>) -> (r: Vec<RegisterName>)
    ensures
        r@.no_duplicates(),
        forall|reg: RegisterName| #[trigger]
            r@.contains(reg) <==> regs@.contains(reg) && !reg.spec_is_zero(),
{
    let mut result: Vec<RegisterName> = Vec::new();
    let mut i: usize = 0;
    while i < regs.len()
        invariant
            i <= regs.len(),
            result@.no_duplicates(),
            forall|reg: RegisterName| #[trigger]
                result@.contains(reg) <==> regs@.subrange(0, i as int).contains(reg)
                    && !reg.spec_is_zero(),
        decreases regs.len() - i,
    {
        let reg = regs[i];
        let ghost before = result@;
        if !reg.is_zero() && !contains(&result, reg) {
            result.push(reg);
        }
        proof {
            broadcast use vstd::seq_lib::lemma_seq_contains_after_push;

            let seen = regs@.subrange(0, i as int);
            assert(regs@.subrange(0, i + 1) =~= seen.push(reg));
            assert forall|x: RegisterName| #[trigger]
                result@.contains(x) <==> seen.push(reg).contains(x) && !x.spec_is_zero() by {
                if result@ != before {
                    assert(result@ == before.push(reg));
                }
            }
        }
        i = i + 1;
    }
    proof {
        assert(regs@.subrange(0, regs@.len() as int) =~= regs@);
    }
    result
}

/// The register written back by an instruction whose destination is `reg`:
/// none when the destination is the zero register.
pub fn write_reg(reg: RegisterName) -> (r: Option<RegisterName>)
    ensures
        r == (if reg.spec_is_zero() {
            None
        } else {
            Some(reg)
        }),
{
    if reg.is_zero() {
        None
    } else {
        Some(reg)
    }
}

} // verus!
