//! Which of a fixed number of schedulers is selected.

use crate::ui::focus::Focus;
use vstd::prelude::*;

verus! {

/// The position after `index` among `count` items: the following one, staying
/// on the last.
pub open spec fn next_index(count: nat, index: nat) -> nat {
    if index + 1 < count {
        index + 1
    } else {
        index
    }
}

/// The position before `index`: the preceding one, staying on the first.
pub open spec fn prev_index(index: nat) -> nat {
    if index > 0 {
        (index - 1) as nat
    } else {
        index
    }
}

/// The position `focused` among `count` items: at least one item, and the
/// position is one of them.
#[derive(Clone, Copy, Debug, PartialEq, Eq, Structural)]
pub struct Selected {
    count: usize,
    focused: usize,
}

impl Selected {
    /// The selection is one of the items.
    #[verifier::type_invariant]
    pub open spec fn inv(self) -> bool {
        self.index() < self.count()
    }

    /// The number of items.
    pub closed spec fn count(self) -> nat {
        self.count as nat
    }

    /// The selected position.
    pub closed spec fn index(self) -> nat {
        self.focused as nat
    }

    /// The first of `count` items selected.
    pub fn new(count: usize) -> (r: Self)
        requires
            count > 0,
        ensures
            r.count() == count,
            r.index() == 0,
    {
        Self { count, focused: 0 }
    }

    /// The selected position.
    pub fn get(&self) -> (r: usize)
        ensures
            r == self.index(),
            r < self.count(),
    {
        proof {
            use_type_invariant(self);
        }
        self.focused
    }

    /// The first item selected.
    pub fn first(self) -> (r: Self)
        ensures
            r.count() == self.count(),
            r.index() == 0,
    {
        proof {
            use_type_invariant(self);
        }
        Self { focused: 0, ..self }
    }

    /// The last item selected.
    pub fn last(self) -> (r: Self)
        ensures
            r.count() == self.count(),
            r.index() == self.count() - 1,
    {
        proof {
            use_type_invariant(self);
        }
        Self { focused: self.count - 1, ..self }
    }
}

impl Focus for Selected {
    fn next(self) -> (r: Self)
        ensures
            r.count() == self.count(),
            r.index() == next_index(self.count(), self.index()),
    {
        proof {
            use_type_invariant(self);
        }
        let focused = self.focused;
        let next = if focused < self.count - 1 {
            focused + 1
        } else {
            focused
        };
        Self { focused: next, ..self }
    }

    fn prev(self) -> (r: Self)
        ensures
            r.count() == self.count(),
            r.index() == prev_index(self.index()),
    {
        proof {
            use_type_invariant(self);
        }
        let focused = self.focused;
        let prev = focused.saturating_sub(1);
        Self { focused: prev, ..self }
    }
}

} // verus!
