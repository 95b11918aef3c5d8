//! Results of handling user-interface events.

use crate::ui::error::SimError;
use vstd::prelude::*;

verus! {

/// What handling an event came to.
pub enum EventResult<T> {
    /// The event was not for this component.
    Ignored,
    /// The event was handled, with this outcome.
    Handled(T),
    /// Handling the event failed.
    Error(SimError),
}

impl<T> Default for EventResult<T> {
    fn default() -> (r: Self)
        ensures
            r is Ignored,
    {
        EventResult::Ignored
    }
}

impl<T> EventResult<T> {
    /// `self` with the outcome of a handled event replaced by `f` of it; an
    /// ignored event stays ignored and an error stays the same error.
    pub open spec fn spec_map<U>(self, f: spec_fn(T) -> U) -> EventResult<U> {
        match self {
            EventResult::Ignored => EventResult::Ignored,
            EventResult::Handled(t) => EventResult::Handled(f(t)),
            EventResult::Error(err) => EventResult::Error(err),
        }
    }

    /// Applies `f` to the outcome of a handled event; an ignored event stays
    /// ignored and an error stays the same error.
    pub fn map<U, F: FnOnce(T) -> U>(self, f: F) -> (r: EventResult<U>)
        requires
            self matches EventResult::Handled(t) ==> f.requires((t,)),
        ensures
            match self {
                EventResult::Ignored => r is Ignored,
                EventResult::Handled(t) => r matches EventResult::Handled(u) && f.ensures((t,), u),
                EventResult::Error(err) => r matches EventResult::Error(e) && e == err,
            },
            forall|sf: spec_fn(T) -> U|
                #![trigger self.spec_map(sf)]
                (forall|t: T, u: U| f.ensures((t,), u) ==> u == sf(t)) ==> r == self.spec_map(sf),
    {
        match self {
            EventResult::Ignored => EventResult::Ignored,
            EventResult::Handled(r) => EventResult::Handled(f(r)),
            EventResult::Error(err) => EventResult::Error(err),
        }
    }
}

/// Mapping with the function that gives back its argument changes nothing.
pub proof fn law_map_identity<T>(x: EventResult<T>)
    ensures
        x.spec_map(|v: T| v) == x,
{
}

/// Mapping with `f` and then with `g` is mapping once with `g` after `f`.
pub proof fn law_map_composition<T, U, V>(x: EventResult<T>, f: spec_fn(T) -> U, g: spec_fn(U) -> V)
    ensures
        x.spec_map(f).spec_map(g) == x.spec_map(|v: T| g(f(v))),
{
}

} // verus!
