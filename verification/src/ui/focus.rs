//! Moving the keyboard focus between user-interface components.

use vstd::prelude::*;

verus! {

/// A value that can step to the next or the previous focus position.
pub trait Focus: Sized {
    /// The next position.
    fn next(self) -> Self;

    /// The previous position.
    fn prev(self) -> Self;
}

/// Whether a component holds the focus after a focus move.
pub type HasFocus = bool;

/// A component that can take and give up the keyboard focus.
pub trait Focusable {
    /// The component's focus marks agree with one another: a component made
    /// of parts marks the focus on the part it says has it, and on no other.
    spec fn focus_wf(&self) -> bool;

    /// Gives up the focus.
    fn unfocus(&mut self)
        requires
            old(self).focus_wf(),
        ensures
            final(self).focus_wf(),
    ;

    /// Moves the focus forward; tells whether the component still has it.
    fn focus_next(&mut self) -> (r: HasFocus)
        requires
            old(self).focus_wf(),
        ensures
            final(self).focus_wf(),
    ;

    /// Moves the focus backward; tells whether the component still has it.
    fn focus_prev(&mut self) -> (r: HasFocus)
        requires
            old(self).focus_wf(),
        ensures
            final(self).focus_wf(),
    ;
}

/// A component that passes the focus on among its children.
pub trait FocusHandler: Focusable {
    /// Moves to the next child.
    fn move_focus_next(&mut self);

    /// Moves to the previous child.
    fn move_focus_prev(&mut self);
}

} // verus!
