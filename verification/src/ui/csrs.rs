//! The panel of control and status registers.

use crate::ui::events::EventResult;
use crate::ui::focus::{Focusable, HasFocus};
use crate::ui::input::{key_press, pressed, InputEvent, KeyCode};
use crate::ui::scrolling::{fit_head, fitted_head, scrolled_vertically};
use vstd::prelude::*;

verus! {

/// The rows one register takes.
pub const CSR_ITEM_HEIGHT: u16 = 1;

/// The keys the panel reacts to, with what they do.
pub open spec fn csr_tips() -> Seq<(&'static str, &'static str)> {
    seq![("↑↓", "Scroll"), ("Home/End", "Scroll to start/end")]
}

/// The register table: the first register it shows, and whether it has the
/// focus.
#[derive(Clone, Copy, Default)]
pub struct CsrDashboard {
    head: usize,
    focused: bool,
}

impl CsrDashboard {
    /// The first register shown.
    pub closed spec fn head(self) -> usize {
        self.head
    }

    /// Whether the table has the focus.
    pub closed spec fn is_focused(self) -> bool {
        self.focused
    }

    /// A table at its first register, without the focus.
    pub fn new() -> (r: Self)
        ensures
            r.head() == 0,
            !r.is_focused(),
    {
        CsrDashboard { head: 0, focused: false }
    }

    /// The first register shown.
    pub fn first_shown(&self) -> (r: usize)
        ensures
            r == self.head(),
    {
        self.head
    }

    /// Whether the table has the focus.
    pub fn focused(&self) -> (r: bool)
        ensures
            r == self.is_focused(),
    {
        self.focused
    }

    /// The keys the panel reacts to, with what they do.
    pub fn help(&self) -> (r: Vec<(&'static str, &'static str)>)
        ensures
            r@ == csr_tips(),
    {
        let r = vec![("↑↓", "Scroll"), ("Home/End", "Scroll to start/end")];
        assert(r@ =~= csr_tips());
        r
    }

    /// Fits the table to `height` rows of `len` registers before it is drawn,
    /// and gives the first register to draw.
    pub fn fit(&mut self, height: u16, len: usize) -> (r: usize)
        ensures
            final(self).head() == fitted_head(old(self).head() as int, height as int, len as int),
            final(self).is_focused() == old(self).is_focused(),
            r == final(self).head(),
    {
        let count = (height / CSR_ITEM_HEIGHT) as usize;
        self.head = fit_head(self.head, count, len);
        self.head
    }

    /// Scrolls on Up, Down, Home and End; ignores every other event.
    pub fn handle_event(&mut self, event: InputEvent) -> (r: EventResult<()>)
        ensures
            final(self).is_focused() == old(self).is_focused(),
            match scrolled_vertically(old(self).head() as int, pressed(event)) {
                Some(head) => r is Handled && final(self).head() == head,
                None => r is Ignored && final(self).head() == old(self).head(),
            },
    {
        match key_press(&event) {
            Some(KeyCode::Up) => {
                self.head = self.head.saturating_sub(1);
                EventResult::Handled(())
            },
            Some(KeyCode::Down) => {
                self.head = self.head.saturating_add(1);
                EventResult::Handled(())
            },
            Some(KeyCode::Home) => {
                self.head = 0;
                EventResult::Handled(())
            },
            Some(KeyCode::End) => {
                self.head = usize::MAX;
                EventResult::Handled(())
            },
            _ => EventResult::Ignored,
        }
    }
}

impl Focusable for CsrDashboard {
    open spec fn focus_wf(&self) -> bool {
        true
    }

    fn unfocus(&mut self)
        ensures
            !final(self).is_focused(),
            final(self).head() == old(self).head(),
    {
        self.focused = false;
    }

    fn focus_next(&mut self) -> (r: HasFocus)
        ensures
            final(self).is_focused() == !old(self).is_focused(),
            final(self).head() == old(self).head(),
            r == final(self).is_focused(),
    {
        self.focused = !self.focused;
        self.focused
    }

    fn focus_prev(&mut self) -> (r: HasFocus)
        ensures
            final(self).is_focused() == !old(self).is_focused(),
            final(self).head() == old(self).head(),
            r == final(self).is_focused(),
    {
        self.focused = !self.focused;
        self.focused
    }
}

} // verus!
