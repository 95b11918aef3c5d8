//! A list that scrolls one entry at a time with the arrow keys.

use crate::ui::events::EventResult;
use crate::ui::focus::{Focusable, HasFocus};
use crate::ui::input::{key_press, pressed, InputEvent, KeyCode};
use vstd::prelude::*;

verus! {

/// `a - b`, or 0 where that would be negative.
pub open spec fn sat_sub(a: int, b: int) -> int {
    if a >= b {
        a - b
    } else {
        0
    }
}

/// `a + b`, or `usize::MAX` where that would not fit in a `usize`.
pub open spec fn sat_add(a: int, b: int) -> int {
    if a + b <= usize::MAX {
        a + b
    } else {
        usize::MAX as int
    }
}

/// The first entry shown once `count` rows are shown of `len` entries: the
/// same as before, unless that would leave rows past the last entry, in which
/// case the last `count` entries (or all of them, from the first).
pub open spec fn fitted_head(head: int, count: int, len: int) -> int {
    if sat_add(head, count) > len {
        sat_sub(len, count)
    } else {
        head
    }
}

/// The first entry shown after `key` was pressed on a list that scrolls up and
/// down: one up, one down, to the start, or to the end (fitted at the next
/// drawing); no other key scrolls.
pub open spec fn scrolled_vertically(head: int, key: Option<KeyCode>) -> Option<int> {
    match key {
        Some(KeyCode::Up) => Some(sat_sub(head, 1)),
        Some(KeyCode::Down) => Some(sat_add(head, 1)),
        Some(KeyCode::Home) => Some(0),
        Some(KeyCode::End) => Some(usize::MAX as int),
        _ => None,
    }
}

/// The first entry to show once `count` rows are shown of `len` entries.
pub fn fit_head(head: usize, count: usize, len: usize) -> (r: usize)
    ensures
        r == fitted_head(head as int, count as int, len as int),
{
    if head.saturating_add(count) > len {
        len.saturating_sub(count)
    } else {
        head
    }
}

/// A scrolling list: the first entry it shows, and whether it has the focus.
#[derive(Clone, Copy, Debug, PartialEq, Eq, Structural)]
pub struct Scrolling {
    head: usize,
    focused: bool,
}

/// The decode queue: a scrolling list of the decoded instructions.
pub type DecodeQueue = Scrolling;

/// The reorder buffer: a scrolling list of its entries.
pub type Rob = Scrolling;

/// The load queue: a scrolling list of its entries.
pub type LoadQueue = Scrolling;

/// One reservation station: a scrolling list of its entries.
pub type Scheduler = Scrolling;

/// The rows the decode queue takes at full size: its border and three rows
/// for every four entries of `size`, counted in `u16`.
pub fn decode_queue_height(size: usize) -> (r: u16)
    ensures
        r == 2 + (size as u16) / 4 * 3,
{
    let entries = size as u16;
    2 + entries / 4 * 3
}

impl Default for Scrolling {
    fn default() -> (r: Self)
        ensures
            r.head() == 0,
            !r.is_focused(),
    {
        Scrolling { head: 0, focused: false }
    }
}

impl Scrolling {
    /// The first entry shown.
    pub closed spec fn head(self) -> usize {
        self.head
    }

    /// Whether the list has the focus.
    pub closed spec fn is_focused(self) -> bool {
        self.focused
    }

    /// The first entry shown.
    pub fn first_shown(&self) -> (r: usize)
        ensures
            r == self.head(),
    {
        self.head
    }

    /// Whether the list has the focus.
    pub fn focused(&self) -> (r: bool)
        ensures
            r == self.is_focused(),
    {
        self.focused
    }

    /// Fits the list to `count` rows of `len` entries before it is drawn, and
    /// gives the first entry to draw.
    pub fn fit(&mut self, count: usize, len: usize) -> (r: usize)
        ensures
            final(self).head() == fitted_head(old(self).head() as int, count as int, len as int),
            final(self).is_focused() == old(self).is_focused(),
            r == final(self).head(),
    {
        self.head = fit_head(self.head, count, len);
        self.head
    }

    /// Scrolls on Up, Down, Home and End; ignores every other event.
    pub fn handle_event(&mut self, event: InputEvent) -> (r: EventResult<()>)
        ensures
            final(self).is_focused() == old(self).is_focused(),
            match scrolled_vertically(old(self).head() as int, pressed(event)) {
                Some(head) => r is Handled && final(self).head() == head,
                None => r is Ignored && final(self).head() == old(self).head(),
            },
    {
        match key_press(&event) {
            Some(KeyCode::Up) => {
                self.head = self.head.saturating_sub(1);
                EventResult::Handled(())
            },
            Some(KeyCode::Down) => {
                self.head = self.head.saturating_add(1);
                EventResult::Handled(())
            },
            Some(KeyCode::Home) => {
                self.head = 0;
                EventResult::Handled(())
            },
            Some(KeyCode::End) => {
                self.head = usize::MAX;
                EventResult::Handled(())
            },
            _ => EventResult::Ignored,
        }
    }
}

impl Focusable for Scrolling {
    open spec fn focus_wf(&self) -> bool {
        true
    }

    fn unfocus(&mut self)
        ensures
            !final(self).is_focused(),
            final(self).head() == old(self).head(),
    {
        self.focused = false;
    }

    fn focus_next(&mut self) -> (r: HasFocus)
        ensures
            final(self).is_focused() == !old(self).is_focused(),
            final(self).head() == old(self).head(),
            r == final(self).is_focused(),
    {
        self.focused = !self.focused;
        self.focused
    }

    fn focus_prev(&mut self) -> (r: HasFocus)
        ensures
            final(self).is_focused() == !old(self).is_focused(),
            final(self).head() == old(self).head(),
            r == final(self).is_focused(),
    {
        self.focused = !self.focused;
        self.focused
    }
}

} // verus!
