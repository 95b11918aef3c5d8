//! A row of registers that scrolls sideways with the arrow keys.

use crate::ui::events::EventResult;
use crate::ui::focus::{Focusable, HasFocus};
use crate::ui::input::{key_press, pressed, InputEvent, KeyCode};
use crate::ui::scrolling::{fit_head, fitted_head, sat_add, sat_sub};
use vstd::prelude::*;

verus! {

/// The columns a register takes, without the gap after it.
pub const ITEM_WIDTH: u16 = 6;

/// The gap between two register columns.
pub const ITEM_SPACING: u16 = 2;

/// A register column with the gap after it.
pub const ITEM_WITH_SPACING: u16 = 8;

/// The first register shown after `key` was pressed on a row that scrolls
/// sideways: one left, one right, to the start, or to the end (fitted at the
/// next drawing); no other key scrolls.
pub open spec fn scrolled_sideways(head: int, key: Option<KeyCode>) -> Option<int> {
    match key {
        Some(KeyCode::Left) => Some(sat_sub(head, 1)),
        Some(KeyCode::Right) => Some(sat_add(head, 1)),
        Some(KeyCode::Home) => Some(0),
        Some(KeyCode::End) => Some(usize::MAX as int),
        _ => None,
    }
}

/// How many registers fit in `width` columns, where the last needs no gap
/// after it, and the columns left over after them and their gaps.
pub fn register_columns(width: u16) -> (r: (u16, u16))
    requires
        width + ITEM_SPACING <= u16::MAX,
    ensures
        r.0 == (width + ITEM_SPACING) / (ITEM_WITH_SPACING as int),
        r.1 == sat_sub(width as int, r.0 * ITEM_WITH_SPACING),
{
    let count = (width + ITEM_SPACING) / ITEM_WITH_SPACING;
    assert(count * ITEM_WITH_SPACING <= width + ITEM_SPACING) by (nonlinear_arith)
        requires
            count == (width + 2) / 8,
    ;
    let last_width = width.saturating_sub(count * ITEM_WITH_SPACING);
    (count, last_width)
}

/// A row of registers: the first one it shows, and whether it has the focus.
#[derive(Clone, Copy, Debug, PartialEq, Eq, Structural)]
pub struct Regs {
    head: usize,
    focused: bool,
}

/// The register file, shown as a row of registers.
pub type RegFile = Regs;

/// The future file, shown as a row of registers.
pub type FutureFile = Regs;

/// The rows the register file takes.
pub const REG_FILE_HEIGHT: u16 = 4;

/// The rows the future file takes.
pub const FUTURE_FILE_HEIGHT: u16 = 5;

impl Default for Regs {
    fn default() -> (r: Self)
        ensures
            r.head() == 0,
            !r.is_focused(),
    {
        Regs { head: 0, focused: false }
    }
}

impl Regs {
    /// The first register shown.
    pub closed spec fn head(self) -> usize {
        self.head
    }

    /// Whether the row has the focus.
    pub closed spec fn is_focused(self) -> bool {
        self.focused
    }

    /// The first register shown.
    pub fn first_shown(&self) -> (r: usize)
        ensures
            r == self.head(),
    {
        self.head
    }

    /// Whether the row has the focus.
    pub fn focused(&self) -> (r: bool)
        ensures
            r == self.is_focused(),
    {
        self.focused
    }

    /// Fits the row to `count` registers of `len` before it is drawn, and
    /// gives the first register to draw.
    pub fn fit(&mut self, count: usize, len: usize) -> (r: usize)
        ensures
            final(self).head() == fitted_head(old(self).head() as int, count as int, len as int),
            final(self).is_focused() == old(self).is_focused(),
            r == final(self).head(),
    {
        self.head = fit_head(self.head, count, len);
        self.head
    }

    /// Scrolls on Left, Right, Home and End; ignores every other event.
    pub fn handle_event(&mut self, event: InputEvent) -> (r: EventResult<()>)
        ensures
            final(self).is_focused() == old(self).is_focused(),
            match scrolled_sideways(old(self).head() as int, pressed(event)) {
                Some(head) => r is Handled && final(self).head() == head,
                None => r is Ignored && final(self).head() == old(self).head(),
            },
    {
        match key_press(&event) {
            Some(KeyCode::Left) => {
                self.head = self.head.saturating_sub(1);
                return EventResult::Handled(());
            },
            Some(KeyCode::Right) => {
                self.head = self.head.saturating_add(1);
                return EventResult::Handled(());
            },
            Some(KeyCode::Home) => {
                self.head = 0;
                return EventResult::Handled(());
            },
            Some(KeyCode::End) => {
                self.head = usize::MAX;
                return EventResult::Handled(());
            },
            _ => {},
        }
        EventResult::Ignored
    }
}

impl Focusable for Regs {
    open spec fn focus_wf(&self) -> bool {
        true
    }

    fn unfocus(&mut self)
        ensures
            !final(self).is_focused(),
            final(self).head() == old(self).head(),
    {
        self.focused = false;
    }

    fn focus_next(&mut self) -> (r: HasFocus)
        ensures
            final(self).is_focused() == !old(self).is_focused(),
            final(self).head() == old(self).head(),
            r == final(self).is_focused(),
    {
        self.focused = !self.focused;
        self.focused
    }

    fn focus_prev(&mut self) -> (r: HasFocus)
        ensures
            final(self).is_focused() == !old(self).is_focused(),
            final(self).head() == old(self).head(),
            r == final(self).is_focused(),
    {
        self.focused = !self.focused;
        self.focused
    }
}

} // verus!
