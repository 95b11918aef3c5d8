//! The front-end panel: the program counter, fetch and branch prediction.

use crate::ui::events::EventResult;
use crate::ui::focus::{Focusable, HasFocus};
use crate::ui::input::InputEvent;
use vstd::prelude::*;

verus! {

/// The rows of the two blocks of the front-end panel when `decode_width`
/// instructions are decoded each cycle: the top one at least five rows and
/// one more than the width, the bottom one three more than the width (the
/// width counted in `u16`).
pub open spec fn block_heights_of(decode_width: usize) -> (int, int) {
    let content = (decode_width as u16) as int;
    (if content + 1 >= 5 { content + 1 } else { 5 }, content + 3)
}

/// The front-end panel: it only shows, so all it has is the focus.
#[derive(Clone, Copy, Debug, PartialEq, Eq, Structural)]
pub struct FrontEnd {
    focused: bool,
}

impl Default for FrontEnd {
    fn default() -> (r: Self)
        ensures
            !r.is_focused(),
    {
        FrontEnd { focused: false }
    }
}

impl FrontEnd {
    /// Whether the panel has the focus.
    pub closed spec fn is_focused(self) -> bool {
        self.focused
    }

    /// Whether the panel has the focus.
    pub fn focused(&self) -> (r: bool)
        ensures
            r == self.is_focused(),
    {
        self.focused
    }

    /// The rows of the panel's two blocks.
    pub fn block_heights(decode_width: usize) -> (r: [u16; 2])
        requires
            (decode_width as u16) + 3 <= u16::MAX,
        ensures
            r[0] == block_heights_of(decode_width).0,
            r[1] == block_heights_of(decode_width).1,
    {
        let content_height = decode_width as u16;
        let top = if content_height + 1 >= 5 {
            content_height + 1
        } else {
            5
        };
        [top, content_height + 3]
    }

    /// The rows of the whole panel.
    pub fn height(decode_width: usize) -> (r: u16)
        requires
            block_heights_of(decode_width).0 + block_heights_of(decode_width).1 <= u16::MAX,
        ensures
            r == block_heights_of(decode_width).0 + block_heights_of(decode_width).1,
    {
        let heights = Self::block_heights(decode_width);
        heights[0] + heights[1]
    }

    /// The panel takes no input: every event is ignored.
    pub fn handle_event(&mut self, event: InputEvent) -> (r: EventResult<()>)
        ensures
            r is Ignored,
            *final(self) == *old(self),
    {
        EventResult::Ignored
    }
}

impl Focusable for FrontEnd {
    open spec fn focus_wf(&self) -> bool {
        true
    }

    fn unfocus(&mut self)
        ensures
            !final(self).is_focused(),
    {
        self.focused = false;
    }

    fn focus_next(&mut self) -> (r: HasFocus)
        ensures
            final(self).is_focused() == !old(self).is_focused(),
            r == final(self).is_focused(),
    {
        self.focused = !self.focused;
        self.focused
    }

    fn focus_prev(&mut self) -> (r: HasFocus)
        ensures
            final(self).is_focused() == !old(self).is_focused(),
            r == final(self).is_focused(),
    {
        self.focused = !self.focused;
        self.focused
    }
}

} // verus!
