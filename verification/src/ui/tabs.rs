//! The tabs of the execution page, and the bar that switches between them.

use crate::ui::events::EventResult;
use crate::ui::focus::{Focus, Focusable, HasFocus};
use crate::ui::input::{key_press, pressed, InputEvent, KeyCode};
use vstd::prelude::*;

verus! {

/// A tab of the execution page, in the order the bar shows them.
#[derive(Clone, Copy, Debug, PartialEq, Eq, Structural)]
pub enum Tab {
    Dashboard,
    CSRs,
    Console,
}

/// The position of `tab` on the bar.
pub open spec fn tab_index(tab: Tab) -> nat {
    match tab {
        Tab::Dashboard => 0,
        Tab::CSRs => 1,
        Tab::Console => 2,
    }
}

/// The tab at position `index` of the bar, counted round.
pub open spec fn tab_at(index: int) -> Tab {
    let i = index % 3;
    if i == 0 {
        Tab::Dashboard
    } else if i == 1 {
        Tab::CSRs
    } else {
        Tab::Console
    }
}

impl Tab {
    /// The titles on the bar, in order.
    pub fn titles() -> (r: [&'static str; 3])
        ensures
            r@ == seq!["Dashboard", "CSRs", "Console"],
    {
        let r = ["Dashboard", "CSRs", "Console"];
        assert(r@ =~= seq!["Dashboard", "CSRs", "Console"]);
        r
    }

    /// The position of the tab on the bar.
    pub fn index(&self) -> (r: usize)
        ensures
            r == tab_index(*self),
    {
        match self {
            Tab::Dashboard => 0,
            Tab::CSRs => 1,
            Tab::Console => 2,
        }
    }
}

/// Tabs follow one another round the bar: after the last comes the first.
impl Focus for Tab {
    fn next(self) -> (r: Self)
        ensures
            r == tab_at(tab_index(self) + 1int),
    {
        match self {
            Tab::Dashboard => Tab::CSRs,
            Tab::CSRs => Tab::Console,
            Tab::Console => Tab::Dashboard,
        }
    }

    fn prev(self) -> (r: Self)
        ensures
            r == tab_at(tab_index(self) + 2int),
    {
        match self {
            Tab::Dashboard => Tab::Console,
            Tab::CSRs => Tab::Dashboard,
            Tab::Console => Tab::CSRs,
        }
    }
}

/// The keys the bar reacts to, with what they do.
pub open spec fn tabs_tips() -> Seq<(&'static str, &'static str)> {
    seq![("←→", "Switch Tab")]
}

/// The tab shown after `key` was pressed on the bar at `tab`: the one to the
/// left or right, where there is one; no other key switches.
pub open spec fn switched(tab: Tab, key: Option<KeyCode>) -> Option<Tab> {
    match key {
        Some(KeyCode::Left) => if tab != Tab::Dashboard {
            Some(tab_at(tab_index(tab) + 2int))
        } else {
            None
        },
        Some(KeyCode::Right) => if tab != Tab::Console {
            Some(tab_at(tab_index(tab) + 1int))
        } else {
            None
        },
        _ => None,
    }
}

/// The tab bar: the tab it shows, and whether it has the focus.
#[derive(Clone, Copy, Debug, PartialEq, Eq, Structural)]
pub struct ExecutionTabs {
    tab: Tab,
    focused: bool,
}

impl ExecutionTabs {
    /// The tab shown.
    pub closed spec fn tab(self) -> Tab {
        self.tab
    }

    /// Whether the bar has the focus.
    pub closed spec fn is_focused(self) -> bool {
        self.focused
    }

    /// A bar showing `tab`, without the focus.
    pub fn new(tab: Tab) -> (r: Self)
        ensures
            r.tab() == tab,
            !r.is_focused(),
    {
        ExecutionTabs { tab, focused: false }
    }

    /// Whether the bar has the focus.
    pub fn focused(&self) -> (r: bool)
        ensures
            r == self.is_focused(),
    {
        self.focused
    }

    /// The keys the bar reacts to, with what they do.
    pub fn help(&self) -> (r: Vec<(&'static str, &'static str)>)
        ensures
            r@ == tabs_tips(),
    {
        let r = vec![("←→", "Switch Tab")];
        assert(r@ =~= tabs_tips());
        r
    }

    /// Switches to the tab to the left on Left, or to the right on Right, and
    /// gives the tab now shown; at either end, and for every other event,
    /// nothing happens.
    pub fn handle_event(&mut self, event: InputEvent) -> (r: EventResult<Tab>)
        ensures
            final(self).is_focused() == old(self).is_focused(),
            match switched(old(self).tab(), pressed(event)) {
                Some(tab) => final(self).tab() == tab && r == EventResult::Handled(tab),
                None => final(self).tab() == old(self).tab() && r is Ignored,
            },
    {
        match key_press(&event) {
            Some(KeyCode::Left) => if self.tab != Tab::Dashboard {
                self.tab = self.tab.prev();
                EventResult::Handled(self.tab)
            } else {
                EventResult::default()
            },
            Some(KeyCode::Right) => if self.tab != Tab::Console {
                self.tab = self.tab.next();
                EventResult::Handled(self.tab)
            } else {
                EventResult::default()
            },
            _ => EventResult::default(),
        }
    }
}

impl Focusable for ExecutionTabs {
    open spec fn focus_wf(&self) -> bool {
        true
    }

    fn unfocus(&mut self)
        ensures
            !final(self).is_focused(),
            final(self).tab() == old(self).tab(),
    {
        self.focused = false;
    }

    fn focus_next(&mut self) -> (r: HasFocus)
        ensures
            final(self).is_focused() == !old(self).is_focused(),
            final(self).tab() == old(self).tab(),
            r == final(self).is_focused(),
    {
        self.focused = !self.focused;
        self.focused
    }

    fn focus_prev(&mut self) -> (r: HasFocus)
        ensures
            final(self).is_focused() == !old(self).is_focused(),
            final(self).tab() == old(self).tab(),
            r == final(self).is_focused(),
    {
        self.focused = !self.focused;
        self.focused
    }
}

} // verus!
