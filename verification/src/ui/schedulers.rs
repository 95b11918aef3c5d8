//! The row of reservation stations, one of which is selected.

use crate::ui::events::EventResult;
use crate::ui::focus::{Focus, Focusable, HasFocus};
use crate::ui::input::{key_press, pressed, InputEvent, KeyCode};
use crate::ui::scrolling::{fitted_head, sat_add, sat_sub, scrolled_vertically, Scheduler};
use crate::ui::selected::{next_index, prev_index, Selected};
use std::ops::Range;
use vstd::prelude::*;

verus! {

/// The columns a reservation station needs at least.
pub const SCHEDULER_MIN_WIDTH: u16 = 29;

/// The window of stations shown once station `selected` was selected going
/// right: moved one to the right if the station is past its end.
pub open spec fn window_after_next(start: int, end: int, selected: int) -> (int, int) {
    if selected >= end {
        (sat_add(start, 1), sat_add(end, 1))
    } else {
        (start, end)
    }
}

/// The window of stations shown once station `selected` was selected going
/// left: moved one to the left if the station is before its start.
pub open spec fn window_after_prev(start: int, end: int, selected: int) -> (int, int) {
    if selected < start {
        (sat_sub(start, 1), sat_sub(end, 1))
    } else {
        (start, end)
    }
}

/// Where the selection moves when `key` was pressed and the selected station
/// did not take it: one left, one right, to the first or to the last, where
/// that is another station; `None` where it stays.
pub open spec fn selection_move(count: nat, selected: nat, key: Option<KeyCode>) -> Option<nat> {
    match key {
        Some(KeyCode::Left) => if selected > 0 {
            Some(prev_index(selected))
        } else {
            None
        },
        Some(KeyCode::Right) => if selected + 1 < count {
            Some(next_index(count, selected))
        } else {
            None
        },
        Some(KeyCode::Home) => if selected > 0 {
            Some(0nat)
        } else {
            None
        },
        Some(KeyCode::End) => if selected + 1 < count {
            Some((count - 1) as nat)
        } else {
            None
        },
        _ => None,
    }
}

/// A copy of `lists` with the list at `index` replaced by `list`.
fn with_list(lists: &Vec<Scheduler>, index: usize, list: Scheduler) -> (r: Vec<Scheduler>)
    requires
        index < lists@.len(),
    ensures
        r@ == lists@.update(index as int, list),
{
    let mut r: Vec<Scheduler> = Vec::new();
    let mut i: usize = 0;
    while i < lists.len()
        invariant
            i <= lists@.len(),
            index < lists@.len(),
            r@ == lists@.update(index as int, list).take(i as int),
        decreases lists.len() - i,
    {
        if i == index {
            r.push(list);
        } else {
            r.push(lists[i]);
        }
        proof {
            assert(r@ =~= lists@.update(index as int, list).take(i + 1));
        }
        i = i + 1;
    }
    proof {
        assert(r@ =~= lists@.update(index as int, list));
    }
    r
}

/// The reservation stations: each one's list, which of them is selected, the
/// window of them shown, and whether the row has the focus.
pub struct Schedulers {
    schedulers: Vec<Scheduler>,
    selected: Selected,
    visible: Range<usize>,
    focused: bool,
}

impl Schedulers {
    /// The stations' lists.
    pub closed spec fn lists(self) -> Seq<Scheduler> {
        self.schedulers@
    }

    /// The selected station.
    pub closed spec fn selected(self) -> nat {
        self.selected.index()
    }

    /// The first station shown.
    pub closed spec fn visible_start(self) -> usize {
        self.visible.start
    }

    /// One past the last station shown.
    pub closed spec fn visible_end(self) -> usize {
        self.visible.end
    }

    /// Whether the row has the focus.
    pub closed spec fn is_focused(self) -> bool {
        self.focused
    }

    /// There is one list per station, the selection is one of them, and no
    /// list but the selected one has the focus.
    #[verifier::type_invariant]
    spec fn wf(self) -> bool {
        &&& self.schedulers@.len() == self.selected.count()
        &&& self.selected.index() < self.selected.count()
        &&& forall|i: int|
            0 <= i < self.schedulers@.len() && i != self.selected.index()
                ==> !(#[trigger] self.schedulers@[i]).is_focused()
    }

    /// The selected list has the focus exactly when the row has it.
    pub closed spec fn in_sync(self) -> bool {
        self.schedulers@[self.selected.index() as int].is_focused() == self.focused
    }

    /// `count` stations, the first selected, none shown yet, without the
    /// focus.
    pub fn new(count: usize) -> (r: Self)
        requires
            count > 0,
        ensures
            r.in_sync(),
            r.lists().len() == count,
            forall|i: int|
                0 <= i < count ==> (#[trigger] r.lists()[i]).head() == 0 && !r.lists()[i].is_focused(),
            r.selected() == 0,
            r.visible_start() == 0,
            r.visible_end() == 0,
            !r.is_focused(),
    {
        let mut schedulers: Vec<Scheduler> = Vec::new();
        let mut i: usize = 0;
        while i < count
            invariant
                i <= count,
                schedulers@.len() == i,
                forall|j: int|
                    0 <= j < i ==> (#[trigger] schedulers@[j]).head() == 0
                        && !schedulers@[j].is_focused(),
            decreases count - i,
        {
            schedulers.push(Scheduler::default());
            i = i + 1;
        }
        let selected = Selected::new(count);
        Schedulers { schedulers, selected, visible: 0..0, focused: false }
    }

    /// How many stations there are.
    pub fn count(&self) -> (r: usize)
        ensures
            r == self.lists().len(),
    {
        self.schedulers.len()
    }

    /// The selected station.
    pub fn selected_index(&self) -> (r: usize)
        ensures
            r == self.selected(),
            r < self.lists().len(),
    {
        proof {
            use_type_invariant(self);
        }
        self.selected.get()
    }

    /// The list of station `index`.
    pub fn scheduler(&self, index: usize) -> (r: Scheduler)
        requires
            index < self.lists().len(),
        ensures
            r == self.lists()[index as int],
    {
        self.schedulers[index]
    }

    /// The window of stations shown.
    pub fn visible(&self) -> (r: Range<usize>)
        ensures
            r.start == self.visible_start(),
            r.end == self.visible_end(),
    {
        self.visible.start..self.visible.end
    }

    /// Whether the row has the focus.
    pub fn focused(&self) -> (r: bool)
        ensures
            r == self.is_focused(),
    {
        self.focused
    }

    /// Shows `count` stations from the first one shown, when the window does
    /// not hold that many already.
    pub fn fit_visible(&mut self, count: usize)
        requires
            old(self).visible_start() + count <= usize::MAX,
        ensures
            final(self).visible_start() == old(self).visible_start(),
            final(self).visible_end() == if sat_sub(
                old(self).visible_end() as int,
                old(self).visible_start() as int,
            ) != count {
                old(self).visible_start() + count
            } else {
                old(self).visible_end() as int
            },
            final(self).lists() == old(self).lists(),
            final(self).selected() == old(self).selected(),
            final(self).is_focused() == old(self).is_focused(),
            final(self).in_sync() == old(self).in_sync(),
    {
        proof {
            use_type_invariant(&*self);
        }
        let shown = self.visible.end.saturating_sub(self.visible.start);
        if shown != count {
            self.visible = self.visible.start..self.visible.start + count;
        }
    }

    /// Fits the list of station `index` to `count` rows of `len` entries
    /// before it is drawn, and gives the first entry to draw.
    pub fn fit_scheduler(&mut self, index: usize, count: usize, len: usize) -> (r: usize)
        requires
            index < old(self).lists().len(),
        ensures
            final(self).in_sync() == old(self).in_sync(),
            final(self).lists() == old(self).lists().update(
                index as int,
                final(self).lists()[index as int],
            ),
            final(self).lists()[index as int].head() == fitted_head(
                old(self).lists()[index as int].head() as int,
                count as int,
                len as int,
            ),
            final(self).lists()[index as int].is_focused() == old(self).lists()[index as int].is_focused(),
            r == final(self).lists()[index as int].head(),
            final(self).selected() == old(self).selected(),
            final(self).visible_start() == old(self).visible_start(),
            final(self).visible_end() == old(self).visible_end(),
            final(self).is_focused() == old(self).is_focused(),
    {
        proof {
            use_type_invariant(&*self);
        }
        let mut scheduler = self.schedulers[index];
        let r = scheduler.fit(count, len);
        self.schedulers = with_list(&self.schedulers, index, scheduler);
        r
    }

    /// Moves the focus from the selected station to the one of `next`, and
    /// moves the window right if that one is past it.
    fn focus_new_next(&mut self, next: Selected)
        requires
            next.count() == old(self).selected.count(),
        ensures
            final(self).selected == next,
            final(self).schedulers@[next.index() as int].is_focused(),
            forall|i: int|
                0 <= i < old(self).schedulers@.len() ==> (#[trigger] final(self).schedulers@[i]).head()
                    == old(self).schedulers@[i].head(),
            final(self).schedulers@.len() == old(self).schedulers@.len(),
            (final(self).visible.start as int, final(self).visible.end as int) == window_after_next(
                old(self).visible.start as int,
                old(self).visible.end as int,
                next.index() as int,
            ),
            final(self).focused == old(self).focused,
    {
        proof {
            use_type_invariant(&*self);
            use_type_invariant(&next);
        }
        let old_index = self.selected.get();
        let mut current = self.schedulers[old_index];
        current.unfocus();
        self.schedulers = with_list(&self.schedulers, old_index, current);
        self.selected = next;
        let selected = self.selected.get();
        let mut new = self.schedulers[selected];
        new.focus_next();
        self.schedulers = with_list(&self.schedulers, selected, new);
        if selected >= self.visible.end {
            self.visible = self.visible.start.saturating_add(1)..self.visible.end.saturating_add(1);
        }
    }

    /// Moves the focus from the selected station to the one of `prev`, and
    /// moves the window left if that one is before it.
    fn focus_new_prev(&mut self, prev: Selected)
        requires
            prev.count() == old(self).selected.count(),
        ensures
            final(self).selected == prev,
            final(self).schedulers@[prev.index() as int].is_focused(),
            forall|i: int|
                0 <= i < old(self).schedulers@.len() ==> (#[trigger] final(self).schedulers@[i]).head()
                    == old(self).schedulers@[i].head(),
            final(self).schedulers@.len() == old(self).schedulers@.len(),
            (final(self).visible.start as int, final(self).visible.end as int) == window_after_prev(
                old(self).visible.start as int,
                old(self).visible.end as int,
                prev.index() as int,
            ),
            final(self).focused == old(self).focused,
    {
        proof {
            use_type_invariant(&*self);
            use_type_invariant(&prev);
        }
        let old_index = self.selected.get();
        let mut current = self.schedulers[old_index];
        current.unfocus();
        self.schedulers = with_list(&self.schedulers, old_index, current);
        self.selected = prev;
        let selected = self.selected.get();
        let mut new = self.schedulers[selected];
        new.focus_next();
        self.schedulers = with_list(&self.schedulers, selected, new);
        if selected < self.visible.start {
            self.visible = self.visible.start.saturating_sub(1)..self.visible.end.saturating_sub(1);
        }
    }

    /// Whether the row takes `event`: the selected station's list scrolls,
    /// or another station gets selected.
    pub open spec fn takes(self, event: InputEvent) -> bool {
        let sel = self.selected() as int;
        let key = pressed(event);
        ||| scrolled_vertically(self.lists()[sel].head() as int, key) is Some
        ||| selection_move(self.lists().len(), self.selected(), key) is Some
    }

    /// What `event` does to the row `self`, giving `new`: the selected
    /// station's list scrolls where it takes the event; where it does not,
    /// another station may be selected, take the focus, and bring the window
    /// along; otherwise nothing changes.
    pub open spec fn event_effect(self, new: Schedulers, event: InputEvent) -> bool {
        let sel = self.selected() as int;
        let key = pressed(event);
        &&& new.is_focused() == self.is_focused()
        &&& new.lists().len() == self.lists().len()
        &&& match scrolled_vertically(self.lists()[sel].head() as int, key) {
            Some(head) => {
                &&& new.lists() == self.lists().update(sel, new.lists()[sel])
                &&& new.lists()[sel].head() == head
                &&& new.lists()[sel].is_focused() == self.lists()[sel].is_focused()
                &&& new.selected() == self.selected()
                &&& new.visible_start() == self.visible_start()
                &&& new.visible_end() == self.visible_end()
            },
            None => match selection_move(self.lists().len(), self.selected(), key) {
                Some(n) => {
                    let (start, end) = if key == Some(KeyCode::Left) || key == Some(KeyCode::Home) {
                        window_after_prev(
                            self.visible_start() as int,
                            self.visible_end() as int,
                            n as int,
                        )
                    } else {
                        window_after_next(
                            self.visible_start() as int,
                            self.visible_end() as int,
                            n as int,
                        )
                    };
                    &&& new.selected() == n
                    &&& new.lists()[n as int].is_focused()
                    &&& forall|i: int|
                        0 <= i < self.lists().len() ==> (#[trigger] new.lists()[i]).head()
                            == self.lists()[i].head()
                    &&& forall|i: int|
                        0 <= i < self.lists().len() && i != n ==> !(
                        #[trigger] new.lists()[i]).is_focused()
                    &&& new.visible_start() == start
                    &&& new.visible_end() == end
                },
                None => {
                    &&& new.lists() == self.lists()
                    &&& new.selected() == self.selected()
                    &&& new.visible_start() == self.visible_start()
                    &&& new.visible_end() == self.visible_end()
                },
            },
        }
    }

    /// Passes the event to the selected station's list; where that list does
    /// not take it, Left and Right (and Home and End) select another station
    /// and move the focus to it.
    pub fn handle_event(&mut self, event: InputEvent) -> (r: EventResult<()>)
        ensures
            r is Handled || r is Ignored,
            (r is Handled) == old(self).takes(event),
            old(self).event_effect(*final(self), event),
            old(self).in_sync() && old(self).is_focused() ==> final(self).in_sync(),
    {
        proof {
            use_type_invariant(&*self);
        }
        let count = self.schedulers.len();
        let selected = self.selected.get();
        let mut list = self.schedulers[selected];
        let result = list.handle_event(event);
        match result {
            EventResult::Ignored => {
                match key_press(&event) {
                    Some(KeyCode::Left) => if selected > 0 {
                        let prev = self.selected.prev();
                        self.focus_new_prev(prev);
                        proof {
                            use_type_invariant(&*self);
                        }
                        return EventResult::Handled(());
                    },
                    Some(KeyCode::Right) => if selected < count - 1 {
                        let next = self.selected.next();
                        self.focus_new_next(next);
                        proof {
                            use_type_invariant(&*self);
                        }
                        return EventResult::Handled(());
                    },
                    Some(KeyCode::Home) => if selected > 0 {
                        let first = self.selected.first();
                        self.focus_new_prev(first);
                        proof {
                            use_type_invariant(&*self);
                        }
                        return EventResult::Handled(());
                    },
                    Some(KeyCode::End) => if selected < count - 1 {
                        let last = self.selected.last();
                        self.focus_new_next(last);
                        proof {
                            use_type_invariant(&*self);
                        }
                        return EventResult::Handled(());
                    },
                    _ => {},
                }
                EventResult::Ignored
            },
            _ => {
                self.schedulers = with_list(&self.schedulers, selected, list);
                result
            },
        }
    }
}

impl Focusable for Schedulers {
    /// The selected list has the focus exactly when the row has it.
    open spec fn focus_wf(&self) -> bool {
        self.in_sync()
    }

    fn unfocus(&mut self)
        ensures
            !final(self).is_focused(),
            final(self).in_sync(),
            final(self).lists().len() == old(self).lists().len(),
            forall|i: int|
                0 <= i < old(self).lists().len() ==> (#[trigger] final(self).lists()[i]).head()
                    == old(self).lists()[i].head() && !final(self).lists()[i].is_focused(),
            final(self).selected() == old(self).selected(),
            final(self).visible_start() == old(self).visible_start(),
            final(self).visible_end() == old(self).visible_end(),
    {
        proof {
            use_type_invariant(&*self);
        }
        let selected = self.selected.get();
        let mut list = self.schedulers[selected];
        list.unfocus();
        self.schedulers = with_list(&self.schedulers, selected, list);
        self.focused = false;
        proof {
            use_type_invariant(&*self);
        }
    }

    fn focus_next(&mut self) -> (r: HasFocus)
        ensures
            final(self).is_focused() == !old(self).is_focused(),
            r == final(self).is_focused(),
            old(self).in_sync() ==> final(self).in_sync(),
            final(self).lists().len() == old(self).lists().len(),
            forall|i: int|
                0 <= i < old(self).lists().len() ==> (#[trigger] final(self).lists()[i]).head()
                    == old(self).lists()[i].head(),
            final(self).selected() == old(self).selected(),
            final(self).visible_start() == old(self).visible_start(),
            final(self).visible_end() == old(self).visible_end(),
    {
        proof {
            use_type_invariant(&*self);
        }
        let selected = self.selected.get();
        let mut list = self.schedulers[selected];
        let focused = if self.focused {
            list.unfocus();
            false
        } else {
            list.focus_next();
            true
        };
        self.schedulers = with_list(&self.schedulers, selected, list);
        self.focused = focused;
        self.focused
    }

    fn focus_prev(&mut self) -> (r: HasFocus)
        ensures
            final(self).is_focused() == !old(self).is_focused(),
            r == final(self).is_focused(),
            old(self).in_sync() ==> final(self).in_sync(),
            final(self).lists().len() == old(self).lists().len(),
            forall|i: int|
                0 <= i < old(self).lists().len() ==> (#[trigger] final(self).lists()[i]).head()
                    == old(self).lists()[i].head(),
            final(self).selected() == old(self).selected(),
            final(self).visible_start() == old(self).visible_start(),
            final(self).visible_end() == old(self).visible_end(),
    {
        proof {
            use_type_invariant(&*self);
        }
        let selected = self.selected.get();
        let mut list = self.schedulers[selected];
        let focused = if self.focused {
            list.unfocus();
            false
        } else {
            list.focus_next();
            true
        };
        self.schedulers = with_list(&self.schedulers, selected, list);
        self.focused = focused;
        self.focused
    }
}

} // verus!
