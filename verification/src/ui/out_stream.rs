//! A panel that shows the end of an output stream and scrolls back through it.

use crate::ui::events::EventResult;
use crate::ui::focus::{Focusable, HasFocus};
use crate::ui::input::{key_press, pressed, InputEvent, KeyCode};
use crate::ui::scrolling::{sat_add, sat_sub};
use crate::ui::streams::string_push;
use vstd::string::*;
use vstd::prelude::*;

verus! {

/// How many lines from the end the panel is scrolled back after `key` was
/// pressed: one further back on Up, one nearer the end on Down, to the end on
/// Home; no other key scrolls.
pub open spec fn scrolled_back(head: int, key: Option<KeyCode>) -> Option<int> {
    match key {
        Some(KeyCode::Up) => Some(sat_add(head, 1)),
        Some(KeyCode::Down) => Some(sat_sub(head, 1)),
        Some(KeyCode::Home) => Some(0),
        _ => None,
    }
}

/// How far back the panel is scrolled once it shows `height` rows of `lines`
/// lines: one step nearer the end whenever the lines from there back would
/// not fill the rows.
pub open spec fn fitted_back(head: int, height: int, lines: int) -> int {
    if sat_sub(lines, head) < height {
        sat_sub(head, 1)
    } else {
        head
    }
}

/// An output stream panel: its title, how many lines from the end it is
/// scrolled back, and whether it has the focus.
pub struct OutStream {
    title: &'static str,
    head: usize,
    focused: bool,
}

impl OutStream {
    /// How many lines from the end the panel is scrolled back.
    pub closed spec fn head(self) -> usize {
        self.head
    }

    /// Whether the panel has the focus.
    pub closed spec fn is_focused(self) -> bool {
        self.focused
    }

    /// The panel's title.
    pub closed spec fn spec_title(self) -> &'static str {
        self.title
    }

    /// A panel titled `title`, at the end of the stream, without the focus.
    pub fn new(title: &'static str) -> (r: Self)
        ensures
            r.spec_title() == title,
            r.head() == 0,
            !r.is_focused(),
    {
        OutStream { title, head: 0, focused: false }
    }

    /// The panel's title.
    pub fn title(&self) -> (r: &'static str)
        ensures
            r == self.spec_title(),
    {
        self.title
    }

    /// How many lines from the end the panel is scrolled back.
    pub fn scrolled(&self) -> (r: usize)
        ensures
            r == self.head(),
    {
        self.head
    }

    /// Whether the panel has the focus.
    pub fn focused(&self) -> (r: bool)
        ensures
            r == self.is_focused(),
    {
        self.focused
    }

    /// Fits the panel to `height` rows of a stream of `lines` lines before it
    /// is drawn, and gives how many lines from the end to start drawing.
    pub fn fit(&mut self, height: usize, lines: usize) -> (r: usize)
        ensures
            final(self).head() == fitted_back(old(self).head() as int, height as int, lines as int),
            final(self).is_focused() == old(self).is_focused(),
            final(self).spec_title() == old(self).spec_title(),
            r == final(self).head(),
    {
        if lines.saturating_sub(self.head) < height {
            self.head = self.head.saturating_sub(1);
        }
        self.head
    }

    /// Scrolls on Up, Down and Home; ignores every other event.
    pub fn handle_event(&mut self, event: InputEvent) -> (r: EventResult<()>)
        ensures
            final(self).is_focused() == old(self).is_focused(),
            final(self).spec_title() == old(self).spec_title(),
            match scrolled_back(old(self).head() as int, pressed(event)) {
                Some(head) => r is Handled && final(self).head() == head,
                None => r is Ignored && final(self).head() == old(self).head(),
            },
    {
        match key_press(&event) {
            Some(KeyCode::Up) => {
                self.head = self.head.saturating_add(1);
                EventResult::Handled(())
            },
            Some(KeyCode::Down) => {
                self.head = self.head.saturating_sub(1);
                EventResult::Handled(())
            },
            Some(KeyCode::Home) => {
                self.head = 0;
                EventResult::Handled(())
            },
            _ => EventResult::default(),
        }
    }
}

impl Focusable for OutStream {
    open spec fn focus_wf(&self) -> bool {
        true
    }

    /// Sets the panel's focus mark: giving up the focus leaves this panel
    /// marked as focused (the mark is set, not cleared).
    fn unfocus(&mut self)
        ensures
            final(self).is_focused(),
            final(self).head() == old(self).head(),
            final(self).spec_title() == old(self).spec_title(),
    {
        self.focused = true;
    }

    fn focus_next(&mut self) -> (r: HasFocus)
        ensures
            final(self).is_focused() == !old(self).is_focused(),
            final(self).head() == old(self).head(),
            final(self).spec_title() == old(self).spec_title(),
            r == final(self).is_focused(),
    {
        self.focused = !self.focused;
        self.focused
    }

    fn focus_prev(&mut self) -> (r: HasFocus)
        ensures
            final(self).is_focused() == !old(self).is_focused(),
            final(self).head() == old(self).head(),
            final(self).spec_title() == old(self).spec_title(),
            r == final(self).is_focused(),
    {
        self.focused = !self.focused;
        self.focused
    }
}

} // verus!

verus! {

/// The lines of `text`, each with the line break that ends it; the last line
/// has none where the text does not end with one. No line is empty.
pub open spec fn text_lines(text: Seq<char>) -> Seq<Seq<char>>
    decreases text.len(),
{
    if text.len() == 0 {
        Seq::empty()
    } else {
        let rest = text_lines(text.drop_last());
        let c = text.last();
        if rest.len() == 0 || rest.last().last() == '\n' {
            rest.push(seq![c])
        } else {
            rest.drop_last().push(rest.last().push(c))
        }
    }
}

/// Splits `text` into its lines, each with the line break that ends it.
pub fn split_lines(text: &str) -> (r: Vec<String>)
    ensures
        r@.map_values(|line: String| line@) == text_lines(text@),
{
    let mut done: Vec<String> = Vec::new();
    let mut current = String::new();
    let ghost mut seen: Seq<char> = Seq::empty();
    for c in it: text.chars()
        invariant
            it.seq() == text@,
            seen == text@.take(it.index() as int),
            text_lines(seen) == done@.map_values(|line: String| line@)
                + if current@.len() == 0 {
                Seq::<Seq<char>>::empty()
            } else {
                seq![current@]
            },
            forall|i: int|
                0 <= i < done@.len() ==> (#[trigger] done@[i])@.len() > 0 && done@[i]@.last()
                    == '\n',
            forall|i: int| 0 <= i < current@.len() ==> current@[i] != '\n',
    {
        let ghost prefix = seen;
        let ghost lines0 = done@.map_values(|line: String| line@);
        let ghost cur0 = current@;
        let ghost old_last = if done@.len() > 0 {
            done@.last()@
        } else {
            Seq::empty()
        };
        proof {
            assert(text@.take(it.index() + 1).drop_last() =~= prefix);
        }
        string_push(&mut current, c);
        if c == '\n' {
            done.push(current);
            current = String::new();
        }
        proof {
            let next = text@.take(it.index() + 1);
            assert(next.last() == c);
            assert(next.drop_last() =~= prefix);
            let rest = text_lines(prefix);
            if c == '\n' {
                assert(done@.map_values(|line: String| line@) =~= lines0.push(cur0.push(c)));
            } else {
                assert(done@.map_values(|line: String| line@) =~= lines0);
                assert(current@ =~= cur0.push(c));
            }
            if cur0.len() == 0 {
                assert(rest =~= lines0);
                if rest.len() > 0 {
                    assert(rest.last() == old_last);
                }
                assert(text_lines(next) == lines0.push(seq![c]));
                assert(cur0.push(c) =~= seq![c]);
            } else {
                assert(rest =~= lines0.push(cur0));
                assert(rest.drop_last() =~= lines0);
                assert(rest.last().last() != '\n');
                assert(text_lines(next) == lines0.push(cur0.push(c)));
            }
            assert(text_lines(next) =~= done@.map_values(|line: String| line@) + if current@.len()
                == 0 {
                Seq::<Seq<char>>::empty()
            } else {
                seq![current@]
            });
            seen = next;
        }
    }
    proof {
        assert(seen =~= text@);
    }
    if current.unicode_len() > 0 {
        done.push(current);
    }
    done
}

} // verus!
