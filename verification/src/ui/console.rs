//! The console tab: the simulated program's standard output and error.

use crate::ui::events::EventResult;
use crate::ui::focus::{Focus, FocusHandler, Focusable, HasFocus};
use crate::ui::input::{pressed, InputEvent};
use crate::ui::out_stream::{fitted_back, scrolled_back, OutStream};
use vstd::prelude::*;

verus! {

/// Which stream panel of the console has the focus, if any, in the order the
/// focus moves through them.
#[derive(Clone, Copy, Debug, PartialEq, Eq, Structural)]
pub enum ConsoleFocus {
    Unfocused,
    Stdout,
    Stderr,
}

/// The position of `focus` in the order the focus moves.
pub open spec fn console_index(focus: ConsoleFocus) -> nat {
    match focus {
        ConsoleFocus::Unfocused => 0,
        ConsoleFocus::Stdout => 1,
        ConsoleFocus::Stderr => 2,
    }
}

/// The focus at position `index` of the order, counted round.
pub open spec fn console_at(index: int) -> ConsoleFocus {
    let i = index % 3;
    if i == 0 {
        ConsoleFocus::Unfocused
    } else if i == 1 {
        ConsoleFocus::Stdout
    } else {
        ConsoleFocus::Stderr
    }
}

/// Counting round the console's focus order lands on the position the count
/// leaves over after whole rounds.
pub proof fn lemma_console_round(i: int)
    requires
        0 <= i,
    ensures
        console_index(console_at(i)) == i % 3,
{
}

/// The focus moves round: after the last panel comes none.
impl Focus for ConsoleFocus {
    fn next(self) -> (r: Self)
        ensures
            r == console_at(console_index(self) + 1int),
    {
        match self {
            ConsoleFocus::Unfocused => ConsoleFocus::Stdout,
            ConsoleFocus::Stdout => ConsoleFocus::Stderr,
            ConsoleFocus::Stderr => ConsoleFocus::Unfocused,
        }
    }

    fn prev(self) -> (r: Self)
        ensures
            r == console_at(console_index(self) + 2int),
    {
        match self {
            ConsoleFocus::Unfocused => ConsoleFocus::Stderr,
            ConsoleFocus::Stdout => ConsoleFocus::Unfocused,
            ConsoleFocus::Stderr => ConsoleFocus::Stdout,
        }
    }
}

/// The keys the console reacts to, with what they do.
pub open spec fn console_tips() -> Seq<(&'static str, &'static str)> {
    seq![("↑↓", "Scroll"), ("Home", "Scroll to bottom")]
}

/// The console: a panel for standard output, one for standard error, and
/// which of them has the focus.
pub struct Console {
    stdout: OutStream,
    stderr: OutStream,
    focused: ConsoleFocus,
}

impl Console {
    /// The standard output panel.
    pub closed spec fn stdout(self) -> OutStream {
        self.stdout
    }

    /// The standard error panel.
    pub closed spec fn stderr(self) -> OutStream {
        self.stderr
    }

    /// Which panel has the focus.
    pub closed spec fn focus(self) -> ConsoleFocus {
        self.focused
    }

    /// Each panel is marked focused exactly when the console says it has the
    /// focus.
    pub open spec fn wf(self) -> bool {
        &&& self.stdout().is_focused() == (self.focus() == ConsoleFocus::Stdout)
        &&& self.stderr().is_focused() == (self.focus() == ConsoleFocus::Stderr)
    }

    /// A console with a panel titled `STDOUT` and one titled `STDERR`, both at
    /// the end of their stream, and no focus.
    pub fn new() -> (r: Self)
        ensures
            r.wf(),
            r.focus() == ConsoleFocus::Unfocused,
            r.stdout().spec_title() == "STDOUT",
            r.stderr().spec_title() == "STDERR",
            r.stdout().head() == 0,
            r.stderr().head() == 0,
    {
        Console {
            stdout: OutStream::new("STDOUT"),
            stderr: OutStream::new("STDERR"),
            focused: ConsoleFocus::Unfocused,
        }
    }

    /// Which panel has the focus.
    pub fn focused(&self) -> (r: ConsoleFocus)
        ensures
            r == self.focus(),
    {
        self.focused
    }

    /// The standard output panel.
    pub fn stdout_panel(&self) -> (r: &OutStream)
        ensures
            *r == self.stdout(),
    {
        &self.stdout
    }

    /// The standard error panel.
    pub fn stderr_panel(&self) -> (r: &OutStream)
        ensures
            *r == self.stderr(),
    {
        &self.stderr
    }

    /// Fits both panels to `height` rows, of a standard output of
    /// `stdout_lines` lines and a standard error of `stderr_lines` lines,
    /// before they are drawn; gives how far back each starts.
    pub fn fit(&mut self, height: usize, stdout_lines: usize, stderr_lines: usize) -> (r: (usize, usize))
        ensures
            final(self).focus() == old(self).focus(),
            final(self).stdout().is_focused() == old(self).stdout().is_focused(),
            final(self).stderr().is_focused() == old(self).stderr().is_focused(),
            final(self).stdout().spec_title() == old(self).stdout().spec_title(),
            final(self).stderr().spec_title() == old(self).stderr().spec_title(),
            r.0 == final(self).stdout().head(),
            r.1 == final(self).stderr().head(),
            final(self).stdout().head() == fitted_back(
                old(self).stdout().head() as int,
                height as int,
                stdout_lines as int,
            ),
            final(self).stderr().head() == fitted_back(
                old(self).stderr().head() as int,
                height as int,
                stderr_lines as int,
            ),
    {
        let out = self.stdout.fit(height, stdout_lines);
        let err = self.stderr.fit(height, stderr_lines);
        (out, err)
    }

    /// The keys the console reacts to, with what they do.
    pub fn help(&self) -> (r: Vec<(&'static str, &'static str)>)
        ensures
            r@ == console_tips(),
    {
        let r = vec![("↑↓", "Scroll"), ("Home", "Scroll to bottom")];
        assert(r@ =~= console_tips());
        r
    }

    /// Whether the panel with the focus takes `event`.
    pub open spec fn takes(self, event: InputEvent) -> bool {
        match self.focus() {
            ConsoleFocus::Unfocused => false,
            ConsoleFocus::Stdout => scrolled_back(self.stdout().head() as int, pressed(event)) is Some,
            ConsoleFocus::Stderr => scrolled_back(self.stderr().head() as int, pressed(event)) is Some,
        }
    }

    /// What `event` does to the console `self`, giving `new`: the panel with
    /// the focus scrolls; nothing else changes.
    pub open spec fn event_effect(self, new: Self, event: InputEvent) -> bool {
        let key = pressed(event);
        &&& new.focus() == self.focus()
        &&& new.stdout().is_focused() == self.stdout().is_focused()
        &&& new.stderr().is_focused() == self.stderr().is_focused()
        &&& new.stdout().spec_title() == self.stdout().spec_title()
        &&& new.stderr().spec_title() == self.stderr().spec_title()
        &&& new.stdout().head() == if self.focus() == ConsoleFocus::Stdout {
            match scrolled_back(self.stdout().head() as int, key) {
                Some(head) => head,
                None => self.stdout().head() as int,
            }
        } else {
            self.stdout().head() as int
        }
        &&& new.stderr().head() == if self.focus() == ConsoleFocus::Stderr {
            match scrolled_back(self.stderr().head() as int, key) {
                Some(head) => head,
                None => self.stderr().head() as int,
            }
        } else {
            self.stderr().head() as int
        }
    }

    /// Passes the event to the panel with the focus; with none, the event is
    /// ignored.
    pub fn handle_event(&mut self, event: InputEvent) -> (r: EventResult<()>)
        ensures
            old(self).event_effect(*final(self), event),
            r is Handled || r is Ignored,
            (r is Handled) == old(self).takes(event),
    {
        match self.focused {
            ConsoleFocus::Unfocused => EventResult::default(),
            ConsoleFocus::Stdout => self.stdout.handle_event(event),
            ConsoleFocus::Stderr => self.stderr.handle_event(event),
        }
    }
}

impl Default for Console {
    fn default() -> (r: Self)
        ensures
            r.wf(),
            r.focus() == ConsoleFocus::Unfocused,
            r.stdout().spec_title() == "STDOUT",
            r.stderr().spec_title() == "STDERR",
            r.stdout().head() == 0,
            r.stderr().head() == 0,
    {
        Console::new()
    }
}

impl FocusHandler for Console {
    fn move_focus_next(&mut self)
        ensures
            final(self).focus() == console_at(console_index(old(self).focus()) + 1int),
            final(self).stdout() == old(self).stdout(),
            final(self).stderr() == old(self).stderr(),
    {
        self.focused = self.focused.next();
    }

    fn move_focus_prev(&mut self)
        ensures
            final(self).focus() == console_at(console_index(old(self).focus()) + 2int),
            final(self).stdout() == old(self).stdout(),
            final(self).stderr() == old(self).stderr(),
    {
        self.focused = self.focused.prev();
    }
}

impl Focusable for Console {
    open spec fn focus_wf(&self) -> bool {
        self.wf()
    }

    /// Moves the focus back until no panel has it.
    fn unfocus(&mut self)
        ensures
            final(self).focus() == ConsoleFocus::Unfocused,
            final(self).stdout().head() == old(self).stdout().head(),
            final(self).stderr().head() == old(self).stderr().head(),
            final(self).stdout().spec_title() == old(self).stdout().spec_title(),
            final(self).stderr().spec_title() == old(self).stderr().spec_title(),
    {
        while self.focused != ConsoleFocus::Unfocused
            invariant
                self.wf(),
                self.stdout().head() == old(self).stdout().head(),
                self.stderr().head() == old(self).stderr().head(),
                self.stdout().spec_title() == old(self).stdout().spec_title(),
                self.stderr().spec_title() == old(self).stderr().spec_title(),
            decreases console_index(self.focus()),
        {
            Focusable::focus_prev(self);
        }
    }

    /// Moves the focus to the next panel, or out of the console after the
    /// last one; tells whether a panel has it.
    fn focus_next(&mut self) -> (r: HasFocus)
        ensures
            final(self).focus() == console_at(console_index(old(self).focus()) + 1int),
            r == (final(self).focus() != ConsoleFocus::Unfocused),
            final(self).stdout().head() == old(self).stdout().head(),
            final(self).stderr().head() == old(self).stderr().head(),
            final(self).stdout().spec_title() == old(self).stdout().spec_title(),
            final(self).stderr().spec_title() == old(self).stderr().spec_title(),
    {
        let accepted = match self.focused {
            ConsoleFocus::Unfocused => false,
            ConsoleFocus::Stdout => Focusable::focus_next(&mut self.stdout),
            ConsoleFocus::Stderr => Focusable::focus_next(&mut self.stderr),
        };
        if accepted {
            return true;
        }
        let ghost start = self.focused;
        loop
            invariant
                !self.stdout().is_focused(),
                !self.stderr().is_focused(),
                self.focus() == start,
                start == old(self).focus(),
                self.stdout().head() == old(self).stdout().head(),
                self.stderr().head() == old(self).stderr().head(),
                self.stdout().spec_title() == old(self).stdout().spec_title(),
                self.stderr().spec_title() == old(self).stderr().spec_title(),
            decreases 3 - console_index(self.focus()),
        {
            FocusHandler::move_focus_next(self);
            let accepted = match self.focused {
                ConsoleFocus::Unfocused => {
                    return false;
                },
                ConsoleFocus::Stdout => Focusable::focus_next(&mut self.stdout),
                ConsoleFocus::Stderr => Focusable::focus_next(&mut self.stderr),
            };
            if accepted {
                return true;
            }
        }
    }

    /// Moves the focus to the previous panel, or out of the console before
    /// the first one; tells whether a panel has it.
    fn focus_prev(&mut self) -> (r: HasFocus)
        ensures
            final(self).focus() == console_at(console_index(old(self).focus()) + 2int),
            r == (final(self).focus() != ConsoleFocus::Unfocused),
            final(self).stdout().head() == old(self).stdout().head(),
            final(self).stderr().head() == old(self).stderr().head(),
            final(self).stdout().spec_title() == old(self).stdout().spec_title(),
            final(self).stderr().spec_title() == old(self).stderr().spec_title(),
    {
        let accepted = match self.focused {
            ConsoleFocus::Unfocused => false,
            ConsoleFocus::Stdout => Focusable::focus_prev(&mut self.stdout),
            ConsoleFocus::Stderr => Focusable::focus_prev(&mut self.stderr),
        };
        if accepted {
            return true;
        }
        let ghost start = self.focused;
        loop
            invariant
                !self.stdout().is_focused(),
                !self.stderr().is_focused(),
                self.focus() == start,
                start == old(self).focus(),
                self.stdout().head() == old(self).stdout().head(),
                self.stderr().head() == old(self).stderr().head(),
                self.stdout().spec_title() == old(self).stdout().spec_title(),
                self.stderr().spec_title() == old(self).stderr().spec_title(),
            decreases console_index(self.focus()),
        {
            FocusHandler::move_focus_prev(self);
            let accepted = match self.focused {
                ConsoleFocus::Unfocused => {
                    return false;
                },
                ConsoleFocus::Stdout => Focusable::focus_prev(&mut self.stdout),
                ConsoleFocus::Stderr => Focusable::focus_prev(&mut self.stderr),
            };
            if accepted {
                return true;
            }
        }
    }
}

} // verus!
