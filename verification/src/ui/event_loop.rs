//! The decisions of the interface's event loop: what each terminal event
//! leads to once the page has had it.

use crate::ui::dashboard::ExitCode;
use crate::ui::error::SimError;
use crate::ui::events::EventResult;
use crate::ui::input::{is_ctrl_c, spec_is_ctrl_c, InputEvent, KeyCode, KeyEventKind};
use crate::ui::page::{cycle_len, ExecutionPage};
use vstd::prelude::*;

verus! {

/// The exit code of a simulation the user stopped with Ctrl+C.
pub const EARLY_EXIT_CODE: ExitCode = 1;

/// What the event loop does next.
pub enum LoopStep {
    /// Waits for the next event, without redrawing.
    Wait,
    /// Redraws the page; then stops with this exit code, if there is one.
    Redraw(Option<ExitCode>),
    /// Redraws the page, then stops with this error.
    Fail(SimError),
}

/// How the loop goes on after `event` was ignored by the page: a resize
/// redraws; Ctrl+C stops with `EARLY_EXIT_CODE`; Tab and Shift+Tab move the
/// focus (`Some(true)` forward, `Some(false)` back) and redraw; anything else
/// waits.
pub open spec fn ignored_step(event: InputEvent) -> (Option<Option<ExitCode>>, Option<bool>) {
    match event {
        InputEvent::Resize(_, _) => (Some(None), None),
        InputEvent::Key(key) => if spec_is_ctrl_c(key) {
            (Some(Some(EARLY_EXIT_CODE)), None)
        } else if key.kind == KeyEventKind::Press && key.code == KeyCode::Tab {
            (Some(None), Some(true))
        } else if key.kind == KeyEventKind::Press && key.code == KeyCode::BackTab {
            (Some(None), Some(false))
        } else {
            (None, None)
        },
        InputEvent::Other => (None, None),
    }
}

/// Decides what follows `event`, which the page answered with `result`: an
/// outcome of the page ends the loop with its exit code or error, or redraws;
/// an event the page ignored is handled here (see `ignored_step`).
pub fn next_step(page: &mut ExecutionPage, event: InputEvent, result: EventResult<Option<ExitCode>>) -> (r: LoopStep)
    requires
        old(page).wf(),
    ensures
        final(page).wf(),
        final(page).same_view(*old(page)),
        match result {
            EventResult::Ignored => {
                let (redraw, moved) = ignored_step(event);
                &&& match redraw {
                    Some(code) => r == LoopStep::Redraw(code),
                    None => r is Wait,
                }
                &&& match moved {
                    Some(true) => final(page).position() == (old(page).position() + 1) % cycle_len(
                        old(page).tab(),
                    ),
                    Some(false) => final(page).position() == ((old(page).position() + cycle_len(
                        old(page).tab(),
                    ) - 1) as nat) % cycle_len(old(page).tab()),
                    None => *final(page) == *old(page),
                }
            },
            EventResult::Handled(code) => r == LoopStep::Redraw(code) && *final(page) == *old(page),
            EventResult::Error(err) => r == LoopStep::Fail(err) && *final(page) == *old(page),
        },
{
    match result {
        EventResult::Ignored => match event {
            InputEvent::Resize(_, _) => LoopStep::Redraw(None),
            InputEvent::Key(key) => if is_ctrl_c(key) {
                LoopStep::Redraw(Some(EARLY_EXIT_CODE))
            } else {
                match key.kind {
                    KeyEventKind::Press => match key.code {
                        KeyCode::Tab => {
                            page.focus_next();
                            LoopStep::Redraw(None)
                        },
                        KeyCode::BackTab => {
                            page.focus_prev();
                            LoopStep::Redraw(None)
                        },
                        _ => LoopStep::Wait,
                    },
                    _ => LoopStep::Wait,
                }
            },
            InputEvent::Other => LoopStep::Wait,
        },
        EventResult::Handled(code) => LoopStep::Redraw(code),
        EventResult::Error(err) => LoopStep::Fail(err),
    }
}

} // verus!
