//! Properties of the user interface's navigation: the focus, scrolling, tabs
//! and the reservation stations' window.

use crate::ui::dashboard::DashboardFocus;
use crate::ui::input::KeyCode;
use crate::ui::out_stream::{scrolled_back, text_lines};
use crate::ui::page::{cycle_len, ExecutionPage};
use crate::ui::regs::scrolled_sideways;
use crate::ui::schedulers::{window_after_next, window_after_prev};
use crate::ui::scrolling::{fitted_head, sat_add, sat_sub, scrolled_vertically};
use crate::ui::tabs::{switched, Tab};
use vstd::prelude::*;

verus! {

/// How many parts of the page are marked focused: the tab bar, the registers
/// table, each dashboard panel and each console panel.
pub open spec fn focus_marks(page: ExecutionPage) -> int {
    let d = page.dashboard();
    let flags = seq![
        page.tabs().is_focused(),
        page.csrs().is_focused(),
        page.console().stdout().is_focused(),
        page.console().stderr().is_focused(),
        d.flag(DashboardFocus::FrontEnd),
        d.flag(DashboardFocus::DecodeQueue),
        d.flag(DashboardFocus::Schedulers),
        d.flag(DashboardFocus::LoadQueue),
        d.flag(DashboardFocus::Rob),
        d.flag(DashboardFocus::RegFile),
        d.flag(DashboardFocus::FutureFile),
    ];
    flags.filter(|b: bool| b).len() as int
}

/// On a well-formed page exactly one part is marked focused: the focus is
/// never lost and never in two places.
pub proof fn law_one_focus(page: ExecutionPage)
    requires
        page.wf(),
    ensures
        focus_marks(page) == 1,
{
    reveal_with_fuel(Seq::filter, 12);
}

/// On a well-formed page the place of the focus in the round of the tab shown
/// is one of that round's places.
pub proof fn law_position_in_round(page: ExecutionPage)
    requires
        page.wf(),
    ensures
        page.position() < cycle_len(page.tab()),
{
}

/// Two well-formed pages that show the same tab with the focus at the same
/// place of its round have the focus on the same part and panel.
pub proof fn law_position_determines_focus(a: ExecutionPage, b: ExecutionPage)
    requires
        a.wf(),
        b.wf(),
        a.tab() == b.tab(),
        a.position() == b.position(),
    ensures
        a.focus() == b.focus(),
        a.dashboard().focus() == b.dashboard().focus(),
        a.console().focus() == b.console().focus(),
        a.csrs().is_focused() == b.csrs().is_focused(),
        a.tabs().is_focused() == b.tabs().is_focused(),
{
}

/// Moving the focus forward and then back puts it where it was: on the same
/// part of the page and the same panel of the tab shown.
pub proof fn law_focus_prev_undoes_next(
    before: ExecutionPage,
    moved: ExecutionPage,
    back: ExecutionPage,
)
    requires
        before.wf(),
        moved.wf(),
        back.wf(),
        moved.same_view(before),
        moved.position() == (before.position() + 1) % cycle_len(before.tab()),
        back.same_view(moved),
        back.position() == ((moved.position() + cycle_len(moved.tab()) - 1) as nat) % cycle_len(
            moved.tab(),
        ),
    ensures
        back.focus() == before.focus(),
        back.dashboard().focus() == before.dashboard().focus(),
        back.console().focus() == before.console().focus(),
        back.csrs().is_focused() == before.csrs().is_focused(),
        back.tabs().is_focused() == before.tabs().is_focused(),
{
    law_position_in_round(before);
    let n = cycle_len(before.tab());
    let p = before.position();
    if p + 1 < n {
        assert(moved.position() == p + 1);
        assert((p + n) % n == p) by (nonlinear_arith)
            requires
                0 <= p < n,
        ;
    } else {
        assert(moved.position() == 0);
        assert(((n - 1) as nat) % n == n - 1) by (nonlinear_arith)
            requires
                n > 0,
        ;
    }
    law_position_determines_focus(back, before);
}

/// Drawing again in the same space shows the same entries: fitting a list a
/// second time changes nothing.
pub proof fn law_fit_is_idempotent(head: int, count: int, len: int)
    requires
        0 <= head <= usize::MAX,
        0 <= count <= usize::MAX,
        0 <= len <= usize::MAX,
    ensures
        fitted_head(fitted_head(head, count, len), count, len) == fitted_head(head, count, len),
{
}

/// A fitted list never scrolls forward, and shows no row past its last entry
/// unless it starts at its first one.
pub proof fn law_fit_stays_in_list(head: int, count: int, len: int)
    requires
        0 <= head <= usize::MAX,
        0 <= count <= usize::MAX,
        0 <= len <= usize::MAX,
    ensures
        fitted_head(head, count, len) <= head,
        fitted_head(head, count, len) == 0 || sat_add(fitted_head(head, count, len), count) <= len,
{
}

/// After End, the next drawing shows the last `count` entries (all of them
/// where they fit).
pub proof fn law_end_shows_last_entries(head: int, count: int, len: int)
    requires
        0 <= count <= usize::MAX,
        0 <= len < usize::MAX,
    ensures
        scrolled_vertically(head, Some(KeyCode::End)) == Some(usize::MAX as int),
        fitted_head(usize::MAX as int, count, len) == sat_sub(len, count),
{
}

/// Scrolling a list down one entry and back up returns to where it was,
/// short of the last place a `usize` can count.
pub proof fn law_up_undoes_down(head: int)
    requires
        0 <= head < usize::MAX,
    ensures
        scrolled_vertically(head, Some(KeyCode::Down)) == Some(head + 1),
        scrolled_vertically(head + 1, Some(KeyCode::Up)) == Some(head),
{
}

/// Scrolling an output panel back one line and forward again returns to where
/// it was, short of the last place a `usize` can count.
pub proof fn law_down_undoes_up_in_output(head: int)
    requires
        0 <= head < usize::MAX,
    ensures
        scrolled_back(head, Some(KeyCode::Up)) == Some(head + 1),
        scrolled_back(head + 1, Some(KeyCode::Down)) == Some(head),
{
}

/// Scrolling the register row one column right and back left returns to
/// where it was, short of the last place a `usize` can count.
pub proof fn law_left_undoes_right_in_registers(head: int)
    requires
        0 <= head < usize::MAX,
    ensures
        scrolled_sideways(head, Some(KeyCode::Right)) == Some(head + 1),
        scrolled_sideways(head + 1, Some(KeyCode::Left)) == Some(head),
{
}

/// Switching one tab right and back left returns to the tab one started on,
/// from every tab but the last.
pub proof fn law_left_undoes_right(tab: Tab)
    requires
        tab != Tab::Console,
    ensures
        switched(tab, Some(KeyCode::Right)) is Some,
        switched(switched(tab, Some(KeyCode::Right))->0, Some(KeyCode::Left)) == Some(tab),
{
}

/// Selecting the station to the right of a shown one keeps the selection
/// shown: the window moves along where it has to.
pub proof fn law_selection_stays_shown_right(start: int, end: int, selected: int)
    requires
        0 <= start <= selected,
        selected < end < usize::MAX,
    ensures
        ({
            let (s, e) = window_after_next(start, end, selected + 1);
            s <= selected + 1 < e
        }),
{
}

/// Selecting the station to the left of a shown one keeps the selection
/// shown: the window moves along where it has to.
pub proof fn law_selection_stays_shown_left(start: int, end: int, selected: int)
    requires
        0 <= start <= selected,
        0 < selected < end <= usize::MAX,
    ensures
        ({
            let (s, e) = window_after_prev(start, end, selected - 1);
            s <= selected - 1 < e
        }),
{
}

/// Splitting a text into lines loses nothing: the lines joined again give the
/// text back.
pub proof fn law_lines_rejoin(text: Seq<char>)
    ensures
        text_lines(text).flatten() == text,
    decreases text.len(),
{
    let lines = text_lines(text);
    lines.lemma_flatten_and_flatten_alt_are_equivalent();
    if text.len() > 0 {
        let rest = text_lines(text.drop_last());
        law_lines_rejoin(text.drop_last());
        rest.lemma_flatten_and_flatten_alt_are_equivalent();
        let c = text.last();
        if rest.len() == 0 || rest.last().last() == '\n' {
            assert(lines.drop_last() =~= rest);
            assert(lines.flatten_alt() =~= text);
        } else {
            assert(lines.drop_last() =~= rest.drop_last());
            assert(rest.flatten_alt() == rest.drop_last().flatten_alt() + rest.last());
            assert(lines.last() == rest.last().push(c));
            assert(lines.flatten_alt() == lines.drop_last().flatten_alt() + lines.last());
            assert(text =~= text.drop_last().push(c));
            assert(lines.flatten_alt() =~= text);
        }
    } else {
        assert(lines.flatten_alt() =~= text);
    }
}

} // verus!
