//! The execution page: the tab bar and the tabs it switches between.

use crate::ui::console::{
    console_at, console_index, console_tips, lemma_console_round, Console, ConsoleFocus,
};
use crate::ui::csrs::{csr_tips, CsrDashboard};
use crate::ui::dashboard::{
    dashboard_at, dashboard_index, dashboard_tips, lemma_dashboard_round, CpuDashboard, CpuRun,
    DashboardFocus, DashboardOutcome, ExitCode,
};
use crate::ui::events::EventResult;
use crate::ui::focus::{Focus, Focusable};
use crate::ui::input::{pressed, InputEvent};
use crate::ui::out_stream::fitted_back;
use crate::ui::scrolling::{fitted_head, scrolled_vertically};
use crate::ui::tabs::{switched, tabs_tips, ExecutionTabs, Tab};
use vstd::prelude::*;

verus! {

/// Which part of the page has the focus: the tab shown, or the tab bar.
#[derive(Clone, Copy, Debug, PartialEq, Eq, Structural)]
pub enum PageFocus {
    Content,
    Tabs,
}

/// The focus moves round: from the tab shown to the bar and back.
impl Focus for PageFocus {
    fn next(self) -> (r: Self)
        ensures
            r != self,
    {
        match self {
            PageFocus::Content => PageFocus::Tabs,
            PageFocus::Tabs => PageFocus::Content,
        }
    }

    fn prev(self) -> (r: Self)
        ensures
            r != self,
    {
        match self {
            PageFocus::Content => PageFocus::Tabs,
            PageFocus::Tabs => PageFocus::Content,
        }
    }
}

/// The number of places the focus goes round on the page while `tab` is
/// shown: each panel of the tab, then the tab bar.
pub open spec fn cycle_len(tab: Tab) -> nat {
    match tab {
        Tab::Dashboard => 8,
        Tab::CSRs => 2,
        Tab::Console => 3,
    }
}

/// The keys the page reacts to, whatever has the focus.
pub open spec fn page_tips() -> Seq<(&'static str, &'static str)> {
    seq![("Tab", "Focus next"), ("Shift+Tab", "Focus previous")]
}

/// A handled event of a tab other than the dashboard ends nothing.
fn no_exit_code(handled: ()) -> (code: Option<ExitCode>)
    ensures
        code is None,
{
    None
}

/// The execution page: the tab bar, the three tabs, which part has the focus,
/// and the tab shown.
pub struct ExecutionPage {
    tabs: ExecutionTabs,
    dashboard: CpuDashboard,
    csrs: CsrDashboard,
    console: Console,
    focused: PageFocus,
    tab: Tab,
}

impl ExecutionPage {
    /// The tab bar.
    pub closed spec fn tabs(self) -> ExecutionTabs {
        self.tabs
    }

    /// The dashboard tab.
    pub closed spec fn dashboard(self) -> CpuDashboard {
        self.dashboard
    }

    /// The registers tab.
    pub closed spec fn csrs(self) -> CsrDashboard {
        self.csrs
    }

    /// The console tab.
    pub closed spec fn console(self) -> Console {
        self.console
    }

    /// Which part of the page has the focus.
    pub closed spec fn focus(self) -> PageFocus {
        self.focused
    }

    /// The tab shown.
    pub closed spec fn tab(self) -> Tab {
        self.tab
    }

    /// Whether tab `tab` has the focus on one of its panels.
    pub open spec fn content_focused(self, tab: Tab) -> bool {
        match tab {
            Tab::Dashboard => self.dashboard().focus() != DashboardFocus::Unfocused,
            Tab::CSRs => self.csrs().is_focused(),
            Tab::Console => self.console().focus() != ConsoleFocus::Unfocused,
        }
    }

    /// The focus is in one place: on the tab bar, or on one panel of the tab
    /// shown; every other part is unfocused, and the bar shows the page's tab.
    pub open spec fn wf(self) -> bool {
        &&& self.dashboard().wf()
        &&& self.console().wf()
        &&& self.tabs().tab() == self.tab()
        &&& self.tabs().is_focused() == (self.focus() == PageFocus::Tabs)
        &&& self.content_focused(Tab::Dashboard) == (self.focus() == PageFocus::Content && self.tab()
            == Tab::Dashboard)
        &&& self.content_focused(Tab::CSRs) == (self.focus() == PageFocus::Content && self.tab()
            == Tab::CSRs)
        &&& self.content_focused(Tab::Console) == (self.focus() == PageFocus::Content && self.tab()
            == Tab::Console)
    }

    /// Where the focus is in the round of the tab shown: the panels of the
    /// tab in order, then the tab bar last.
    pub open spec fn position(self) -> nat {
        if self.focus() == PageFocus::Tabs {
            (cycle_len(self.tab()) - 1) as nat
        } else {
            match self.tab() {
                Tab::Dashboard => (dashboard_index(self.dashboard().focus()) - 1) as nat,
                Tab::CSRs => 0,
                Tab::Console => (console_index(self.console().focus()) - 1) as nat,
            }
        }
    }

    /// A page with a dashboard of `scheduler_count` reservation stations
    /// shown, and the focus on its first panel.
    pub fn new(scheduler_count: usize) -> (r: Self)
        requires
            scheduler_count > 0,
        ensures
            r.wf(),
            r.tab() == Tab::Dashboard,
            r.focus() == PageFocus::Content,
            r.position() == 0,
            r.dashboard().spec_exit_code() is None,
            r.dashboard().schedulers().lists().len() == scheduler_count,
    {
        let tab = Tab::Dashboard;
        let mut page = ExecutionPage {
            tabs: ExecutionTabs::new(tab),
            dashboard: CpuDashboard::new(scheduler_count),
            csrs: CsrDashboard::new(),
            console: Console::new(),
            focused: PageFocus::Content,
            tab,
        };
        match page.focused {
            PageFocus::Content => match page.tab {
                Tab::Dashboard => Focusable::focus_next(&mut page.dashboard),
                Tab::CSRs => Focusable::focus_next(&mut page.csrs),
                Tab::Console => Focusable::focus_next(&mut page.console),
            },
            PageFocus::Tabs => Focusable::focus_next(&mut page.tabs),
        };
        page
    }

    /// Which part of the page has the focus.
    pub fn focused(&self) -> (r: PageFocus)
        ensures
            r == self.focus(),
    {
        self.focused
    }

    /// The tab shown.
    pub fn current_tab(&self) -> (r: Tab)
        ensures
            r == self.tab(),
    {
        self.tab
    }

    /// The tab bar.
    pub fn tabs_panel(&self) -> (r: &ExecutionTabs)
        ensures
            *r == self.tabs(),
    {
        &self.tabs
    }

    /// The dashboard tab.
    pub fn dashboard_tab(&self) -> (r: &CpuDashboard)
        ensures
            *r == self.dashboard(),
    {
        &self.dashboard
    }

    /// The registers tab.
    pub fn csrs_tab(&self) -> (r: &CsrDashboard)
        ensures
            *r == self.csrs(),
    {
        &self.csrs
    }

    /// The console tab.
    pub fn console_tab(&self) -> (r: &Console)
        ensures
            *r == self.console(),
    {
        &self.console
    }

    /// The keys the page reacts to: moving the focus, then those of the part
    /// with the focus.
    pub fn help(&self) -> (r: Vec<(&'static str, &'static str)>)
        ensures
            r@ == page_tips() + match self.focus() {
                PageFocus::Content => match self.tab() {
                    Tab::Dashboard => dashboard_tips(
                        self.dashboard().spec_exit_code() is Some,
                        self.dashboard().focus(),
                    ),
                    Tab::CSRs => csr_tips(),
                    Tab::Console => console_tips(),
                },
                PageFocus::Tabs => tabs_tips(),
            },
    {
        let mut tips = vec![("Tab", "Focus next"), ("Shift+Tab", "Focus previous")];
        let mut more = match self.focused {
            PageFocus::Content => match self.tab {
                Tab::Dashboard => self.dashboard.help(),
                Tab::CSRs => self.csrs.help(),
                Tab::Console => self.console.help(),
            },
            PageFocus::Tabs => self.tabs.help(),
        };
        assert(tips@ =~= page_tips());
        tips.append(&mut more);
        tips
    }

    /// Passes the event to the part with the focus: the tab shown, or the tab
    /// bar, whose switching changes the tab shown.
    pub fn handle_event(&mut self, event: InputEvent) -> (r: DashboardOutcome)
        requires
            old(self).wf(),
        ensures
            final(self).wf(),
            final(self).focus() == old(self).focus(),
            match old(self).focus() {
                PageFocus::Content => {
                    &&& final(self).tab() == old(self).tab()
                    &&& final(self).tabs() == old(self).tabs()
                    &&& match old(self).tab() {
                        Tab::Dashboard => {
                            &&& old(self).dashboard().event_effect(final(self).dashboard(), event)
                            &&& r == old(self).dashboard().outcome(event)
                            &&& final(self).csrs() == old(self).csrs()
                            &&& final(self).console() == old(self).console()
                        },
                        Tab::CSRs => {
                            &&& final(self).dashboard() == old(self).dashboard()
                            &&& final(self).console() == old(self).console()
                            &&& final(self).csrs().is_focused() == old(self).csrs().is_focused()
                            &&& match scrolled_vertically(old(self).csrs().head() as int, pressed(event)) {
                                Some(head) => final(self).csrs().head() == head && r
                                    == DashboardOutcome::Done(EventResult::Handled(None)),
                                None => final(self).csrs().head() == old(self).csrs().head() && r
                                    == DashboardOutcome::Done(EventResult::Ignored),
                            }
                        },
                        Tab::Console => {
                            &&& final(self).dashboard() == old(self).dashboard()
                            &&& final(self).csrs() == old(self).csrs()
                            &&& old(self).console().event_effect(final(self).console(), event)
                            &&& r == if old(self).console().takes(event) {
                                DashboardOutcome::Done(EventResult::Handled(None))
                            } else {
                                DashboardOutcome::Done(EventResult::Ignored)
                            }
                        },
                    }
                },
                PageFocus::Tabs => {
                    &&& final(self).dashboard() == old(self).dashboard()
                    &&& final(self).csrs() == old(self).csrs()
                    &&& final(self).console() == old(self).console()
                    &&& final(self).tabs().is_focused() == old(self).tabs().is_focused()
                    &&& match switched(old(self).tab(), pressed(event)) {
                        Some(tab) => final(self).tab() == tab && r == DashboardOutcome::Done(
                            EventResult::Handled(None),
                        ),
                        None => final(self).tab() == old(self).tab() && r == DashboardOutcome::Done(
                            EventResult::Ignored,
                        ),
                    }
                },
            },
    {
        match self.focused {
            PageFocus::Content => match self.tab {
                Tab::Dashboard => self.dashboard.handle_event(event),
                Tab::CSRs => DashboardOutcome::Done(
                    self.csrs.handle_event(event).map(no_exit_code),
                ),
                Tab::Console => DashboardOutcome::Done(
                    self.console.handle_event(event).map(no_exit_code),
                ),
            },
            PageFocus::Tabs => match self.tabs.handle_event(event) {
                EventResult::Handled(tab) => {
                    self.tab = tab;
                    DashboardOutcome::Done(EventResult::Handled(None))
                },
                EventResult::Ignored => DashboardOutcome::Done(EventResult::Ignored),
                EventResult::Error(err) => DashboardOutcome::Done(EventResult::Error(err)),
            },
        }
    }

    /// Fits the console's panels to `height` rows, of a standard output of
    /// `stdout_lines` lines and a standard error of `stderr_lines` lines,
    /// before they are drawn; gives how far back each starts.
    pub fn fit_console(&mut self, height: usize, stdout_lines: usize, stderr_lines: usize) -> (r: (
        usize,
        usize,
    ))
        requires
            old(self).wf(),
        ensures
            final(self).wf(),
            final(self).focus() == old(self).focus(),
            final(self).tab() == old(self).tab(),
            final(self).tabs() == old(self).tabs(),
            final(self).dashboard() == old(self).dashboard(),
            final(self).csrs() == old(self).csrs(),
            final(self).console().focus() == old(self).console().focus(),
            r.0 == final(self).console().stdout().head(),
            r.1 == final(self).console().stderr().head(),
            final(self).console().stdout().head() == fitted_back(
                old(self).console().stdout().head() as int,
                height as int,
                stdout_lines as int,
            ),
            final(self).console().stderr().head() == fitted_back(
                old(self).console().stderr().head() as int,
                height as int,
                stderr_lines as int,
            ),
    {
        self.console.fit(height, stdout_lines, stderr_lines)
    }

    /// Fits the registers table to `height` rows of `len` registers before it
    /// is drawn, and gives the first register to draw.
    pub fn fit_csrs(&mut self, height: u16, len: usize) -> (r: usize)
        requires
            old(self).wf(),
        ensures
            final(self).wf(),
            final(self).focus() == old(self).focus(),
            final(self).tab() == old(self).tab(),
            final(self).tabs() == old(self).tabs(),
            final(self).dashboard() == old(self).dashboard(),
            final(self).console() == old(self).console(),
            final(self).csrs().is_focused() == old(self).csrs().is_focused(),
            final(self).csrs().head() == fitted_head(
                old(self).csrs().head() as int,
                height as int,
                len as int,
            ),
            r == final(self).csrs().head(),
    {
        self.csrs.fit(height, len)
    }

    /// Takes in how the CPU command the dashboard asked for ended.
    pub fn finish(&mut self, run: Result<CpuRun, Vec<String>>) -> (r: EventResult<Option<ExitCode>>)
        requires
            old(self).wf(),
        ensures
            final(self).wf(),
            final(self).focus() == old(self).focus(),
            final(self).tab() == old(self).tab(),
            final(self).position() == old(self).position(),
            final(self).tabs() == old(self).tabs(),
            final(self).csrs() == old(self).csrs(),
            final(self).console() == old(self).console(),
            final(self).dashboard().focus() == old(self).dashboard().focus(),
            final(self).dashboard().same_but(old(self).dashboard(), DashboardFocus::Unfocused)
                || run matches Ok(CpuRun::Exit(_)),
            match run {
                Ok(CpuRun::Exit(code)) => final(self).dashboard().spec_exit_code() == Some(code)
                    && r == EventResult::<Option<ExitCode>>::Handled(None),
                Ok(CpuRun::Break) => r == EventResult::<Option<ExitCode>>::Handled(None),
                Err(errs) => r == EventResult::<Option<ExitCode>>::Error(
                    crate::ui::error::SimError::Cpu(errs),
                ),
            },
    {
        self.dashboard.finish(run)
    }

    /// The page `self` and `other` show the same: the same tab, the same
    /// places in every panel and the same exit code. Only the focus may
    /// differ.
    pub open spec fn same_view(self, other: Self) -> bool {
        &&& self.tab() == other.tab()
        &&& self.tabs().tab() == other.tabs().tab()
        &&& self.dashboard().same_view(other.dashboard())
        &&& self.csrs().head() == other.csrs().head()
        &&& self.console().stdout().head() == other.console().stdout().head()
        &&& self.console().stderr().head() == other.console().stderr().head()
        &&& self.console().stdout().spec_title() == other.console().stdout().spec_title()
        &&& self.console().stderr().spec_title() == other.console().stderr().spec_title()
    }

    /// Moves the focus forward (`forward`) or backward on the part of the
    /// page that has it, and tells whether that part keeps it.
    fn focus_current(&mut self, forward: bool) -> (r: bool)
        requires
            old(self).dashboard().wf(),
            old(self).console().wf(),
        ensures
            final(self).dashboard().wf(),
            final(self).console().wf(),
            final(self).focus() == old(self).focus(),
            final(self).same_view(*old(self)),
            final(self).tabs().is_focused() == if old(self).focus() == PageFocus::Tabs {
                !old(self).tabs().is_focused()
            } else {
                old(self).tabs().is_focused()
            },
            final(self).csrs().is_focused() == if old(self).focus() == PageFocus::Content
                && old(self).tab() == Tab::CSRs {
                !old(self).csrs().is_focused()
            } else {
                old(self).csrs().is_focused()
            },
            final(self).dashboard().focus() == if old(self).focus() == PageFocus::Content
                && old(self).tab() == Tab::Dashboard {
                dashboard_at(
                    dashboard_index(old(self).dashboard().focus()) + if forward {
                        1int
                    } else {
                        7int
                    },
                )
            } else {
                old(self).dashboard().focus()
            },
            final(self).console().focus() == if old(self).focus() == PageFocus::Content
                && old(self).tab() == Tab::Console {
                console_at(
                    console_index(old(self).console().focus()) + if forward {
                        1int
                    } else {
                        2int
                    },
                )
            } else {
                old(self).console().focus()
            },
            r == match old(self).focus() {
                PageFocus::Tabs => final(self).tabs().is_focused(),
                PageFocus::Content => final(self).content_focused(old(self).tab()),
            },
    {
        match self.focused {
            PageFocus::Content => match self.tab {
                Tab::Dashboard => if forward {
                    Focusable::focus_next(&mut self.dashboard)
                } else {
                    Focusable::focus_prev(&mut self.dashboard)
                },
                Tab::CSRs => if forward {
                    Focusable::focus_next(&mut self.csrs)
                } else {
                    Focusable::focus_prev(&mut self.csrs)
                },
                Tab::Console => if forward {
                    Focusable::focus_next(&mut self.console)
                } else {
                    Focusable::focus_prev(&mut self.console)
                },
            },
            PageFocus::Tabs => if forward {
                Focusable::focus_next(&mut self.tabs)
            } else {
                Focusable::focus_prev(&mut self.tabs)
            },
        }
    }

    /// Moves the focus to the next place in the round of the tab shown: the
    /// next panel of the tab, the tab bar after its last panel, and its first
    /// panel after the bar. The page always keeps the focus.
    pub fn focus_next(&mut self) -> (r: bool)
        requires
            old(self).wf(),
        ensures
            r,
            final(self).wf(),
            final(self).same_view(*old(self)),
            final(self).position() == (old(self).position() + 1) % cycle_len(old(self).tab()),
    {
        proof {
            lemma_dashboard_round(dashboard_index(self.dashboard().focus()) + 1int);
            lemma_console_round(console_index(self.console().focus()) + 1int);
        }
        if self.focus_current(true) {
            return true;
        }
        // The part the focus moves onto has none yet, so it takes it.
        proof {
            lemma_dashboard_round(dashboard_index(self.dashboard().focus()) + 1int);
            lemma_console_round(console_index(self.console().focus()) + 1int);
        }
        self.focused = self.focused.next();
        let r = self.focus_current(true);
        proof {
            if old(self).focus() == PageFocus::Tabs {
                if self.tab() == Tab::Dashboard {
                    assert(self.dashboard().focus() == DashboardFocus::FrontEnd);
                } else if self.tab() == Tab::Console {
                    assert(self.console().focus() == ConsoleFocus::Stdout);
                }
            } else {
                if self.tab() == Tab::Dashboard {
                    assert(old(self).dashboard().focus() == DashboardFocus::FutureFile);
                } else if self.tab() == Tab::Console {
                    assert(old(self).console().focus() == ConsoleFocus::Stderr);
                }
            }
        }
        r
    }

    /// Moves the focus to the previous place in the round of the tab shown.
    /// The page always keeps the focus.
    pub fn focus_prev(&mut self) -> (r: bool)
        requires
            old(self).wf(),
        ensures
            r,
            final(self).wf(),
            final(self).same_view(*old(self)),
            final(self).position() == ((old(self).position() + cycle_len(old(self).tab()) - 1) as nat)
                % cycle_len(old(self).tab()),
    {
        proof {
            lemma_dashboard_round(dashboard_index(self.dashboard().focus()) + 7int);
            lemma_console_round(console_index(self.console().focus()) + 2int);
        }
        if self.focus_current(false) {
            return true;
        }
        // The part the focus moves onto has none yet, so it takes it.
        proof {
            lemma_dashboard_round(dashboard_index(self.dashboard().focus()) + 7int);
            lemma_console_round(console_index(self.console().focus()) + 2int);
        }
        self.focused = self.focused.prev();
        let r = self.focus_current(false);
        proof {
            if old(self).focus() == PageFocus::Tabs {
                if self.tab() == Tab::Dashboard {
                    assert(self.dashboard().focus() == DashboardFocus::FutureFile);
                } else if self.tab() == Tab::Console {
                    assert(self.console().focus() == ConsoleFocus::Stderr);
                }
            } else {
                if self.tab() == Tab::Dashboard {
                    assert(old(self).dashboard().focus() == DashboardFocus::FrontEnd);
                } else if self.tab() == Tab::Console {
                    assert(old(self).console().focus() == ConsoleFocus::Stdout);
                }
            }
        }
        r
    }
}

} // verus!
