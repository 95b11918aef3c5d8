//! The dashboard tab: the panels that show the simulated CPU, and the keys
//! that step and run it.

use crate::ui::error::SimError;
use crate::ui::events::EventResult;
use crate::ui::focus::{Focus, FocusHandler, Focusable, HasFocus};
use crate::ui::front_end::FrontEnd;
use crate::ui::input::{key_press, pressed, InputEvent, KeyCode};
use crate::ui::regs::{scrolled_sideways, FutureFile, RegFile};
use crate::ui::schedulers::Schedulers;
use crate::ui::scrolling::{fitted_head, sat_sub, scrolled_vertically, DecodeQueue, LoadQueue, Rob};
use vstd::prelude::*;

verus! {

/// The exit code of the simulated program.
pub type ExitCode = i32;

/// How a run or a step of the CPU ended.
#[derive(Clone, Copy, Debug, PartialEq, Eq, Structural)]
pub enum CpuRun {
    /// The program exited with this code.
    Exit(ExitCode),
    /// The CPU stopped at a breakpoint, or after its step.
    Break,
}

/// What the dashboard asks of the CPU.
#[derive(Clone, Copy, Debug, PartialEq, Eq, Structural)]
pub enum CpuCommand {
    /// Execute one cycle.
    Step,
    /// Run until the program exits or breaks.
    Run,
}

/// What handling an event on the dashboard came to: an outcome, or a command
/// for the CPU whose result goes back to `CpuDashboard::finish`.
pub enum DashboardOutcome {
    Done(EventResult<Option<ExitCode>>),
    Cpu(CpuCommand),
}

/// Which panel of the dashboard has the focus, if any, in the order the focus
/// moves through them.
#[derive(Clone, Copy, Debug, PartialEq, Eq, Structural)]
pub enum DashboardFocus {
    Unfocused,
    FrontEnd,
    DecodeQueue,
    Schedulers,
    LoadQueue,
    Rob,
    RegFile,
    FutureFile,
}

/// The position of `focus` in the order the focus moves.
pub open spec fn dashboard_index(focus: DashboardFocus) -> nat {
    match focus {
        DashboardFocus::Unfocused => 0,
        DashboardFocus::FrontEnd => 1,
        DashboardFocus::DecodeQueue => 2,
        DashboardFocus::Schedulers => 3,
        DashboardFocus::LoadQueue => 4,
        DashboardFocus::Rob => 5,
        DashboardFocus::RegFile => 6,
        DashboardFocus::FutureFile => 7,
    }
}

/// The focus at position `index` of the order, counted round.
pub open spec fn dashboard_at(index: int) -> DashboardFocus {
    let i = index % 8;
    if i == 0 {
        DashboardFocus::Unfocused
    } else if i == 1 {
        DashboardFocus::FrontEnd
    } else if i == 2 {
        DashboardFocus::DecodeQueue
    } else if i == 3 {
        DashboardFocus::Schedulers
    } else if i == 4 {
        DashboardFocus::LoadQueue
    } else if i == 5 {
        DashboardFocus::Rob
    } else if i == 6 {
        DashboardFocus::RegFile
    } else {
        DashboardFocus::FutureFile
    }
}

/// Counting round the dashboard's focus order lands on the position the count
/// leaves over after whole rounds.
pub proof fn lemma_dashboard_round(i: int)
    requires
        0 <= i,
    ensures
        dashboard_index(dashboard_at(i)) == i % 8,
{
}

/// The focus moves round: after the last panel comes none.
impl Focus for DashboardFocus {
    fn next(self) -> (r: Self)
        ensures
            r == dashboard_at(dashboard_index(self) + 1int),
    {
        match self {
            DashboardFocus::Unfocused => DashboardFocus::FrontEnd,
            DashboardFocus::FrontEnd => DashboardFocus::DecodeQueue,
            DashboardFocus::DecodeQueue => DashboardFocus::Schedulers,
            DashboardFocus::Schedulers => DashboardFocus::LoadQueue,
            DashboardFocus::LoadQueue => DashboardFocus::Rob,
            DashboardFocus::Rob => DashboardFocus::RegFile,
            DashboardFocus::RegFile => DashboardFocus::FutureFile,
            DashboardFocus::FutureFile => DashboardFocus::Unfocused,
        }
    }

    fn prev(self) -> (r: Self)
        ensures
            r == dashboard_at(dashboard_index(self) + 7int),
    {
        match self {
            DashboardFocus::Unfocused => DashboardFocus::FutureFile,
            DashboardFocus::FrontEnd => DashboardFocus::Unfocused,
            DashboardFocus::DecodeQueue => DashboardFocus::FrontEnd,
            DashboardFocus::Schedulers => DashboardFocus::DecodeQueue,
            DashboardFocus::LoadQueue => DashboardFocus::Schedulers,
            DashboardFocus::Rob => DashboardFocus::LoadQueue,
            DashboardFocus::RegFile => DashboardFocus::Rob,
            DashboardFocus::FutureFile => DashboardFocus::RegFile,
        }
    }
}

/// The keys the dashboard reacts to, with what they do: stepping and running
/// while the program has not exited, quitting once it has, and what the panel
/// with the focus takes.
pub open spec fn dashboard_tips(exited: bool, focus: DashboardFocus) -> Seq<(&'static str, &'static str)> {
    let base = if exited {
        seq![("Q", "Quit")]
    } else {
        seq![("F5", "Run"), ("Enter", "Step")]
    };
    let scroll_v = ("↑↓", "Scroll");
    let scroll_h = ("←→", "Scroll");
    let jump = ("Home/End", "Scroll to start/end");
    base + match focus {
        DashboardFocus::Unfocused => Seq::empty(),
        DashboardFocus::FrontEnd => Seq::empty(),
        DashboardFocus::DecodeQueue => seq![scroll_v, jump],
        DashboardFocus::Schedulers => seq![scroll_v, jump, ("←→", "Switch scheduler")],
        DashboardFocus::LoadQueue => seq![scroll_v, jump],
        DashboardFocus::Rob => seq![scroll_v, jump],
        DashboardFocus::RegFile => seq![scroll_h, jump],
        DashboardFocus::FutureFile => seq![scroll_h, jump],
    }
}

/// What the dashboard does with a key that no panel took: Enter steps and F5
/// runs while the program has not exited; once it has, Q quits with its exit
/// code; any other key, or any other event, is ignored.
pub open spec fn dashboard_key(exit_code: Option<ExitCode>, key: Option<KeyCode>) -> DashboardOutcome {
    match key {
        Some(KeyCode::Enter) => if exit_code is None {
            DashboardOutcome::Cpu(CpuCommand::Step)
        } else {
            DashboardOutcome::Done(EventResult::Ignored)
        },
        Some(KeyCode::F(n)) => if n == 5 && exit_code is None {
            DashboardOutcome::Cpu(CpuCommand::Run)
        } else {
            DashboardOutcome::Done(EventResult::Ignored)
        },
        Some(KeyCode::Char(c)) => if c == 'q' && exit_code is Some {
            DashboardOutcome::Done(EventResult::Handled(exit_code))
        } else {
            DashboardOutcome::Done(EventResult::Ignored)
        },
        _ => DashboardOutcome::Done(EventResult::Ignored),
    }
}

/// The dashboard: its panels, which of them has the focus, and the exit code
/// of the program once it has exited.
pub struct CpuDashboard {
    front_end: FrontEnd,
    decode_queue: DecodeQueue,
    schedulers: Schedulers,
    reg_file: RegFile,
    future_file: FutureFile,
    rob: Rob,
    load_queue: LoadQueue,
    focused: DashboardFocus,
    exit_code: Option<ExitCode>,
}

impl CpuDashboard {
    /// The front-end panel.
    pub closed spec fn front_end(self) -> FrontEnd {
        self.front_end
    }

    /// The decode queue panel.
    pub closed spec fn decode_queue(self) -> DecodeQueue {
        self.decode_queue
    }

    /// The reservation stations panel.
    pub closed spec fn schedulers(self) -> Schedulers {
        self.schedulers
    }

    /// The register file panel.
    pub closed spec fn reg_file(self) -> RegFile {
        self.reg_file
    }

    /// The future file panel.
    pub closed spec fn future_file(self) -> FutureFile {
        self.future_file
    }

    /// The reorder buffer panel.
    pub closed spec fn rob(self) -> Rob {
        self.rob
    }

    /// The load queue panel.
    pub closed spec fn load_queue(self) -> LoadQueue {
        self.load_queue
    }

    /// Which panel has the focus.
    pub closed spec fn focus(self) -> DashboardFocus {
        self.focused
    }

    /// The exit code of the program, once it has exited.
    pub closed spec fn spec_exit_code(self) -> Option<ExitCode> {
        self.exit_code
    }

    /// Each panel is marked focused exactly when the dashboard says it has
    /// the focus; the reservation stations mark it on their selected station.
    pub open spec fn wf(self) -> bool {
        &&& self.front_end().is_focused() == (self.focus() == DashboardFocus::FrontEnd)
        &&& self.decode_queue().is_focused() == (self.focus() == DashboardFocus::DecodeQueue)
        &&& self.schedulers().is_focused() == (self.focus() == DashboardFocus::Schedulers)
        &&& self.schedulers().in_sync()
        &&& self.load_queue().is_focused() == (self.focus() == DashboardFocus::LoadQueue)
        &&& self.rob().is_focused() == (self.focus() == DashboardFocus::Rob)
        &&& self.reg_file().is_focused() == (self.focus() == DashboardFocus::RegFile)
        &&& self.future_file().is_focused() == (self.focus() == DashboardFocus::FutureFile)
    }

    /// No panel is marked focused.
    pub open spec fn none_focused(self) -> bool {
        &&& !self.front_end().is_focused()
        &&& !self.decode_queue().is_focused()
        &&& !self.schedulers().is_focused()
        &&& self.schedulers().in_sync()
        &&& !self.load_queue().is_focused()
        &&& !self.rob().is_focused()
        &&& !self.reg_file().is_focused()
        &&& !self.future_file().is_focused()
    }

    /// `self` and `other` show the same: the same first entries, the same
    /// selected station and window, the same exit code. Only the focus may
    /// differ.
    pub open spec fn same_view(self, other: Self) -> bool {
        &&& self.decode_queue().head() == other.decode_queue().head()
        &&& self.load_queue().head() == other.load_queue().head()
        &&& self.rob().head() == other.rob().head()
        &&& self.reg_file().head() == other.reg_file().head()
        &&& self.future_file().head() == other.future_file().head()
        &&& self.schedulers().lists().len() == other.schedulers().lists().len()
        &&& forall|i: int|
            0 <= i < self.schedulers().lists().len() ==> (#[trigger] self.schedulers().lists()[i]).head()
                == other.schedulers().lists()[i].head()
        &&& self.schedulers().selected() == other.schedulers().selected()
        &&& self.schedulers().visible_start() == other.schedulers().visible_start()
        &&& self.schedulers().visible_end() == other.schedulers().visible_end()
        &&& self.spec_exit_code() == other.spec_exit_code()
    }

    /// A dashboard with `scheduler_count` reservation stations, every panel at
    /// its start, no focus, and the program running.
    pub fn new(scheduler_count: usize) -> (r: Self)
        requires
            scheduler_count > 0,
        ensures
            r.wf(),
            r.focus() == DashboardFocus::Unfocused,
            r.spec_exit_code() is None,
            r.schedulers().lists().len() == scheduler_count,
            r.schedulers().selected() == 0,
            r.decode_queue().head() == 0,
            r.load_queue().head() == 0,
            r.rob().head() == 0,
            r.reg_file().head() == 0,
            r.future_file().head() == 0,
    {
        CpuDashboard {
            front_end: FrontEnd::default(),
            decode_queue: DecodeQueue::default(),
            schedulers: Schedulers::new(scheduler_count),
            reg_file: RegFile::default(),
            future_file: FutureFile::default(),
            rob: Rob::default(),
            load_queue: LoadQueue::default(),
            focused: DashboardFocus::Unfocused,
            exit_code: None,
        }
    }

    /// Which panel has the focus.
    pub fn focused(&self) -> (r: DashboardFocus)
        ensures
            r == self.focus(),
    {
        self.focused
    }

    /// The exit code of the program, once it has exited.
    pub fn exit_code(&self) -> (r: Option<ExitCode>)
        ensures
            r == self.spec_exit_code(),
    {
        self.exit_code
    }

    /// The keys the dashboard reacts to, with what they do.
    pub fn help(&self) -> (r: Vec<(&'static str, &'static str)>)
        ensures
            r@ == dashboard_tips(self.spec_exit_code() is Some, self.focus()),
    {
        let scroll_v = ("↑↓", "Scroll");
        let scroll_h = ("←→", "Scroll");
        let jump = ("Home/End", "Scroll to start/end");
        let mut tips = match self.exit_code {
            None => vec![("F5", "Run"), ("Enter", "Step")],
            Some(_) => vec![("Q", "Quit")],
        };
        let ghost base = tips@;
        match self.focused {
            DashboardFocus::Unfocused => {},
            DashboardFocus::FrontEnd => {},
            DashboardFocus::DecodeQueue => {
                tips.push(scroll_v);
                tips.push(jump);
            },
            DashboardFocus::Schedulers => {
                tips.push(scroll_v);
                tips.push(jump);
                tips.push(("←→", "Switch scheduler"));
            },
            DashboardFocus::LoadQueue => {
                tips.push(scroll_v);
                tips.push(jump);
            },
            DashboardFocus::Rob => {
                tips.push(scroll_v);
                tips.push(jump);
            },
            DashboardFocus::RegFile => {
                tips.push(scroll_h);
                tips.push(jump);
            },
            DashboardFocus::FutureFile => {
                tips.push(scroll_h);
                tips.push(jump);
            },
        }
        assert(tips@ =~= dashboard_tips(self.spec_exit_code() is Some, self.focus()));
        tips
    }

    /// The front-end panel.
    pub fn front_end_panel(&self) -> (r: FrontEnd)
        ensures
            r == self.front_end(),
    {
        self.front_end
    }

    /// The decode queue panel.
    pub fn decode_queue_panel(&self) -> (r: DecodeQueue)
        ensures
            r == self.decode_queue(),
    {
        self.decode_queue
    }

    /// The reservation stations panel.
    pub fn schedulers_panel(&self) -> (r: &Schedulers)
        ensures
            *r == self.schedulers(),
    {
        &self.schedulers
    }

    /// The register file panel.
    pub fn reg_file_panel(&self) -> (r: RegFile)
        ensures
            r == self.reg_file(),
    {
        self.reg_file
    }

    /// The future file panel.
    pub fn future_file_panel(&self) -> (r: FutureFile)
        ensures
            r == self.future_file(),
    {
        self.future_file
    }

    /// The reorder buffer panel.
    pub fn rob_panel(&self) -> (r: Rob)
        ensures
            r == self.rob(),
    {
        self.rob
    }

    /// The load queue panel.
    pub fn load_queue_panel(&self) -> (r: LoadQueue)
        ensures
            r == self.load_queue(),
    {
        self.load_queue
    }

    /// Fits the decode queue to `count` rows of `len` entries before it is
    /// drawn, and gives the first entry to draw.
    pub fn fit_decode_queue(&mut self, count: usize, len: usize) -> (r: usize)
        ensures
            final(self).same_but(*old(self), DashboardFocus::DecodeQueue),
            final(self).decode_queue().head() == fitted_head(
                old(self).decode_queue().head() as int,
                count as int,
                len as int,
            ),
            final(self).decode_queue().is_focused() == old(self).decode_queue().is_focused(),
            r == final(self).decode_queue().head(),
    {
        self.decode_queue.fit(count, len)
    }

    /// Fits the load queue to `count` rows of `len` entries before it is
    /// drawn, and gives the first entry to draw.
    pub fn fit_load_queue(&mut self, count: usize, len: usize) -> (r: usize)
        ensures
            final(self).same_but(*old(self), DashboardFocus::LoadQueue),
            final(self).load_queue().head() == fitted_head(
                old(self).load_queue().head() as int,
                count as int,
                len as int,
            ),
            final(self).load_queue().is_focused() == old(self).load_queue().is_focused(),
            r == final(self).load_queue().head(),
    {
        self.load_queue.fit(count, len)
    }

    /// Fits the reorder buffer to `count` rows of `len` entries before it is
    /// drawn, and gives the first entry to draw.
    pub fn fit_rob(&mut self, count: usize, len: usize) -> (r: usize)
        ensures
            final(self).same_but(*old(self), DashboardFocus::Rob),
            final(self).rob().head() == fitted_head(old(self).rob().head() as int, count as int, len as int),
            final(self).rob().is_focused() == old(self).rob().is_focused(),
            r == final(self).rob().head(),
    {
        self.rob.fit(count, len)
    }

    /// Fits the register file to `count` registers of `len` before it is
    /// drawn, and gives the first register to draw.
    pub fn fit_reg_file(&mut self, count: usize, len: usize) -> (r: usize)
        ensures
            final(self).same_but(*old(self), DashboardFocus::RegFile),
            final(self).reg_file().head() == fitted_head(
                old(self).reg_file().head() as int,
                count as int,
                len as int,
            ),
            final(self).reg_file().is_focused() == old(self).reg_file().is_focused(),
            r == final(self).reg_file().head(),
    {
        self.reg_file.fit(count, len)
    }

    /// Fits the future file to `count` registers of `len` before it is drawn,
    /// and gives the first register to draw.
    pub fn fit_future_file(&mut self, count: usize, len: usize) -> (r: usize)
        ensures
            final(self).same_but(*old(self), DashboardFocus::FutureFile),
            final(self).future_file().head() == fitted_head(
                old(self).future_file().head() as int,
                count as int,
                len as int,
            ),
            final(self).future_file().is_focused() == old(self).future_file().is_focused(),
            r == final(self).future_file().head(),
    {
        self.future_file.fit(count, len)
    }

    /// Shows `count` reservation stations from the first one shown, when the
    /// window does not hold that many already.
    pub fn fit_schedulers(&mut self, count: usize)
        requires
            old(self).schedulers().visible_start() + count <= usize::MAX,
        ensures
            final(self).same_but(*old(self), DashboardFocus::Schedulers),
            final(self).schedulers().visible_start() == old(self).schedulers().visible_start(),
            final(self).schedulers().visible_end() == if sat_sub(
                old(self).schedulers().visible_end() as int,
                old(self).schedulers().visible_start() as int,
            ) != count {
                old(self).schedulers().visible_start() + count
            } else {
                old(self).schedulers().visible_end() as int
            },
            final(self).schedulers().lists() == old(self).schedulers().lists(),
            final(self).schedulers().selected() == old(self).schedulers().selected(),
            final(self).schedulers().is_focused() == old(self).schedulers().is_focused(),
            final(self).schedulers().in_sync() == old(self).schedulers().in_sync(),
    {
        self.schedulers.fit_visible(count)
    }

    /// Fits the list of reservation station `index` to `count` rows of `len`
    /// entries before it is drawn, and gives the first entry to draw.
    pub fn fit_scheduler(&mut self, index: usize, count: usize, len: usize) -> (r: usize)
        requires
            index < old(self).schedulers().lists().len(),
        ensures
            final(self).same_but(*old(self), DashboardFocus::Schedulers),
            final(self).schedulers().in_sync() == old(self).schedulers().in_sync(),
            final(self).schedulers().lists() == old(self).schedulers().lists().update(
                index as int,
                final(self).schedulers().lists()[index as int],
            ),
            final(self).schedulers().lists()[index as int].head() == fitted_head(
                old(self).schedulers().lists()[index as int].head() as int,
                count as int,
                len as int,
            ),
            final(self).schedulers().lists()[index as int].is_focused() == old(self).schedulers().lists()[index as int].is_focused(),
            r == final(self).schedulers().lists()[index as int].head(),
            final(self).schedulers().selected() == old(self).schedulers().selected(),
            final(self).schedulers().visible_start() == old(self).schedulers().visible_start(),
            final(self).schedulers().visible_end() == old(self).schedulers().visible_end(),
            final(self).schedulers().is_focused() == old(self).schedulers().is_focused(),
    {
        self.schedulers.fit_scheduler(index, count, len)
    }

    /// `self` and `other` agree on everything but the panel `panel`.
    pub open spec fn same_but(self, other: Self, panel: DashboardFocus) -> bool {
        &&& panel != DashboardFocus::FrontEnd ==> self.front_end() == other.front_end()
        &&& panel != DashboardFocus::DecodeQueue ==> self.decode_queue() == other.decode_queue()
        &&& panel != DashboardFocus::Schedulers ==> self.schedulers() == other.schedulers()
        &&& panel != DashboardFocus::LoadQueue ==> self.load_queue() == other.load_queue()
        &&& panel != DashboardFocus::Rob ==> self.rob() == other.rob()
        &&& panel != DashboardFocus::RegFile ==> self.reg_file() == other.reg_file()
        &&& panel != DashboardFocus::FutureFile ==> self.future_file() == other.future_file()
        &&& self.focus() == other.focus()
        &&& self.spec_exit_code() == other.spec_exit_code()
    }

    /// Whether panel `panel` is marked focused; no panel is `Unfocused`.
    pub open spec fn flag(self, panel: DashboardFocus) -> bool {
        match panel {
            DashboardFocus::Unfocused => false,
            DashboardFocus::FrontEnd => self.front_end().is_focused(),
            DashboardFocus::DecodeQueue => self.decode_queue().is_focused(),
            DashboardFocus::Schedulers => self.schedulers().is_focused(),
            DashboardFocus::LoadQueue => self.load_queue().is_focused(),
            DashboardFocus::Rob => self.rob().is_focused(),
            DashboardFocus::RegFile => self.reg_file().is_focused(),
            DashboardFocus::FutureFile => self.future_file().is_focused(),
        }
    }

    /// `self` and `other` have the same panels and exit code; only which
    /// panel the dashboard says has the focus may differ.
    pub open spec fn same_parts(self, other: Self) -> bool {
        &&& self.front_end() == other.front_end()
        &&& self.decode_queue() == other.decode_queue()
        &&& self.schedulers() == other.schedulers()
        &&& self.reg_file() == other.reg_file()
        &&& self.future_file() == other.future_file()
        &&& self.rob() == other.rob()
        &&& self.load_queue() == other.load_queue()
        &&& self.spec_exit_code() == other.spec_exit_code()
    }

    /// Whether the panel with the focus takes `event`.
    pub open spec fn panel_takes(self, event: InputEvent) -> bool {
        let key = pressed(event);
        match self.focus() {
            DashboardFocus::Unfocused => false,
            DashboardFocus::FrontEnd => false,
            DashboardFocus::DecodeQueue => scrolled_vertically(self.decode_queue().head() as int, key) is Some,
            DashboardFocus::Schedulers => self.schedulers().takes(event),
            DashboardFocus::LoadQueue => scrolled_vertically(self.load_queue().head() as int, key) is Some,
            DashboardFocus::Rob => scrolled_vertically(self.rob().head() as int, key) is Some,
            DashboardFocus::RegFile => scrolled_sideways(self.reg_file().head() as int, key) is Some,
            DashboardFocus::FutureFile => scrolled_sideways(self.future_file().head() as int, key) is Some,
        }
    }

    /// What `event` does to the dashboard `self`, giving `new`: the panel with
    /// the focus scrolls (or, for the reservation stations, may select another
    /// station); nothing else changes.
    pub open spec fn event_effect(self, new: Self, event: InputEvent) -> bool {
        let key = pressed(event);
        &&& new.wf()
        &&& new.focus() == self.focus()
        &&& new.spec_exit_code() == self.spec_exit_code()
        &&& new.front_end() == self.front_end()
        &&& new.decode_queue().is_focused() == self.decode_queue().is_focused()
        &&& new.decode_queue().head() == after_vertical(
            self.decode_queue().head(),
            self.focus() == DashboardFocus::DecodeQueue,
            key,
        )
        &&& new.load_queue().is_focused() == self.load_queue().is_focused()
        &&& new.load_queue().head() == after_vertical(
            self.load_queue().head(),
            self.focus() == DashboardFocus::LoadQueue,
            key,
        )
        &&& new.rob().is_focused() == self.rob().is_focused()
        &&& new.rob().head() == after_vertical(
            self.rob().head(),
            self.focus() == DashboardFocus::Rob,
            key,
        )
        &&& new.reg_file().is_focused() == self.reg_file().is_focused()
        &&& new.reg_file().head() == after_sideways(
            self.reg_file().head(),
            self.focus() == DashboardFocus::RegFile,
            key,
        )
        &&& new.future_file().is_focused() == self.future_file().is_focused()
        &&& new.future_file().head() == after_sideways(
            self.future_file().head(),
            self.focus() == DashboardFocus::FutureFile,
            key,
        )
        &&& self.focus() == DashboardFocus::Schedulers ==> self.schedulers().event_effect(
            new.schedulers(),
            event,
        )
        &&& self.focus() != DashboardFocus::Schedulers ==> new.schedulers() == self.schedulers()
    }

    /// What handling `event` comes to: handled, where the panel with the
    /// focus takes it; otherwise what the dashboard's own keys make of it.
    pub open spec fn outcome(self, event: InputEvent) -> DashboardOutcome {
        if self.panel_takes(event) {
            DashboardOutcome::Done(EventResult::Handled(None))
        } else {
            dashboard_key(self.spec_exit_code(), pressed(event))
        }
    }

    /// Passes the event to the panel with the focus; what no panel takes goes
    /// to the dashboard's own keys (step, run, quit).
    pub fn handle_event(&mut self, event: InputEvent) -> (r: DashboardOutcome)
        requires
            old(self).wf(),
        ensures
            old(self).event_effect(*final(self), event),
            r == old(self).outcome(event),
    {
        let result = match self.focused {
            DashboardFocus::Unfocused => EventResult::default(),
            DashboardFocus::FrontEnd => self.front_end.handle_event(event),
            DashboardFocus::DecodeQueue => self.decode_queue.handle_event(event),
            DashboardFocus::Schedulers => self.schedulers.handle_event(event),
            DashboardFocus::RegFile => self.reg_file.handle_event(event),
            DashboardFocus::FutureFile => self.future_file.handle_event(event),
            DashboardFocus::Rob => self.rob.handle_event(event),
            DashboardFocus::LoadQueue => self.load_queue.handle_event(event),
        };
        match result {
            EventResult::Handled(_) => DashboardOutcome::Done(EventResult::Handled(None)),
            EventResult::Error(err) => DashboardOutcome::Done(EventResult::Error(err)),
            EventResult::Ignored => match key_press(&event) {
                Some(KeyCode::Enter) => if self.exit_code.is_none() {
                    DashboardOutcome::Cpu(CpuCommand::Step)
                } else {
                    DashboardOutcome::Done(EventResult::default())
                },
                Some(KeyCode::F(n)) => if n == 5 && self.exit_code.is_none() {
                    DashboardOutcome::Cpu(CpuCommand::Run)
                } else {
                    DashboardOutcome::Done(EventResult::default())
                },
                Some(KeyCode::Char(c)) => if c == 'q' && self.exit_code.is_some() {
                    DashboardOutcome::Done(EventResult::Handled(self.exit_code))
                } else {
                    DashboardOutcome::Done(EventResult::default())
                },
                _ => DashboardOutcome::Done(EventResult::default()),
            },
        }
    }

    /// Takes in how the CPU command ended: an exit records the program's
    /// exit code; a break changes nothing; CPU errors are passed on.
    pub fn finish(&mut self, run: Result<CpuRun, Vec<String>>) -> (r: EventResult<Option<ExitCode>>)
        ensures
            final(self).same_view(*old(self)) || run matches Ok(CpuRun::Exit(_)),
            final(self).focus() == old(self).focus(),
            final(self).front_end() == old(self).front_end(),
            final(self).decode_queue() == old(self).decode_queue(),
            final(self).schedulers() == old(self).schedulers(),
            final(self).reg_file() == old(self).reg_file(),
            final(self).future_file() == old(self).future_file(),
            final(self).rob() == old(self).rob(),
            final(self).load_queue() == old(self).load_queue(),
            match run {
                Ok(CpuRun::Exit(code)) => final(self).spec_exit_code() == Some(code) && r
                    == EventResult::<Option<ExitCode>>::Handled(None),
                Ok(CpuRun::Break) => final(self).spec_exit_code() == old(self).spec_exit_code() && r
                    == EventResult::<Option<ExitCode>>::Handled(None),
                Err(errs) => final(self).spec_exit_code() == old(self).spec_exit_code() && r
                    == EventResult::<Option<ExitCode>>::Error(SimError::Cpu(errs)),
            },
    {
        match run {
            Ok(CpuRun::Exit(code)) => {
                self.exit_code = Some(code);
                EventResult::Handled(None)
            },
            Ok(CpuRun::Break) => EventResult::Handled(None),
            Err(errs) => EventResult::Error(SimError::Cpu(errs)),
        }
    }

    /// Moves the focus forward (`forward`) or backward on the panel the
    /// dashboard says has it, and tells whether that panel keeps it.
    fn focus_part(&mut self, forward: bool) -> (r: bool)
        requires
            old(self).schedulers().in_sync(),
        ensures
            final(self).focus() == old(self).focus(),
            final(self).same_view(*old(self)),
            final(self).schedulers().in_sync(),
            r == (old(self).focus() != DashboardFocus::Unfocused && !old(self).flag(old(self).focus())),
            forall|p: DashboardFocus|
                #[trigger] final(self).flag(p) == if p == old(self).focus() && p
                    != DashboardFocus::Unfocused {
                    !old(self).flag(p)
                } else {
                    old(self).flag(p)
                },
    {
        match self.focused {
            DashboardFocus::Unfocused => false,
            DashboardFocus::FrontEnd => if forward {
                Focusable::focus_next(&mut self.front_end)
            } else {
                Focusable::focus_prev(&mut self.front_end)
            },
            DashboardFocus::DecodeQueue => if forward {
                Focusable::focus_next(&mut self.decode_queue)
            } else {
                Focusable::focus_prev(&mut self.decode_queue)
            },
            DashboardFocus::Schedulers => if forward {
                Focusable::focus_next(&mut self.schedulers)
            } else {
                Focusable::focus_prev(&mut self.schedulers)
            },
            DashboardFocus::LoadQueue => if forward {
                Focusable::focus_next(&mut self.load_queue)
            } else {
                Focusable::focus_prev(&mut self.load_queue)
            },
            DashboardFocus::Rob => if forward {
                Focusable::focus_next(&mut self.rob)
            } else {
                Focusable::focus_prev(&mut self.rob)
            },
            DashboardFocus::RegFile => if forward {
                Focusable::focus_next(&mut self.reg_file)
            } else {
                Focusable::focus_prev(&mut self.reg_file)
            },
            DashboardFocus::FutureFile => if forward {
                Focusable::focus_next(&mut self.future_file)
            } else {
                Focusable::focus_prev(&mut self.future_file)
            },
        }
    }
}

/// The first entry a list that scrolls up and down shows after `key`, where
/// the list has the focus (`focused`); a list without it keeps its place.
pub open spec fn after_vertical(head: usize, focused: bool, key: Option<KeyCode>) -> int {
    if focused {
        match scrolled_vertically(head as int, key) {
            Some(h) => h,
            None => head as int,
        }
    } else {
        head as int
    }
}

/// The first register a row that scrolls sideways shows after `key`, where
/// the row has the focus (`focused`); a row without it keeps its place.
pub open spec fn after_sideways(head: usize, focused: bool, key: Option<KeyCode>) -> int {
    if focused {
        match scrolled_sideways(head as int, key) {
            Some(h) => h,
            None => head as int,
        }
    } else {
        head as int
    }
}

/// The focus mark of each panel, by name.
proof fn lemma_flags(d: CpuDashboard)
    ensures
        d.flag(DashboardFocus::FrontEnd) == d.front_end().is_focused(),
        d.flag(DashboardFocus::DecodeQueue) == d.decode_queue().is_focused(),
        d.flag(DashboardFocus::Schedulers) == d.schedulers().is_focused(),
        d.flag(DashboardFocus::LoadQueue) == d.load_queue().is_focused(),
        d.flag(DashboardFocus::Rob) == d.rob().is_focused(),
        d.flag(DashboardFocus::RegFile) == d.reg_file().is_focused(),
        d.flag(DashboardFocus::FutureFile) == d.future_file().is_focused(),
{
}

impl FocusHandler for CpuDashboard {
    fn move_focus_next(&mut self)
        ensures
            final(self).focus() == dashboard_at(dashboard_index(old(self).focus()) + 1int),
            final(self).same_parts(*old(self)),
    {
        self.focused = self.focused.next();
    }

    fn move_focus_prev(&mut self)
        ensures
            final(self).focus() == dashboard_at(dashboard_index(old(self).focus()) + 7int),
            final(self).same_parts(*old(self)),
    {
        self.focused = self.focused.prev();
    }
}

impl Focusable for CpuDashboard {
    open spec fn focus_wf(&self) -> bool {
        self.wf()
    }

    /// Moves the focus back until no panel has it.
    fn unfocus(&mut self)
        ensures
            final(self).focus() == DashboardFocus::Unfocused,
            final(self).same_view(*old(self)),
    {
        while self.focused != DashboardFocus::Unfocused
            invariant
                self.wf(),
                self.same_view(*old(self)),
            decreases dashboard_index(self.focus()),
        {
            Focusable::focus_prev(self);
        }
    }

    /// Moves the focus to the next panel, or out of the dashboard after the
    /// last one; tells whether a panel has it.
    fn focus_next(&mut self) -> (r: HasFocus)
        ensures
            final(self).focus() == dashboard_at(dashboard_index(old(self).focus()) + 1int),
            r == (final(self).focus() != DashboardFocus::Unfocused),
            final(self).same_view(*old(self)),
    {
        let accepted = self.focus_part(true);
        proof {
            lemma_flags(*self);
        }
        if accepted {
            return true;
        }
        let ghost start = self.focused;
        loop
            invariant
                self.none_focused(),
                self.focus() == start,
                start == old(self).focus(),
                self.same_view(*old(self)),
            decreases 8 - dashboard_index(self.focus()),
        {
            FocusHandler::move_focus_next(self);
            if self.focused == DashboardFocus::Unfocused {
                return false;
            }
            let accepted = self.focus_part(true);
            proof {
                lemma_flags(*self);
            }
            if accepted {
                return true;
            }
        }
    }

    /// Moves the focus to the previous panel, or out of the dashboard before
    /// the first one; tells whether a panel has it.
    fn focus_prev(&mut self) -> (r: HasFocus)
        ensures
            final(self).focus() == dashboard_at(dashboard_index(old(self).focus()) + 7int),
            r == (final(self).focus() != DashboardFocus::Unfocused),
            final(self).same_view(*old(self)),
    {
        let accepted = self.focus_part(false);
        proof {
            lemma_flags(*self);
        }
        if accepted {
            return true;
        }
        let ghost start = self.focused;
        loop
            invariant
                self.none_focused(),
                self.focus() == start,
                start == old(self).focus(),
                self.same_view(*old(self)),
            decreases dashboard_index(self.focus()),
        {
            FocusHandler::move_focus_prev(self);
            if self.focused == DashboardFocus::Unfocused {
                return false;
            }
            let accepted = self.focus_part(false);
            proof {
                lemma_flags(*self);
            }
            if accepted {
                return true;
            }
        }
    }
}

} // verus!
