use cpu_sim::ui::console::{Console, ConsoleFocus};
use cpu_sim::ui::dashboard::{CpuCommand, CpuDashboard, CpuRun, DashboardFocus, DashboardOutcome};
use cpu_sim::ui::error::SimError;
use cpu_sim::ui::event_loop::{next_step, LoopStep, EARLY_EXIT_CODE};
use cpu_sim::ui::events::EventResult;
use cpu_sim::ui::focus::{Focus, FocusHandler, Focusable};
use cpu_sim::ui::input::{InputEvent, KeyCode, KeyEvent, KeyEventKind, CONTROL};
use cpu_sim::ui::page::{ExecutionPage, PageFocus};
use cpu_sim::ui::schedulers::Schedulers;
use cpu_sim::ui::selected::Selected;
use cpu_sim::ui::tabs::{ExecutionTabs, Tab};

fn press(code: KeyCode) -> InputEvent {
    InputEvent::Key(KeyEvent { code, kind: KeyEventKind::Press, modifiers: 0 })
}

fn ctrl_c() -> InputEvent {
    InputEvent::Key(KeyEvent { code: KeyCode::Char('c'), kind: KeyEventKind::Press, modifiers: CONTROL })
}

fn done(outcome: &DashboardOutcome) -> Option<&EventResult<Option<i32>>> {
    match outcome {
        DashboardOutcome::Done(r) => Some(r),
        DashboardOutcome::Cpu(_) => None,
    }
}

fn is_handled_none(outcome: &DashboardOutcome) -> bool {
    matches!(done(outcome), Some(EventResult::Handled(None)))
}

fn is_ignored(outcome: &DashboardOutcome) -> bool {
    matches!(done(outcome), Some(EventResult::Ignored))
}

#[test]
fn tab_titles_and_indices() {
    assert_eq!(Tab::titles(), ["Dashboard", "CSRs", "Console"]);
    assert_eq!(Tab::Dashboard.index(), 0);
    assert_eq!(Tab::CSRs.index(), 1);
    assert_eq!(Tab::Console.index(), 2);
    assert_eq!(Tab::Console.next(), Tab::Dashboard);
    assert_eq!(Tab::Dashboard.prev(), Tab::Console);
}

#[test]
fn tab_bar_switches_within_its_ends() {
    let mut tabs = ExecutionTabs::new(Tab::Dashboard);
    assert!(matches!(tabs.handle_event(press(KeyCode::Left)), EventResult::Ignored));
    assert!(matches!(tabs.handle_event(press(KeyCode::Right)), EventResult::Handled(Tab::CSRs)));
    assert!(matches!(tabs.handle_event(press(KeyCode::Right)), EventResult::Handled(Tab::Console)));
    assert!(matches!(tabs.handle_event(press(KeyCode::Right)), EventResult::Ignored));
    assert!(matches!(tabs.handle_event(press(KeyCode::Left)), EventResult::Handled(Tab::CSRs)));
    assert!(matches!(tabs.handle_event(press(KeyCode::Up)), EventResult::Ignored));
    assert_eq!(tabs.help(), vec![("←→", "Switch Tab")]);
}

#[test]
fn selected_moves_within_the_items() {
    let s = Selected::new(3);
    assert_eq!(s.get(), 0);
    assert_eq!(s.prev().get(), 0);
    assert_eq!(s.next().get(), 1);
    assert_eq!(s.next().next().next().get(), 2);
    assert_eq!(s.last().get(), 2);
    assert_eq!(s.last().first().get(), 0);
}

#[test]
fn schedulers_start_at_the_first() {
    let schedulers = Schedulers::new(3);
    assert_eq!(schedulers.count(), 3);
    assert_eq!(schedulers.selected_index(), 0);
    assert_eq!(schedulers.visible(), 0..0);
    assert!(!schedulers.focused());
}

#[test]
fn schedulers_switch_and_scroll() {
    let mut schedulers = Schedulers::new(3);
    assert!(schedulers.focus_next());
    assert!(schedulers.scheduler(0).focused());
    schedulers.fit_visible(2);
    assert_eq!(schedulers.visible(), 0..2);
    assert!(matches!(schedulers.handle_event(press(KeyCode::Down)), EventResult::Handled(())));
    assert_eq!(schedulers.scheduler(0).first_shown(), 1);
    assert!(matches!(schedulers.handle_event(press(KeyCode::Right)), EventResult::Handled(())));
    assert_eq!(schedulers.selected_index(), 1);
    assert!(!schedulers.scheduler(0).focused());
    assert!(schedulers.scheduler(1).focused());
    assert_eq!(schedulers.visible(), 0..2);
    assert!(matches!(schedulers.handle_event(press(KeyCode::Right)), EventResult::Handled(())));
    assert_eq!(schedulers.selected_index(), 2);
    assert_eq!(schedulers.visible(), 1..3);
    assert!(matches!(schedulers.handle_event(press(KeyCode::Right)), EventResult::Ignored));
    assert!(matches!(schedulers.handle_event(press(KeyCode::Left)), EventResult::Handled(())));
    assert!(matches!(schedulers.handle_event(press(KeyCode::Left)), EventResult::Handled(())));
    assert_eq!(schedulers.selected_index(), 0);
    assert_eq!(schedulers.visible(), 0..2);
    assert!(matches!(schedulers.handle_event(press(KeyCode::Left)), EventResult::Ignored));
    assert_eq!(schedulers.scheduler(0).first_shown(), 1);
    assert_eq!(schedulers.fit_scheduler(0, 4, 3), 0);
}

#[test]
fn schedulers_home_and_end_scroll_the_selected_station() {
    let mut schedulers = Schedulers::new(2);
    schedulers.focus_next();
    assert!(matches!(schedulers.handle_event(press(KeyCode::End)), EventResult::Handled(())));
    assert_eq!(schedulers.selected_index(), 0);
    assert_eq!(schedulers.scheduler(0).first_shown(), usize::MAX);
}

#[test]
fn schedulers_give_up_the_focus() {
    let mut schedulers = Schedulers::new(2);
    schedulers.focus_next();
    assert!(!schedulers.focus_prev());
    assert!(!schedulers.scheduler(0).focused());
    schedulers.focus_next();
    schedulers.unfocus();
    assert!(!schedulers.focused());
    assert!(!schedulers.scheduler(0).focused());
}

#[test]
fn console_moves_the_focus_round() {
    let mut console = Console::default();
    assert_eq!(console.focused(), ConsoleFocus::Unfocused);
    assert!(Focusable::focus_next(&mut console));
    assert_eq!(console.focused(), ConsoleFocus::Stdout);
    assert!(console.stdout_panel().focused());
    assert!(Focusable::focus_next(&mut console));
    assert_eq!(console.focused(), ConsoleFocus::Stderr);
    assert!(!console.stdout_panel().focused());
    assert!(!Focusable::focus_next(&mut console));
    assert_eq!(console.focused(), ConsoleFocus::Unfocused);
    assert!(Focusable::focus_prev(&mut console));
    assert_eq!(console.focused(), ConsoleFocus::Stderr);
    console.unfocus();
    assert_eq!(console.focused(), ConsoleFocus::Unfocused);
    assert!(!console.stderr_panel().focused());
}

#[test]
fn console_passes_keys_to_the_focused_stream() {
    let mut console = Console::new();
    assert!(matches!(console.handle_event(press(KeyCode::Up)), EventResult::Ignored));
    Focusable::focus_next(&mut console);
    Focusable::focus_next(&mut console);
    assert!(matches!(console.handle_event(press(KeyCode::Up)), EventResult::Handled(())));
    assert_eq!(console.stderr_panel().scrolled(), 1);
    assert_eq!(console.stdout_panel().scrolled(), 0);
    assert_eq!(console.fit(5, 3, 3), (0, 0));
    assert_eq!(console.help(), vec![("↑↓", "Scroll"), ("Home", "Scroll to bottom")]);
}

#[test]
fn console_focus_handler_moves_without_marking() {
    let mut console = Console::new();
    FocusHandler::move_focus_next(&mut console);
    assert_eq!(console.focused(), ConsoleFocus::Stdout);
    assert!(!console.stdout_panel().focused());
    FocusHandler::move_focus_prev(&mut console);
    assert_eq!(console.focused(), ConsoleFocus::Unfocused);
}

#[test]
fn dashboard_focus_goes_round_the_panels() {
    let mut dashboard = CpuDashboard::new(2);
    let order = [
        DashboardFocus::FrontEnd,
        DashboardFocus::DecodeQueue,
        DashboardFocus::Schedulers,
        DashboardFocus::LoadQueue,
        DashboardFocus::Rob,
        DashboardFocus::RegFile,
        DashboardFocus::FutureFile,
    ];
    for panel in order {
        assert!(Focusable::focus_next(&mut dashboard));
        assert_eq!(dashboard.focused(), panel);
    }
    assert!(!Focusable::focus_next(&mut dashboard));
    assert_eq!(dashboard.focused(), DashboardFocus::Unfocused);
    assert!(Focusable::focus_prev(&mut dashboard));
    assert_eq!(dashboard.focused(), DashboardFocus::FutureFile);
    assert!(dashboard.future_file_panel().focused());
    dashboard.unfocus();
    assert_eq!(dashboard.focused(), DashboardFocus::Unfocused);
    assert!(!dashboard.future_file_panel().focused());
}

#[test]
fn dashboard_steps_runs_and_quits() {
    let mut dashboard = CpuDashboard::new(1);
    assert!(matches!(dashboard.handle_event(press(KeyCode::Enter)), DashboardOutcome::Cpu(CpuCommand::Step)));
    assert!(matches!(dashboard.handle_event(press(KeyCode::F(5))), DashboardOutcome::Cpu(CpuCommand::Run)));
    assert!(is_ignored(&dashboard.handle_event(press(KeyCode::F(4)))));
    assert!(is_ignored(&dashboard.handle_event(press(KeyCode::Char('q')))));
    assert!(matches!(dashboard.finish(Ok(CpuRun::Break)), EventResult::Handled(None)));
    assert_eq!(dashboard.exit_code(), None);
    assert!(matches!(dashboard.finish(Ok(CpuRun::Exit(3))), EventResult::Handled(None)));
    assert_eq!(dashboard.exit_code(), Some(3));
    assert!(is_ignored(&dashboard.handle_event(press(KeyCode::Enter))));
    assert!(is_ignored(&dashboard.handle_event(press(KeyCode::F(5)))));
    assert!(matches!(
        done(&dashboard.handle_event(press(KeyCode::Char('q')))),
        Some(EventResult::Handled(Some(3)))
    ));
}

#[test]
fn dashboard_passes_cpu_errors_on() {
    let mut dashboard = CpuDashboard::new(1);
    match dashboard.finish(Err(vec!["bad fetch".to_string()])) {
        EventResult::Error(SimError::Cpu(errs)) => assert_eq!(errs, vec!["bad fetch".to_string()]),
        _ => panic!("expected a CPU error"),
    }
}

#[test]
fn dashboard_panels_take_their_keys() {
    let mut dashboard = CpuDashboard::new(2);
    Focusable::focus_next(&mut dashboard);
    assert!(is_ignored(&dashboard.handle_event(press(KeyCode::Down))));
    Focusable::focus_next(&mut dashboard);
    assert!(is_handled_none(&dashboard.handle_event(press(KeyCode::Down))));
    assert_eq!(dashboard.decode_queue_panel().first_shown(), 1);
    Focusable::focus_next(&mut dashboard);
    assert!(is_handled_none(&dashboard.handle_event(press(KeyCode::Right))));
    assert_eq!(dashboard.schedulers_panel().selected_index(), 1);
    for _ in 0..3 {
        Focusable::focus_next(&mut dashboard);
    }
    assert_eq!(dashboard.focused(), DashboardFocus::RegFile);
    assert!(is_handled_none(&dashboard.handle_event(press(KeyCode::Right))));
    assert_eq!(dashboard.reg_file_panel().first_shown(), 1);
    assert!(matches!(dashboard.handle_event(press(KeyCode::Enter)), DashboardOutcome::Cpu(CpuCommand::Step)));
    assert_eq!(dashboard.fit_reg_file(8, 32), 1);
    assert_eq!(dashboard.fit_decode_queue(4, 3), 0);
    assert_eq!(dashboard.fit_rob(4, 8), 0);
    assert_eq!(dashboard.fit_load_queue(4, 8), 0);
    assert_eq!(dashboard.fit_future_file(8, 32), 0);
    assert_eq!(dashboard.schedulers_panel().visible(), 1..1);
    dashboard.fit_schedulers(2);
    assert_eq!(dashboard.schedulers_panel().visible(), 1..3);
    assert_eq!(dashboard.fit_scheduler(1, 4, 8), 0);
}

#[test]
fn dashboard_tips_follow_state_and_focus() {
    let mut dashboard = CpuDashboard::new(1);
    assert_eq!(dashboard.help(), vec![("F5", "Run"), ("Enter", "Step")]);
    Focusable::focus_next(&mut dashboard);
    Focusable::focus_next(&mut dashboard);
    Focusable::focus_next(&mut dashboard);
    assert_eq!(
        dashboard.help(),
        vec![
            ("F5", "Run"),
            ("Enter", "Step"),
            ("↑↓", "Scroll"),
            ("Home/End", "Scroll to start/end"),
            ("←→", "Switch scheduler"),
        ]
    );
    dashboard.finish(Ok(CpuRun::Exit(0)));
    Focusable::focus_prev(&mut dashboard);
    Focusable::focus_prev(&mut dashboard);
    assert_eq!(dashboard.help(), vec![("Q", "Quit")]);
}

#[test]
fn page_starts_on_the_dashboard_front_end() {
    let page = ExecutionPage::new(2);
    assert_eq!(page.current_tab(), Tab::Dashboard);
    assert_eq!(page.focused(), PageFocus::Content);
    assert_eq!(page.dashboard_tab().focused(), DashboardFocus::FrontEnd);
    assert!(page.dashboard_tab().front_end_panel().focused());
    assert!(!page.tabs_panel().focused());
    assert_eq!(page.help(), vec![("Tab", "Focus next"), ("Shift+Tab", "Focus previous"), ("F5", "Run"), ("Enter", "Step")]);
}

#[test]
fn page_focus_goes_round_the_tab_and_the_bar() {
    let mut page = ExecutionPage::new(1);
    for _ in 0..6 {
        assert!(page.focus_next());
        assert_eq!(page.focused(), PageFocus::Content);
    }
    assert_eq!(page.dashboard_tab().focused(), DashboardFocus::FutureFile);
    assert!(page.focus_next());
    assert_eq!(page.focused(), PageFocus::Tabs);
    assert!(page.tabs_panel().focused());
    assert_eq!(page.dashboard_tab().focused(), DashboardFocus::Unfocused);
    assert!(page.focus_next());
    assert_eq!(page.dashboard_tab().focused(), DashboardFocus::FrontEnd);
    assert!(page.focus_prev());
    assert_eq!(page.focused(), PageFocus::Tabs);
    assert!(page.focus_prev());
    assert_eq!(page.dashboard_tab().focused(), DashboardFocus::FutureFile);
}

#[test]
fn page_switches_tabs_from_the_bar() {
    let mut page = ExecutionPage::new(1);
    for _ in 0..7 {
        page.focus_next();
    }
    assert_eq!(page.focused(), PageFocus::Tabs);
    assert!(is_handled_none(&page.handle_event(press(KeyCode::Right))));
    assert_eq!(page.current_tab(), Tab::CSRs);
    assert_eq!(page.help(), vec![("Tab", "Focus next"), ("Shift+Tab", "Focus previous"), ("←→", "Switch Tab")]);
    page.focus_next();
    assert_eq!(page.focused(), PageFocus::Content);
    assert!(page.csrs_tab().focused());
    assert!(is_handled_none(&page.handle_event(press(KeyCode::Down))));
    assert_eq!(page.csrs_tab().first_shown(), 1);
    assert!(is_ignored(&page.handle_event(press(KeyCode::Left))));
    page.focus_next();
    assert_eq!(page.focused(), PageFocus::Tabs);
    assert!(is_handled_none(&page.handle_event(press(KeyCode::Right))));
    assert_eq!(page.current_tab(), Tab::Console);
    page.focus_next();
    assert_eq!(page.console_tab().focused(), ConsoleFocus::Stdout);
    assert!(is_handled_none(&page.handle_event(press(KeyCode::Up))));
    assert_eq!(page.console_tab().stdout_panel().scrolled(), 1);
}

#[test]
fn page_passes_cpu_results_to_the_dashboard() {
    let mut page = ExecutionPage::new(1);
    assert!(matches!(page.handle_event(press(KeyCode::Enter)), DashboardOutcome::Cpu(CpuCommand::Step)));
    assert!(matches!(page.finish(Ok(CpuRun::Exit(7))), EventResult::Handled(None)));
    assert_eq!(page.dashboard_tab().exit_code(), Some(7));
}

#[test]
fn event_loop_moves_focus_on_tab() {
    let mut page = ExecutionPage::new(1);
    let step = next_step(&mut page, press(KeyCode::Tab), EventResult::Ignored);
    assert!(matches!(step, LoopStep::Redraw(None)));
    assert_eq!(page.dashboard_tab().focused(), DashboardFocus::DecodeQueue);
    let step = next_step(&mut page, press(KeyCode::BackTab), EventResult::Ignored);
    assert!(matches!(step, LoopStep::Redraw(None)));
    assert_eq!(page.dashboard_tab().focused(), DashboardFocus::FrontEnd);
}

#[test]
fn event_loop_stops_early_on_ctrl_c() {
    let mut page = ExecutionPage::new(1);
    assert_eq!(EARLY_EXIT_CODE, 1);
    assert!(matches!(next_step(&mut page, ctrl_c(), EventResult::Ignored), LoopStep::Redraw(Some(1))));
}

#[test]
fn event_loop_redraws_on_resize_and_waits_otherwise() {
    let mut page = ExecutionPage::new(1);
    assert!(matches!(next_step(&mut page, InputEvent::Resize(80, 24), EventResult::Ignored), LoopStep::Redraw(None)));
    assert!(matches!(next_step(&mut page, press(KeyCode::Char('x')), EventResult::Ignored), LoopStep::Wait));
    assert!(matches!(next_step(&mut page, InputEvent::Other, EventResult::Ignored), LoopStep::Wait));
}

#[test]
fn event_loop_follows_the_page_outcome() {
    let mut page = ExecutionPage::new(1);
    assert!(matches!(next_step(&mut page, press(KeyCode::Char('q')), EventResult::Handled(Some(4))), LoopStep::Redraw(Some(4))));
    assert!(matches!(next_step(&mut page, press(KeyCode::Tab), EventResult::Handled(None)), LoopStep::Redraw(None)));
    assert_eq!(page.dashboard_tab().focused(), DashboardFocus::FrontEnd);
    let err = EventResult::Error(SimError::EarlyExit);
    assert!(matches!(next_step(&mut page, press(KeyCode::Enter), err), LoopStep::Fail(SimError::EarlyExit)));
}

#[test]
fn sim_error_messages() {
    assert_eq!(SimError::EarlyExit.message(), "early exit");
    assert_eq!(SimError::Cpu(vec!["a".to_string(), "b".to_string()]).message(), "a\nb\n");
    let io = std::io::Error::new(std::io::ErrorKind::Other, "tty gone");
    assert_eq!(SimError::from(io).message(), "tty gone");
    assert!(matches!(SimError::from(vec!["x".to_string()]), SimError::Cpu(_)));
}

#[test]
fn event_result_map() {
    let r: EventResult<i32> = EventResult::Handled(2);
    assert!(matches!(r.map(|x| x * 10), EventResult::Handled(20)));
    let r: EventResult<i32> = EventResult::Ignored;
    assert!(matches!(r.map(|x| x * 10), EventResult::Ignored));
    let r: EventResult<i32> = EventResult::default();
    assert!(matches!(r, EventResult::Ignored));
}

#[test]
fn page_fits_the_console_and_the_registers() {
    let mut page = ExecutionPage::new(1);
    for _ in 0..7 {
        page.focus_next();
    }
    page.handle_event(press(KeyCode::Right));
    page.handle_event(press(KeyCode::Right));
    page.focus_next();
    for _ in 0..3 {
        page.handle_event(press(KeyCode::Up));
    }
    assert_eq!(page.fit_console(5, 6, 2), (2, 0));
    assert_eq!(page.fit_csrs(10, 4), 0);
    assert_eq!(page.console_tab().focused(), ConsoleFocus::Stdout);
}

#[test]
fn event_result_map_identity_and_composition() {
    let r: EventResult<i32> = EventResult::Handled(4);
    assert!(matches!(r.map(|v| v), EventResult::Handled(4)));
    let f = |v: i32| v + 1;
    let g = |v: i32| v * 3;
    let once = EventResult::Handled(4).map(f).map(g);
    let fused = EventResult::Handled(4).map(|v| g(f(v)));
    assert!(matches!((once, fused), (EventResult::Handled(15), EventResult::Handled(15))));
    let e: EventResult<i32> = EventResult::Error(SimError::EarlyExit);
    assert!(matches!(e.map(|v| v), EventResult::Error(SimError::EarlyExit)));
}
