use cpu_sim::memory::Memory;
use cpu_sim::os::{read_bytes, write_bytes, Os};
use cpu_sim::ui::dashboard::DashboardFocus;
use cpu_sim::ui::events::EventResult;
use cpu_sim::ui::focus::Focus;
use cpu_sim::ui::input::{InputEvent, KeyCode, KeyEvent, KeyEventKind};
use cpu_sim::ui::out_stream::{split_lines, OutStream};
use cpu_sim::ui::page::{ExecutionPage, PageFocus};
use cpu_sim::ui::schedulers::Schedulers;
use cpu_sim::ui::scrolling::{fit_head, Scrolling};
use cpu_sim::ui::selected::Selected;
use cpu_sim::ui::streams::StdStream;
use cpu_sim::ui::tabs::{ExecutionTabs, Tab};

fn press(code: KeyCode) -> InputEvent {
    InputEvent::Key(KeyEvent { code, kind: KeyEventKind::Press, modifiers: 0 })
}

fn patterned_memory() -> Memory {
    let mut mem = Memory::new(16);
    let bytes: Vec<u8> = (0..16).map(|i| i as u8 * 3).collect();
    mem.copy_from_slice(0, &bytes);
    mem
}

#[test]
fn read_after_write_gives_the_data() {
    let mut mem = patterned_memory();
    write_bytes(&mut mem, 4..8, &[0xA, 0xB, 0xC, 0xD, 0xE]);
    assert_eq!(read_bytes(&mem, 4..8), vec![0xA, 0xB, 0xC, 0xD]);
}

#[test]
fn write_touches_only_its_range() {
    let mut mem = patterned_memory();
    let before = read_bytes(&mem, 0..16);
    write_bytes(&mut mem, 4..8, &[0xFF; 4]);
    let after = read_bytes(&mem, 0..16);
    for addr in (0..4).chain(8..16) {
        assert_eq!(after[addr], before[addr]);
    }
}

#[test]
fn writing_back_what_was_read_changes_nothing() {
    let mut mem = patterned_memory();
    let before = read_bytes(&mem, 0..16);
    let bytes = read_bytes(&mem, 3..11);
    write_bytes(&mut mem, 3..11, &bytes);
    assert_eq!(read_bytes(&mem, 0..16), before);
}

#[test]
fn selection_steps_undo_each_other() {
    let s = Selected::new(4).next();
    assert_eq!(s.get(), 1);
    assert_eq!(s.next().prev().get(), 1);
    assert_eq!(s.prev().next().get(), 1);
    assert_eq!(s.last().next().get(), 3);
    assert_eq!(s.first().prev().get(), 0);
}

#[test]
fn successive_heap_blocks_follow_each_other() {
    let mut os = Os::new(StdStream::default(), StdStream::default(), StdStream::default());
    let first = os.sbrk(0x1_0000, 0x40).unwrap();
    let second = os.sbrk(0x1_0000, 0x20).unwrap();
    let third = os.sbrk(0x1_0000, 0).unwrap();
    assert_eq!(second, first + 0x40);
    assert_eq!(third, second + 0x20);
}

fn focus_marks(page: &ExecutionPage) -> usize {
    let d = page.dashboard_tab();
    let c = page.console_tab();
    [
        page.tabs_panel().focused(),
        page.csrs_tab().focused(),
        c.stdout_panel().focused(),
        c.stderr_panel().focused(),
        d.front_end_panel().focused(),
        d.decode_queue_panel().focused(),
        d.schedulers_panel().focused(),
        d.load_queue_panel().focused(),
        d.rob_panel().focused(),
        d.reg_file_panel().focused(),
        d.future_file_panel().focused(),
    ]
    .iter()
    .filter(|b| **b)
    .count()
}

#[test]
fn exactly_one_part_has_the_focus() {
    let mut page = ExecutionPage::new(2);
    assert_eq!(focus_marks(&page), 1);
    for step in 0..20 {
        if step % 3 == 2 {
            page.focus_prev();
        } else {
            page.focus_next();
        }
        if page.focused() == PageFocus::Tabs && step % 4 == 0 {
            page.handle_event(press(KeyCode::Right));
        }
        assert_eq!(focus_marks(&page), 1);
    }
}

#[test]
fn focus_back_undoes_focus_forward() {
    let mut page = ExecutionPage::new(2);
    for _ in 0..9 {
        let before = (page.focused(), page.dashboard_tab().focused());
        page.focus_next();
        page.focus_prev();
        assert_eq!((page.focused(), page.dashboard_tab().focused()), before);
        page.focus_next();
    }
}

#[test]
fn a_whole_round_of_the_focus_comes_back() {
    let mut page = ExecutionPage::new(1);
    for _ in 0..8 {
        page.focus_next();
    }
    assert_eq!(page.focused(), PageFocus::Content);
    assert_eq!(page.dashboard_tab().focused(), DashboardFocus::FrontEnd);
}

#[test]
fn fitting_twice_changes_nothing() {
    for (head, count, len) in [(0, 3, 10), (9, 3, 10), (usize::MAX, 3, 10), (5, 20, 10)] {
        let once = fit_head(head, count, len);
        assert_eq!(fit_head(once, count, len), once);
        assert!(once <= head);
        assert!(once == 0 || once + count <= len);
    }
}

#[test]
fn end_shows_the_last_entries() {
    let mut list = Scrolling::default();
    list.handle_event(press(KeyCode::End));
    assert_eq!(list.fit(4, 10), 6);
    let mut list = Scrolling::default();
    list.handle_event(press(KeyCode::End));
    assert_eq!(list.fit(40, 10), 0);
}

#[test]
fn up_undoes_down() {
    let mut list = Scrolling::default();
    list.handle_event(press(KeyCode::Down));
    list.handle_event(press(KeyCode::Down));
    list.handle_event(press(KeyCode::Up));
    assert_eq!(list.first_shown(), 1);
}

#[test]
fn down_undoes_up_in_output() {
    let mut out = OutStream::new("STDOUT");
    out.handle_event(press(KeyCode::Up));
    out.handle_event(press(KeyCode::Up));
    out.handle_event(press(KeyCode::Down));
    assert_eq!(out.scrolled(), 1);
}

#[test]
fn left_undoes_right() {
    for tab in [Tab::Dashboard, Tab::CSRs] {
        let mut bar = ExecutionTabs::new(tab);
        bar.handle_event(press(KeyCode::Right));
        assert!(matches!(bar.handle_event(press(KeyCode::Left)), EventResult::Handled(t) if t == tab));
    }
    assert_eq!(Tab::CSRs.next().prev(), Tab::CSRs);
}

#[test]
fn the_selected_station_stays_shown() {
    let mut schedulers = Schedulers::new(5);
    schedulers.fit_visible(2);
    for _ in 0..4 {
        schedulers.handle_event(press(KeyCode::Right));
        let v = schedulers.visible();
        assert!(v.contains(&schedulers.selected_index()));
    }
    for _ in 0..4 {
        schedulers.handle_event(press(KeyCode::Left));
        let v = schedulers.visible();
        assert!(v.contains(&schedulers.selected_index()));
    }
}

#[test]
fn lines_join_back_into_the_text() {
    for text in ["", "x", "one\ntwo\n", "\n\nthree", "a\nb"] {
        assert_eq!(split_lines(text).concat(), text);
    }
}
