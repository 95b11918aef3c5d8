use cpu_sim::ui::csrs::CsrDashboard;
use cpu_sim::ui::events::EventResult;
use cpu_sim::ui::focus::Focusable;
use cpu_sim::ui::front_end::FrontEnd;
use cpu_sim::ui::input::{
    is_ctrl_c, key_press, InputEvent, KeyCode, KeyEvent, KeyEventKind, ALT, CONTROL, SHIFT,
};
use cpu_sim::ui::out_stream::{split_lines, OutStream};
use cpu_sim::ui::regs::{register_columns, Regs};
use cpu_sim::ui::scrolling::{decode_queue_height, fit_head, Scrolling};

fn press(code: KeyCode) -> InputEvent {
    InputEvent::Key(KeyEvent { code, kind: KeyEventKind::Press, modifiers: 0 })
}

fn release(code: KeyCode) -> InputEvent {
    InputEvent::Key(KeyEvent { code, kind: KeyEventKind::Release, modifiers: 0 })
}

fn handled(r: &EventResult<()>) -> bool {
    matches!(r, EventResult::Handled(()))
}

fn ignored(r: &EventResult<()>) -> bool {
    matches!(r, EventResult::Ignored)
}

#[test]
fn key_press_only_for_presses() {
    assert_eq!(key_press(&press(KeyCode::Up)), Some(KeyCode::Up));
    assert_eq!(key_press(&release(KeyCode::Up)), None);
    assert_eq!(key_press(&InputEvent::Resize(80, 24)), None);
    assert_eq!(key_press(&InputEvent::Other), None);
}

#[test]
fn ctrl_c_needs_control_alone() {
    let ctrl_c = KeyEvent { code: KeyCode::Char('c'), kind: KeyEventKind::Press, modifiers: CONTROL };
    assert!(is_ctrl_c(ctrl_c));
    assert!(!is_ctrl_c(KeyEvent { modifiers: CONTROL | SHIFT, ..ctrl_c }));
    assert!(!is_ctrl_c(KeyEvent { modifiers: ALT, ..ctrl_c }));
    assert!(!is_ctrl_c(KeyEvent { modifiers: 0, ..ctrl_c }));
    assert!(!is_ctrl_c(KeyEvent { code: KeyCode::Char('d'), ..ctrl_c }));
    assert!(!is_ctrl_c(KeyEvent { kind: KeyEventKind::Release, ..ctrl_c }));
}

#[test]
fn fit_head_keeps_the_window_inside_the_list() {
    assert_eq!(fit_head(0, 5, 10), 0);
    assert_eq!(fit_head(3, 5, 10), 3);
    assert_eq!(fit_head(7, 5, 10), 5);
    assert_eq!(fit_head(usize::MAX, 5, 10), 5);
    assert_eq!(fit_head(4, 20, 10), 0);
}

#[test]
fn decode_queue_height_counts_three_rows_per_four_entries() {
    assert_eq!(decode_queue_height(0), 2);
    assert_eq!(decode_queue_height(8), 8);
    assert_eq!(decode_queue_height(11), 8);
    assert_eq!(decode_queue_height(0x1_0004), 5);
}

#[test]
fn scrolling_list_keys() {
    let mut list = Scrolling::default();
    assert!(handled(&list.handle_event(press(KeyCode::Down))));
    assert!(handled(&list.handle_event(press(KeyCode::Down))));
    assert_eq!(list.first_shown(), 2);
    assert!(handled(&list.handle_event(press(KeyCode::Up))));
    assert_eq!(list.first_shown(), 1);
    assert!(handled(&list.handle_event(press(KeyCode::Home))));
    assert_eq!(list.first_shown(), 0);
    assert!(handled(&list.handle_event(press(KeyCode::Up))));
    assert_eq!(list.first_shown(), 0);
    assert!(handled(&list.handle_event(press(KeyCode::End))));
    assert_eq!(list.first_shown(), usize::MAX);
    assert!(handled(&list.handle_event(press(KeyCode::Down))));
    assert_eq!(list.first_shown(), usize::MAX);
    assert_eq!(list.fit(4, 10), 6);
    assert_eq!(list.first_shown(), 6);
}

#[test]
fn scrolling_list_ignores_other_events() {
    let mut list = Scrolling::default();
    assert!(ignored(&list.handle_event(press(KeyCode::Left))));
    assert!(ignored(&list.handle_event(release(KeyCode::Down))));
    assert!(ignored(&list.handle_event(InputEvent::Resize(1, 1))));
    assert_eq!(list.first_shown(), 0);
}

#[test]
fn scrolling_list_focus_toggles() {
    let mut list = Scrolling::default();
    assert!(!list.focused());
    assert!(list.focus_next());
    assert!(!list.focus_prev());
    assert!(list.focus_prev());
    list.unfocus();
    assert!(!list.focused());
}

#[test]
fn register_row_scrolls_sideways() {
    let mut regs = Regs::default();
    assert!(ignored(&regs.handle_event(press(KeyCode::Down))));
    assert!(handled(&regs.handle_event(press(KeyCode::Right))));
    assert!(handled(&regs.handle_event(press(KeyCode::Right))));
    assert_eq!(regs.first_shown(), 2);
    assert!(handled(&regs.handle_event(press(KeyCode::Left))));
    assert_eq!(regs.first_shown(), 1);
    assert!(handled(&regs.handle_event(press(KeyCode::End))));
    assert_eq!(regs.fit(8, 32), 24);
    assert!(handled(&regs.handle_event(press(KeyCode::Home))));
    assert_eq!(regs.first_shown(), 0);
    assert!(regs.focus_next());
    assert!(regs.focused());
}

#[test]
fn register_columns_of_a_width() {
    assert_eq!(register_columns(0), (0, 0));
    assert_eq!(register_columns(6), (1, 0));
    assert_eq!(register_columns(14), (2, 0));
    assert_eq!(register_columns(20), (2, 4));
    assert_eq!(register_columns(78), (10, 0));
}

#[test]
fn front_end_heights() {
    assert_eq!(FrontEnd::block_heights(1), [5, 4]);
    assert_eq!(FrontEnd::block_heights(4), [5, 7]);
    assert_eq!(FrontEnd::block_heights(8), [9, 11]);
    assert_eq!(FrontEnd::height(8), 20);
}

#[test]
fn front_end_takes_no_input() {
    let mut panel = FrontEnd::default();
    assert!(ignored(&panel.handle_event(press(KeyCode::Up))));
    assert!(panel.focus_next());
    assert!(panel.focused());
    panel.unfocus();
    assert!(!panel.focused());
}

#[test]
fn csr_table_scrolls() {
    let mut csrs = CsrDashboard::new();
    assert!(handled(&csrs.handle_event(press(KeyCode::End))));
    assert_eq!(csrs.fit(10, 25), 15);
    assert!(handled(&csrs.handle_event(press(KeyCode::Up))));
    assert_eq!(csrs.first_shown(), 14);
    assert!(ignored(&csrs.handle_event(press(KeyCode::Left))));
    assert_eq!(csrs.fit(30, 25), 0);
    assert_eq!(csrs.help(), vec![("↑↓", "Scroll"), ("Home/End", "Scroll to start/end")]);
}

#[test]
fn output_panel_scrolls_back() {
    let mut out = OutStream::new("STDOUT");
    assert_eq!(out.title(), "STDOUT");
    assert!(handled(&out.handle_event(press(KeyCode::Up))));
    assert!(handled(&out.handle_event(press(KeyCode::Up))));
    assert_eq!(out.scrolled(), 2);
    assert!(handled(&out.handle_event(press(KeyCode::Down))));
    assert_eq!(out.scrolled(), 1);
    assert!(ignored(&out.handle_event(press(KeyCode::End))));
    assert!(handled(&out.handle_event(press(KeyCode::Home))));
    assert_eq!(out.scrolled(), 0);
}

#[test]
fn output_panel_steps_back_when_lines_run_out() {
    let mut out = OutStream::new("STDERR");
    for _ in 0..5 {
        out.handle_event(press(KeyCode::Up));
    }
    assert_eq!(out.fit(4, 10), 5);
    assert_eq!(out.fit(4, 8), 4);
    assert_eq!(out.fit(4, 8), 4);
    assert_eq!(out.fit(10, 8), 3);
}

#[test]
fn output_panel_unfocus_keeps_the_mark() {
    let mut out = OutStream::new("STDOUT");
    out.unfocus();
    assert!(out.focused());
    assert!(!out.focus_next());
    assert!(out.focus_prev());
}

#[test]
fn split_lines_keeps_line_breaks() {
    assert_eq!(split_lines(""), Vec::<String>::new());
    assert_eq!(split_lines("a"), vec!["a"]);
    assert_eq!(split_lines("a\n"), vec!["a\n"]);
    assert_eq!(split_lines("ab\ncd\n\ne"), vec!["ab\n", "cd\n", "\n", "e"]);
    assert_eq!(split_lines("\n\n"), vec!["\n", "\n"]);
}
