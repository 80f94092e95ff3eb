use display::color::{Color, Colors};
use display::display::Display;
use display::display_color::{DisplayColor, Theme};
use display::render::{draw_view_data, draw_view_line};
use display::render_loop::{longest_line, transition, LoopState, RenderError, RenderLoop};
use display::render_slice::{apply_action, RenderSlice, ScrollState};
use display::tui::{RecordingTui, Size, State};
use display::view::{LineSegment, RenderAction, ViewAction, ViewData, ViewLine};

fn theme() -> Theme {
    Theme {
        color_foreground: Color::Reset,
        color_background: Color::Reset,
        color_selected_background: Color::AnsiValue(237),
        color_indicator: Color::Cyan,
        color_action_break: Color::White,
        color_action_drop: Color::Red,
        color_action_edit: Color::Blue,
        color_action_exec: Color::White,
        color_action_fixup: Color::Magenta,
        color_action_pick: Color::Green,
        color_action_reword: Color::Yellow,
        color_action_squash: Color::Cyan,
        color_action_label: Color::DarkYellow,
        color_action_reset: Color::DarkYellow,
        color_action_merge: Color::DarkYellow,
        color_diff_add: Color::Green,
        color_diff_change: Color::Yellow,
        color_diff_remove: Color::Red,
        color_diff_context: Color::White,
        color_diff_whitespace: Color::DarkGrey,
    }
}

fn display() -> Display<RecordingTui> {
    Display::new(RecordingTui::new(), &theme())
}

fn line(texts: &[&str]) -> ViewLine {
    ViewLine::new(texts.iter().map(|t| LineSegment::new(t)).collect())
}

fn joined(display: &Display<RecordingTui>) -> String {
    display.tui.get_output().concat()
}

fn state(width: usize, height: usize, body_len: usize, max_width: usize) -> ScrollState {
    ScrollState { width, height, top: 0, left: 0, body_len, max_width }
}

#[test]
fn selected_line_fills_viewport_width() {
    let mut d = display();
    let l = line(&["abc"]).set_selected(true);
    draw_view_line(&mut d, &l, 0, 10).unwrap();
    assert_eq!(joined(&d), "abc       ");
    assert_eq!(joined(&d).chars().count(), 10);
}

#[test]
fn line_ends_with_colors_and_style_reset() {
    let mut d = display();
    let l = ViewLine::new(vec![LineSegment::new_with_color_and_style(
        "x",
        DisplayColor::ActionPick,
        true,
        true,
        true,
    )])
    .set_selected(true);
    draw_view_line(&mut d, &l, 0, 4).unwrap();
    assert_eq!(d.tui.get_colors(), Colors::new(Color::Reset, Color::Reset));
    assert!(!d.tui.is_dimmed() && !d.tui.is_underline() && !d.tui.is_reverse());
}

#[test]
fn empty_line_resets_colors() {
    let mut d = display();
    d.color(DisplayColor::DiffAddColor, true).unwrap();
    draw_view_line(&mut d, &ViewLine::new(vec![]), 0, 4).unwrap();
    assert!(d.tui.get_output().is_empty());
    assert_eq!(d.tui.get_colors(), Colors::new(Color::Reset, Color::Reset));
}

#[test]
fn unselected_line_without_padding_is_not_filled() {
    let mut d = display();
    draw_view_line(&mut d, &line(&["abc"]), 0, 10).unwrap();
    assert_eq!(joined(&d), "abc");
}

#[test]
fn horizontal_scroll_skips_columns_across_segments() {
    let mut d = display();
    draw_view_line(&mut d, &line(&["abcd", "efgh"]), 2, 4).unwrap();
    assert_eq!(d.tui.get_output(), &["cd", "ef"]);
}

#[test]
fn line_longer_than_viewport_is_clipped() {
    let mut d = display();
    draw_view_line(&mut d, &line(&["abcdefghij"]), 0, 4).unwrap();
    assert_eq!(joined(&d), "abcd");
}

#[test]
fn padding_repeats_its_first_character() {
    let mut d = display();
    let l = line(&["ab"]).set_padding(LineSegment::new("-="));
    draw_view_line(&mut d, &l, 0, 6).unwrap();
    assert_eq!(joined(&d), "ab----");
}

#[test]
fn empty_selected_line_is_a_full_bar() {
    let mut d = display();
    let l = ViewLine::new(vec![]).set_selected(true);
    draw_view_line(&mut d, &l, 0, 3).unwrap();
    assert_eq!(joined(&d), "   ");
}

fn sample_view() -> ViewData {
    let mut v = ViewData::new();
    v.show_title = true;
    v.leading_lines = vec![line(&["lead"])];
    v.lines = vec![line(&["one"]), line(&["two"]), line(&["three"]), line(&["four"])];
    v.trailing_lines = vec![line(&["trail"])];
    v
}

#[test]
fn frame_pins_title_leading_and_trailing() {
    let mut d = display();
    let v = sample_view();
    let mut s = state(10, 2, 4, 5);
    s.top = 1;
    draw_view_data(&mut d, &v, s).unwrap();
    assert_eq!(joined(&d), "Git Interactive Rebase Toolleadtwothreetrail");
}

#[test]
fn frame_with_help_and_empty_view() {
    let mut d = display();
    let mut v = sample_view();
    v.show_help = true;
    v.empty = true;
    draw_view_data(&mut d, &v, state(10, 2, 4, 5)).unwrap();
    assert_eq!(joined(&d), "Git Interactive Rebase Tool Type ? for helpNothing to show");
}

#[test]
fn frame_with_empty_body_still_draws_other_groups() {
    let mut d = display();
    let mut v = sample_view();
    v.show_title = false;
    v.lines = vec![];
    draw_view_data(&mut d, &v, state(10, 2, 0, 5)).unwrap();
    assert_eq!(joined(&d), "leadtrail");
}

#[test]
fn scroll_offsets_stay_in_bounds() {
    let actions = [
        RenderAction::ScrollUp,
        RenderAction::PageDown,
        RenderAction::PageDown,
        RenderAction::ScrollDown,
        RenderAction::Resize(5, 0),
        RenderAction::PageDown,
        RenderAction::Resize(5, 100),
        RenderAction::PageUp,
        RenderAction::ScrollRight,
        RenderAction::ScrollLeft,
        RenderAction::ScrollLeft,
    ];
    for body_len in [0usize, 1, 3, 10] {
        for height in [0usize, 1, 4, 20] {
            let mut s = state(5, height, body_len, 8);
            for a in actions {
                s = apply_action(s, a);
                let max_top = body_len.saturating_sub(s.height);
                assert!(s.top <= max_top);
                assert!(s.left <= s.max_width.saturating_sub(s.width));
            }
        }
    }
}

#[test]
fn page_down_stops_at_last_page() {
    let s = apply_action(state(10, 3, 10, 0), RenderAction::PageDown);
    assert_eq!(s.top, 3);
    let s = apply_action(s, RenderAction::PageDown);
    assert_eq!(s.top, 6);
    let s = apply_action(s, RenderAction::PageDown);
    assert_eq!(s.top, 7);
    let s = apply_action(s, RenderAction::PageUp);
    assert_eq!(s.top, 4);
}

#[test]
fn resize_clamps_offsets() {
    let mut s = state(10, 3, 10, 20);
    s.top = 7;
    s.left = 10;
    let s = apply_action(s, RenderAction::Resize(15, 5));
    assert_eq!((s.width, s.height, s.top, s.left), (15, 5, 5, 5));
}

#[test]
fn queued_actions_apply_in_queue_order() {
    // two producers interleave into one queue
    let producer_a = [RenderAction::ScrollDown, RenderAction::Resize(10, 2), RenderAction::PageDown];
    let producer_b = [RenderAction::ScrollDown, RenderAction::ScrollUp, RenderAction::ScrollDown];
    let mut slice = RenderSlice::new();
    slice.set_content(20, 0);
    slice.record_action(RenderAction::Resize(10, 4));
    let mut order = vec![RenderAction::Resize(10, 4)];
    for i in 0..3 {
        slice.record_action(producer_a[i]);
        slice.record_action(producer_b[i]);
        order.push(producer_a[i]);
        order.push(producer_b[i]);
    }
    assert_eq!(slice.get_actions(), &order);
    let mut expected = slice.get_state();
    for a in &order {
        expected = apply_action(expected, *a);
    }
    slice.apply_actions();
    assert!(slice.get_actions().is_empty());
    assert_eq!(slice.get_state(), expected);
    assert_eq!(expected.top, 4);
}

#[test]
fn longest_line_counts_characters() {
    let lines = vec![line(&["ab", "cd"]), line(&["é€x"]), line(&[])];
    assert_eq!(longest_line(&lines), 4);
}

#[test]
fn transitions_follow_the_lifecycle() {
    assert_eq!(transition(LoopState::Uninitialized, ViewAction::Start), Ok(LoopState::Active));
    assert_eq!(transition(LoopState::Active, ViewAction::Render), Ok(LoopState::Active));
    assert_eq!(transition(LoopState::Active, ViewAction::Refresh), Ok(LoopState::Active));
    assert_eq!(transition(LoopState::Active, ViewAction::End), Ok(LoopState::Ended));
    assert_eq!(transition(LoopState::Ended, ViewAction::Start), Ok(LoopState::Active));
    assert_eq!(transition(LoopState::Stopped, ViewAction::Stop), Ok(LoopState::Stopped));
    assert_eq!(transition(LoopState::Uninitialized, ViewAction::Render), Err(RenderError::IllegalState(LoopState::Uninitialized, ViewAction::Render)));
    assert_eq!(transition(LoopState::Stopped, ViewAction::Refresh), Err(RenderError::IllegalState(LoopState::Stopped, ViewAction::Refresh)));
    assert_eq!(transition(LoopState::Active, ViewAction::Start), Err(RenderError::IllegalState(LoopState::Active, ViewAction::Start)));
}

#[test]
fn start_render_end_then_render_is_illegal() {
    let mut render_loop = RenderLoop::new(display());
    let view = sample_view();
    let none: Vec<RenderAction> = vec![];
    assert_eq!(render_loop.get_state(), LoopState::Uninitialized);
    render_loop.handle(ViewAction::Start, &view, &none).unwrap();
    assert_eq!(render_loop.get_state(), LoopState::Active);
    assert_eq!(render_loop.display.tui.get_state(), State::Normal);
    render_loop.handle(ViewAction::Render, &view, &vec![RenderAction::Resize(10, 2)]).unwrap();
    assert_eq!(render_loop.get_state(), LoopState::Active);
    assert_eq!(render_loop.get_scroll().height, 2);
    assert_eq!(render_loop.display.tui.get_output().concat(), "Git Interactive Rebase Toolleadonetwotrail");
    assert!(!render_loop.display.tui.is_dirty());
    render_loop.handle(ViewAction::End, &view, &none).unwrap();
    assert_eq!(render_loop.get_state(), LoopState::Ended);
    assert_eq!(
        render_loop.handle(ViewAction::Render, &view, &none),
        Err(RenderError::IllegalState(LoopState::Ended, ViewAction::Render))
    );
    assert_eq!(render_loop.get_state(), LoopState::Ended);
}

#[test]
fn render_applies_pending_scrolls() {
    let mut render_loop = RenderLoop::new(display());
    let view = sample_view();
    render_loop.handle(ViewAction::Start, &view, &vec![]).unwrap();
    let pending = vec![RenderAction::Resize(10, 2), RenderAction::ScrollDown, RenderAction::ScrollDown];
    render_loop.handle(ViewAction::Render, &view, &pending).unwrap();
    assert_eq!(render_loop.get_scroll().top, 2);
    assert_eq!(render_loop.display.tui.get_output().concat(), "Git Interactive Rebase Toolleadthreefourtrail");
}

#[test]
fn stop_is_legal_from_any_state() {
    let mut render_loop = RenderLoop::new(display());
    let view = sample_view();
    render_loop.handle(ViewAction::Start, &view, &vec![]).unwrap();
    render_loop.handle(ViewAction::Stop, &view, &vec![]).unwrap();
    assert_eq!(render_loop.get_state(), LoopState::Stopped);
    assert_eq!(render_loop.display.tui.get_state(), State::Ended);
}

#[test]
fn window_size_of_recorder() {
    let mut d = display();
    d.tui.set_size(Size::new(3, 4));
    assert_eq!(d.get_window_size().width(), 3);
    assert_eq!(d.get_window_size().height(), 4);
}

#[test]
fn stop_before_start_is_legal() {
    let mut render_loop = RenderLoop::new(display());
    render_loop.handle(ViewAction::Stop, &sample_view(), &vec![]).unwrap();
    assert_eq!(render_loop.get_state(), LoopState::Stopped);
}

#[test]
fn failed_render_keeps_loop_active() {
    let mut render_loop = RenderLoop::new(display());
    let view = sample_view();
    render_loop.handle(ViewAction::Start, &view, &vec![]).unwrap();
    render_loop.display.tui.set_failing(true);
    assert_eq!(
        render_loop.handle(ViewAction::Render, &view, &vec![]),
        Err(RenderError::Io(display::tui::TuiError::Io))
    );
    assert_eq!(render_loop.get_state(), LoopState::Active);
    render_loop.display.tui.set_failing(false);
    render_loop.handle(ViewAction::Render, &view, &vec![]).unwrap();
}

#[test]
fn leading_lines_widen_horizontal_scroll() {
    let mut render_loop = RenderLoop::new(display());
    let mut view = sample_view();
    view.leading_lines = vec![line(&["a leading line wider than the body"])];
    render_loop.handle(ViewAction::Start, &view, &vec![]).unwrap();
    let pending = vec![RenderAction::Resize(10, 2), RenderAction::ScrollRight, RenderAction::ScrollRight];
    render_loop.handle(ViewAction::Render, &view, &pending).unwrap();
    assert_eq!(render_loop.get_scroll().max_width, 34);
    assert_eq!(render_loop.get_scroll().left, 2);
}
