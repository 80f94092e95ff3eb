use display::color::{find_color, register_selectable_color_pairs, Color, ColorMode, Colors};
use display::display::Display;
use display::display_color::{DisplayColor, Theme};
use display::tui::{RecordingTui, Size, State, Tui, TuiError};

fn create_theme() -> Theme {
    Theme {
        color_foreground: Color::Reset,
        color_background: Color::Reset,
        color_selected_background: Color::AnsiValue(237),
        color_indicator: Color::Cyan,
        color_action_break: Color::White,
        color_action_drop: Color::Red,
        color_action_edit: Color::Blue,
        color_action_exec: Color::White,
        color_action_fixup: Color::Magenta,
        color_action_pick: Color::Green,
        color_action_reword: Color::Yellow,
        color_action_squash: Color::Cyan,
        color_action_label: Color::DarkYellow,
        color_action_reset: Color::DarkYellow,
        color_action_merge: Color::DarkYellow,
        color_diff_add: Color::Green,
        color_diff_change: Color::Yellow,
        color_diff_remove: Color::Red,
        color_diff_context: Color::White,
        color_diff_whitespace: Color::DarkGrey,
    }
}

fn new_display() -> Display<RecordingTui> {
    Display::new(RecordingTui::new(), &create_theme())
}

#[test]
fn draw_str() {
    let mut display = new_display();
    display.draw_str("Test String").unwrap();
    assert_eq!(display.tui.get_output(), &["Test String"]);
}

#[test]
fn clear() {
    let mut display = new_display();
    display.draw_str("Test String").unwrap();
    display.set_dim(true).unwrap();
    display.set_reverse(true).unwrap();
    display.set_underline(true).unwrap();
    display.clear().unwrap();
    assert!(display.tui.get_output().is_empty());
    assert!(!display.tui.is_dimmed());
    assert!(!display.tui.is_reverse());
    assert!(!display.tui.is_underline());
}

#[test]
fn refresh() {
    let mut display = new_display();
    display.refresh().unwrap();
    assert!(!display.tui.is_dirty());
}

fn check_color(display_color: DisplayColor, selected: bool, expected_foreground: Color, expected_background: Color) {
    let mut display = new_display();
    display.color(display_color, selected).unwrap();
    assert!(display
        .tui
        .is_colors_enabled(Colors::new(expected_foreground, expected_background)));
}

#[test]
fn color_action_break() {
    check_color(DisplayColor::ActionBreak, false, Color::White, Color::Reset);
}

#[test]
fn color_action_break_selected() {
    check_color(DisplayColor::ActionBreak, true, Color::White, Color::AnsiValue(237));
}

#[test]
fn color_action_drop() {
    check_color(DisplayColor::ActionDrop, false, Color::Red, Color::Reset);
}

#[test]
fn color_action_drop_selected() {
    check_color(DisplayColor::ActionDrop, true, Color::Red, Color::AnsiValue(237));
}

#[test]
fn color_action_edit() {
    check_color(DisplayColor::ActionEdit, false, Color::Blue, Color::Reset);
}

#[test]
fn color_action_edit_selected() {
    check_color(DisplayColor::ActionEdit, true, Color::Blue, Color::AnsiValue(237));
}

#[test]
fn color_action_exec() {
    check_color(DisplayColor::ActionExec, false, Color::White, Color::Reset);
}

#[test]
fn color_action_exec_selected() {
    check_color(DisplayColor::ActionExec, true, Color::White, Color::AnsiValue(237));
}

#[test]
fn color_action_fixup() {
    check_color(DisplayColor::ActionFixup, false, Color::Magenta, Color::Reset);
}

#[test]
fn color_action_fixup_selected() {
    check_color(DisplayColor::ActionFixup, true, Color::Magenta, Color::AnsiValue(237));
}

#[test]
fn color_action_pick() {
    check_color(DisplayColor::ActionPick, false, Color::Green, Color::Reset);
}

#[test]
fn color_action_pick_selected() {
    check_color(DisplayColor::ActionPick, true, Color::Green, Color::AnsiValue(237));
}

#[test]
fn color_action_reword() {
    check_color(DisplayColor::ActionReword, false, Color::Yellow, Color::Reset);
}

#[test]
fn color_action_reword_selected() {
    check_color(DisplayColor::ActionReword, true, Color::Yellow, Color::AnsiValue(237));
}

#[test]
fn color_action_squash() {
    check_color(DisplayColor::ActionSquash, false, Color::Cyan, Color::Reset);
}

#[test]
fn color_action_squash_selected() {
    check_color(DisplayColor::ActionSquash, true, Color::Cyan, Color::AnsiValue(237));
}

#[test]
fn color_action_label() {
    check_color(DisplayColor::ActionLabel, false, Color::DarkYellow, Color::Reset);
}

#[test]
fn color_action_label_selected() {
    check_color(DisplayColor::ActionLabel, true, Color::DarkYellow, Color::AnsiValue(237));
}

#[test]
fn color_action_reset() {
    check_color(DisplayColor::ActionReset, false, Color::DarkYellow, Color::Reset);
}

#[test]
fn color_action_reset_selected() {
    check_color(DisplayColor::ActionReset, true, Color::DarkYellow, Color::AnsiValue(237));
}

#[test]
fn color_action_merge() {
    check_color(DisplayColor::ActionMerge, false, Color::DarkYellow, Color::Reset);
}

#[test]
fn color_action_merge_selected() {
    check_color(DisplayColor::ActionMerge, true, Color::DarkYellow, Color::AnsiValue(237));
}

#[test]
fn color_normal() {
    check_color(DisplayColor::Normal, false, Color::Reset, Color::Reset);
}

#[test]
fn color_normal_selected() {
    check_color(DisplayColor::Normal, true, Color::Reset, Color::AnsiValue(237));
}

#[test]
fn color_indicator() {
    check_color(DisplayColor::IndicatorColor, false, Color::Cyan, Color::Reset);
}

#[test]
fn color_indicator_selected() {
    check_color(DisplayColor::IndicatorColor, true, Color::Cyan, Color::AnsiValue(237));
}

#[test]
fn color_diff_add() {
    check_color(DisplayColor::DiffAddColor, false, Color::Green, Color::Reset);
}

#[test]
fn color_diff_add_selected() {
    check_color(DisplayColor::DiffAddColor, true, Color::Green, Color::AnsiValue(237));
}

#[test]
fn color_diff_remove() {
    check_color(DisplayColor::DiffRemoveColor, false, Color::Red, Color::Reset);
}

#[test]
fn color_diff_remove_selected() {
    check_color(DisplayColor::DiffRemoveColor, true, Color::Red, Color::AnsiValue(237));
}

#[test]
fn color_diff_change() {
    check_color(DisplayColor::DiffChangeColor, false, Color::Yellow, Color::Reset);
}

#[test]
fn color_diff_change_selected() {
    check_color(DisplayColor::DiffChangeColor, true, Color::Yellow, Color::AnsiValue(237));
}

#[test]
fn color_diff_context() {
    check_color(DisplayColor::DiffContextColor, false, Color::White, Color::Reset);
}

#[test]
fn color_diff_context_selected() {
    check_color(DisplayColor::DiffContextColor, true, Color::White, Color::AnsiValue(237));
}

#[test]
fn color_diff_whitespace() {
    check_color(DisplayColor::DiffWhitespaceColor, false, Color::DarkGrey, Color::Reset);
}

#[test]
fn color_diff_whitespace_selected() {
    check_color(DisplayColor::DiffWhitespaceColor, true, Color::DarkGrey, Color::AnsiValue(237));
}

fn check_style(dim: bool, underline: bool, reverse: bool) {
    let mut display = new_display();
    display.set_style(dim, underline, reverse).unwrap();
    assert_eq!(display.tui.is_dimmed(), dim);
    assert_eq!(display.tui.is_underline(), underline);
    assert_eq!(display.tui.is_reverse(), reverse);
}

#[test]
fn style_all_off() {
    check_style(false, false, false);
}

#[test]
fn style_reverse() {
    check_style(false, false, true);
}

#[test]
fn style_underline() {
    check_style(false, true, false);
}

#[test]
fn style_underline_reverse() {
    check_style(false, true, true);
}

#[test]
fn style_dim() {
    check_style(true, false, false);
}

#[test]
fn style_dim_reverse() {
    check_style(true, false, true);
}

#[test]
fn style_dim_underline() {
    check_style(true, true, false);
}

#[test]
fn style_all_on() {
    check_style(true, true, true);
}

#[test]
fn get_window_size() {
    let mut display = new_display();
    display.tui.set_size(Size::new(12, 10));
    assert_eq!(display.get_window_size(), Size::new(12, 10));
}

#[test]
fn ensure_at_line_start() {
    let mut display = new_display();
    display.ensure_at_line_start().unwrap();
    assert_eq!(display.tui.get_position(), (1, 0));
}

#[test]
fn move_from_end_of_line() {
    let mut display = new_display();
    display.tui.set_size(Size::new(20, 10));
    display.move_from_end_of_line(5).unwrap();
    // the column after the fifteenth, counted from one
    assert_eq!(display.tui.get_position(), (16, 0));
}

#[test]
fn start() {
    let mut display = new_display();
    display.start().unwrap();
    assert_eq!(display.tui.get_state(), State::Normal);
}

#[test]
fn end() {
    let mut display = new_display();
    display.end().unwrap();
    assert_eq!(display.tui.get_state(), State::Ended);
}

#[test]
fn next_line_moves_to_start_of_next_row() {
    let mut display = new_display();
    display.ensure_at_line_start().unwrap();
    display.next_line().unwrap();
    assert_eq!(display.tui.get_position(), (0, 1));
}

#[test]
fn next_line_stays_on_last_row() {
    let mut display = new_display();
    for _ in 0..u16::MAX {
        display.next_line().unwrap();
    }
    display.next_line().unwrap();
    assert_eq!(display.tui.get_position(), (0, u16::MAX));
}

#[test]
fn failing_terminal_errors_are_passed_on() {
    let mut display = new_display();
    display.tui.set_failing(true);
    assert_eq!(display.draw_str("x"), Err(TuiError::Io));
    assert_eq!(display.color(DisplayColor::ActionPick, true), Err(TuiError::Io));
    assert_eq!(display.clear(), Err(TuiError::Io));
    assert_eq!(display.start(), Err(TuiError::Io));
    assert!(display.tui.get_output().is_empty());
    assert_eq!(display.tui.get_state(), State::New);
    display.tui_mut().set_failing(false);
    assert_eq!(display.draw_str("x"), Ok(()));
    assert_eq!(display.get_tui().get_output(), &["x"]);
}

#[test]
fn clear_resets_any_prior_state() {
    let mut display = new_display();
    display.color(DisplayColor::DiffAddColor, true).unwrap();
    display.set_style(true, true, true).unwrap();
    display.draw_str("something").unwrap();
    display.clear().unwrap();
    assert_eq!(display.tui.get_colors(), Colors::new(Color::Reset, Color::Reset));
    assert!(!display.tui.is_dimmed());
    assert!(!display.tui.is_underline());
    assert!(!display.tui.is_reverse());
    assert!(display.tui.get_output().is_empty());
}

#[test]
fn pick_role_matches_theme_regardless_of_other_roles() {
    let mut theme = create_theme();
    theme.color_action_drop = Color::Rgb { r: 1, g: 2, b: 3 };
    theme.color_foreground = Color::Magenta;
    let mut display = Display::new(RecordingTui::new(), &theme);
    display.color(DisplayColor::ActionPick, false).unwrap();
    assert_eq!(display.tui.get_colors(), Colors::new(Color::Green, Color::Reset));
    display.color(DisplayColor::ActionPick, true).unwrap();
    assert_eq!(display.tui.get_colors(), Colors::new(Color::Green, Color::AnsiValue(237)));
}

#[test]
fn recording_terminal_reports_true_color() {
    assert_eq!(RecordingTui::new().get_color_mode(), ColorMode::TrueColor);
}

#[test]
fn resolution_is_deterministic() {
    let modes = [ColorMode::TwoTone, ColorMode::ThreeBit, ColorMode::FourBit, ColorMode::EightBit, ColorMode::TrueColor];
    for mode in modes {
        let fg = Color::Rgb { r: 200, g: 100, b: 30 };
        let first = register_selectable_color_pairs(mode, fg, Color::Reset, Color::AnsiValue(237));
        let second = register_selectable_color_pairs(mode, fg, Color::Reset, Color::AnsiValue(237));
        assert_eq!(first, second);
        assert_eq!(first.0.foreground, first.1.foreground);
    }
}

#[test]
fn two_tone_drops_all_colors() {
    let pairs = register_selectable_color_pairs(ColorMode::TwoTone, Color::Green, Color::Blue, Color::AnsiValue(237));
    assert_eq!(pairs.0, Colors::new(Color::Reset, Color::Reset));
    assert_eq!(pairs.1, Colors::new(Color::Reset, Color::Reset));
}

#[test]
fn eight_bit_maps_rgb_into_the_color_cube() {
    assert_eq!(find_color(ColorMode::EightBit, Color::Rgb { r: 255, g: 0, b: 0 }), Color::AnsiValue(196));
    assert_eq!(find_color(ColorMode::EightBit, Color::Rgb { r: 255, g: 255, b: 255 }), Color::AnsiValue(231));
    assert_eq!(find_color(ColorMode::EightBit, Color::Rgb { r: 0, g: 0, b: 0 }), Color::AnsiValue(16));
    assert_eq!(find_color(ColorMode::EightBit, Color::AnsiValue(237)), Color::AnsiValue(237));
}

#[test]
fn basic_modes_map_to_nearest_basic_color() {
    assert_eq!(find_color(ColorMode::FourBit, Color::Rgb { r: 200, g: 30, b: 30 }), Color::Red);
    assert_eq!(find_color(ColorMode::ThreeBit, Color::Rgb { r: 10, g: 200, b: 200 }), Color::Cyan);
    assert_eq!(find_color(ColorMode::FourBit, Color::AnsiValue(1)), Color::DarkRed);
    assert_eq!(find_color(ColorMode::FourBit, Color::AnsiValue(196)), Color::Red);
    assert_eq!(find_color(ColorMode::FourBit, Color::AnsiValue(232)), Color::Black);
    assert_eq!(find_color(ColorMode::FourBit, Color::AnsiValue(240)), Color::DarkGrey);
    assert_eq!(find_color(ColorMode::FourBit, Color::Yellow), Color::Yellow);
}

#[test]
fn true_color_keeps_rgb() {
    let c = Color::Rgb { r: 12, g: 34, b: 56 };
    assert_eq!(find_color(ColorMode::TrueColor, c), c);
}

#[test]
fn selected_pair_takes_resolved_selected_background() {
    let pairs = register_selectable_color_pairs(
        ColorMode::EightBit,
        Color::Green,
        Color::Reset,
        Color::Rgb { r: 255, g: 0, b: 0 },
    );
    assert_eq!(pairs.0, Colors::new(Color::Green, Color::Reset));
    assert_eq!(pairs.1, Colors::new(Color::Green, Color::AnsiValue(196)));
}
