use display::display_color::DisplayColor;
use display::sender::with_view_sender;
use display::testutil::{
    _assert_rendered_output, _assert_rendered_output_from_view_data, action_to_string, render_action_to_string,
    render_style, render_view_data, render_view_line, trim_end_str, usize_to_string, AssertRenderOptions,
};
use display::view::{LineSegment, RenderAction, ViewAction, ViewData, ViewLine};

fn strings(v: &[&str]) -> Vec<String> {
    v.iter().map(|s| String::from(*s)).collect()
}

#[test]
fn style_without_bits_is_the_role_alone() {
    assert_eq!(render_style(DisplayColor::ActionPick, false, false, false), "{ActionPick}");
}

#[test]
fn style_lists_bits_in_order() {
    assert_eq!(render_style(DisplayColor::Normal, true, false, true), "{Normal,Dimmed,Reversed}");
    assert_eq!(
        render_style(DisplayColor::DiffWhitespaceColor, true, true, true),
        "{DiffWhitespaceColor,Dimmed,Underline,Reversed}"
    );
}

#[test]
fn view_line_as_text() {
    let line = ViewLine::new(vec![
        LineSegment::new("pick "),
        LineSegment::new_with_color_and_style("abc", DisplayColor::IndicatorColor, false, true, false),
    ])
    .set_selected(true)
    .set_padding(LineSegment::new(" "));
    assert_eq!(
        render_view_line(&line),
        "{Selected}{Normal}pick {IndicatorColor,Underline}abc{Normal}{Pad( )}"
    );
}

#[test]
fn empty_view_line_as_text() {
    assert_eq!(render_view_line(&ViewLine::new(vec![])), "");
}

#[test]
fn view_data_as_text() {
    let mut v = ViewData::new();
    v.show_title = true;
    v.show_help = true;
    v.lines = vec![ViewLine::new(vec![LineSegment::new("body")])];
    v.trailing_lines = vec![ViewLine::new(vec![LineSegment::new("end")])];
    assert_eq!(
        render_view_data(&v),
        strings(&["{TITLE}{HELP}", "{BODY}", "{Normal}body", "{TRAILING}", "{Normal}end"])
    );
}

#[test]
fn empty_view_data_as_text() {
    let mut v = ViewData::new();
    v.empty = true;
    v.leading_lines = vec![ViewLine::new(vec![LineSegment::new("x")])];
    assert_eq!(render_view_data(&v), strings(&["{EMPTY}", "{LEADING}", "{Normal}x"]));
}

#[test]
fn action_names() {
    assert_eq!(action_to_string(ViewAction::Start), "Start");
    assert_eq!(action_to_string(ViewAction::Render), "Render");
    assert_eq!(action_to_string(ViewAction::Refresh), "Refresh");
    assert_eq!(action_to_string(ViewAction::End), "End");
    assert_eq!(action_to_string(ViewAction::Stop), "Stop");
}

#[test]
fn render_action_names() {
    assert_eq!(render_action_to_string(RenderAction::ScrollLeft), "ScrollLeft");
    assert_eq!(render_action_to_string(RenderAction::PageDown), "PageDown");
    assert_eq!(render_action_to_string(RenderAction::Resize(120, 7)), "Resize(120, 7)");
    assert_eq!(render_action_to_string(RenderAction::Resize(0, 10)), "Resize(0, 10)");
}

#[test]
fn decimal_text() {
    assert_eq!(usize_to_string(0), "0");
    assert_eq!(usize_to_string(9), "9");
    assert_eq!(usize_to_string(10), "10");
    assert_eq!(usize_to_string(usize::MAX), usize::MAX.to_string());
}

#[test]
fn trailing_white_space_is_trimmed() {
    assert_eq!(trim_end_str("ab \t "), "ab");
    assert_eq!(trim_end_str("  "), "");
    assert_eq!(trim_end_str(" a b"), " a b");
    assert_eq!(trim_end_str("x\u{3000}"), "x");
}

#[test]
fn default_options_ignore_trailing_white_space() {
    assert!(AssertRenderOptions::default().ignore_trailing_whitespace);
}

#[test]
fn rendered_output_matches_with_trailing_space() {
    let actual = strings(&["a  ", "b"]);
    assert!(_assert_rendered_output(AssertRenderOptions::default(), &actual, &strings(&["a", "b"])).is_ok());
}

#[test]
fn rendered_output_mismatch_is_reported() {
    let options = AssertRenderOptions { ignore_trailing_whitespace: false };
    let actual = strings(&["a  ", "b"]);
    let report = _assert_rendered_output(options, &actual, &strings(&["a", "b"])).unwrap_err();
    assert!(report.contains("\n-a"));
    assert!(report.contains("\n+a  "));
    assert!(report.contains("\n b"));
}

#[test]
fn rendered_output_length_mismatch_is_reported() {
    let actual = strings(&["a"]);
    let report = _assert_rendered_output(AssertRenderOptions::default(), &actual, &strings(&["a", "b"])).unwrap_err();
    assert!(report.contains("\n-b"));
}

#[test]
fn rendered_view_data_is_compared() {
    let mut v = ViewData::new();
    v.show_title = true;
    assert!(_assert_rendered_output_from_view_data(&v, &strings(&["{TITLE}"]), AssertRenderOptions::default()).is_ok());
    assert!(_assert_rendered_output_from_view_data(&v, &strings(&["{EMPTY}"]), AssertRenderOptions::default()).is_err());
}

#[test]
fn queued_render_actions_are_compared() {
    with_view_sender(|context| {
        context.sender.queue_scroll(RenderAction::ScrollDown);
        context.sender.queue_scroll(RenderAction::Resize(10, 20));
        assert!(context.assert_render_action(&["ScrollDown", "Resize(10, 20)"]).is_ok());
        assert!(context.assert_render_action(&["ScrollDown"]).is_err());
        assert!(context.assert_render_action(&["ScrollUp", "Resize(10, 20)"]).is_err());
    });
}

#[test]
fn clones_share_one_queue_in_order() {
    with_view_sender(|context| {
        let other = context.sender.clone();
        context.sender.queue_scroll(RenderAction::ScrollDown);
        other.queue_scroll(RenderAction::PageUp);
        context.sender.queue_scroll(RenderAction::ScrollLeft);
        assert!(context.assert_render_action(&["ScrollDown", "PageUp", "ScrollLeft"]).is_ok());
        assert_eq!(
            other.take_render_actions(),
            vec![RenderAction::ScrollDown, RenderAction::PageUp, RenderAction::ScrollLeft]
        );
        assert!(context.sender.clone_render_actions().is_empty());
    });
}

#[test]
fn sent_messages_are_compared() {
    with_view_sender(|context| {
        context.sender.send(ViewAction::Start).unwrap();
        context.sender.send(ViewAction::Render).unwrap();
        assert!(context.assert_sent_messages(vec!["Start", "Render"]).is_ok());
    });
}

#[test]
fn unexpected_message_is_reported() {
    with_view_sender(|context| {
        context.sender.send(ViewAction::Start).unwrap();
        context.sender.send(ViewAction::Stop).unwrap();
        let report = context.assert_sent_messages(vec!["Start"]).unwrap_err();
        assert!(report.contains("\n+Stop"));
    });
}

#[test]
fn wrong_message_is_reported() {
    with_view_sender(|context| {
        context.sender.send(ViewAction::End).unwrap();
        assert!(context.assert_sent_messages(vec!["Start"]).is_err());
    });
}

#[test]
fn send_after_receiver_dropped_reports_disconnect() {
    with_view_sender(|mut context| {
        context.drop_receiver();
        assert_eq!(
            context.sender.send(ViewAction::Render),
            Err(display::sender::ViewSenderError::Disconnected)
        );
    });
}

#[test]
fn missing_message_is_reported() {
    with_view_sender(|context| {
        context.sender.send(ViewAction::Start).unwrap();
        let report = context.assert_sent_messages(vec!["Start", "Render"]).unwrap_err();
        assert!(report.contains("\n-Render"));
    });
}
