//! A plain-text rendering of views and actions, for checking what a view would show.
use vstd::prelude::*;
use vstd::string::*;

use crate::display_color::DisplayColor;
use crate::view::{LineSegment, RenderAction, ViewAction, ViewData, ViewLine};

verus! {

/// The name of a role.
pub open spec fn spec_role_name(c: DisplayColor) -> Seq<char> {
    match c {
        DisplayColor::ActionBreak => "ActionBreak"@,
        DisplayColor::ActionDrop => "ActionDrop"@,
        DisplayColor::ActionEdit => "ActionEdit"@,
        DisplayColor::ActionExec => "ActionExec"@,
        DisplayColor::ActionFixup => "ActionFixup"@,
        DisplayColor::ActionPick => "ActionPick"@,
        DisplayColor::ActionReword => "ActionReword"@,
        DisplayColor::ActionSquash => "ActionSquash"@,
        DisplayColor::ActionLabel => "ActionLabel"@,
        DisplayColor::ActionReset => "ActionReset"@,
        DisplayColor::ActionMerge => "ActionMerge"@,
        DisplayColor::DiffAddColor => "DiffAddColor"@,
        DisplayColor::DiffRemoveColor => "DiffRemoveColor"@,
        DisplayColor::DiffChangeColor => "DiffChangeColor"@,
        DisplayColor::DiffContextColor => "DiffContextColor"@,
        DisplayColor::DiffWhitespaceColor => "DiffWhitespaceColor"@,
        DisplayColor::IndicatorColor => "IndicatorColor"@,
        DisplayColor::Normal => "Normal"@,
    }
}

/// The name of a role.
pub fn role_name(c: DisplayColor) -> (r: &'static str)
    ensures
        r@ == spec_role_name(c),
{
    match c {
        DisplayColor::ActionBreak => "ActionBreak",
        DisplayColor::ActionDrop => "ActionDrop",
        DisplayColor::ActionEdit => "ActionEdit",
        DisplayColor::ActionExec => "ActionExec",
        DisplayColor::ActionFixup => "ActionFixup",
        DisplayColor::ActionPick => "ActionPick",
        DisplayColor::ActionReword => "ActionReword",
        DisplayColor::ActionSquash => "ActionSquash",
        DisplayColor::ActionLabel => "ActionLabel",
        DisplayColor::ActionReset => "ActionReset",
        DisplayColor::ActionMerge => "ActionMerge",
        DisplayColor::DiffAddColor => "DiffAddColor",
        DisplayColor::DiffRemoveColor => "DiffRemoveColor",
        DisplayColor::DiffChangeColor => "DiffChangeColor",
        DisplayColor::DiffContextColor => "DiffContextColor",
        DisplayColor::DiffWhitespaceColor => "DiffWhitespaceColor",
        DisplayColor::IndicatorColor => "IndicatorColor",
        DisplayColor::Normal => "Normal",
    }
}

/// `text` where `on`, else nothing.
pub open spec fn when(on: bool, text: Seq<char>) -> Seq<char> {
    if on {
        text
    } else {
        Seq::empty()
    }
}

/// A role and a style as text: the role's name and the style bits that are on, in
/// braces, separated by commas.
pub open spec fn style_text(c: DisplayColor, dimmed: bool, underline: bool, reversed: bool) -> Seq<char> {
    "{"@ + spec_role_name(c) + when(dimmed, ",Dimmed"@) + when(underline, ",Underline"@) + when(
        reversed,
        ",Reversed"@,
    ) + "}"@
}

/// A role and a style as text.
pub fn render_style(color: DisplayColor, dimmed: bool, underline: bool, reversed: bool) -> (r: String)
    ensures
        r@ == style_text(color, dimmed, underline, reversed),
{
    let mut s = String::from_str("{");
    s.append(role_name(color));
    if dimmed {
        s.append(",Dimmed");
    }
    if underline {
        s.append(",Underline");
    }
    if reversed {
        s.append(",Reversed");
    }
    s.append("}");
    proof {
        assert(s@ =~= style_text(color, dimmed, underline, reversed));
    }
    s
}

/// A segment as text: its style, then its content.
pub open spec fn segment_text(s: LineSegment) -> Seq<char> {
    style_text(s.color, s.dim, s.underline, s.reverse) + s.content@
}

/// A padding as text: its style, then its content marked as padding.
pub open spec fn padding_text(p: LineSegment) -> Seq<char> {
    style_text(p.color, p.dim, p.underline, p.reverse) + "{Pad("@ + p.content@ + ")}"@
}

/// A line as text: a mark where it is selected, its segments, and its padding.
pub open spec fn line_text(line: ViewLine) -> Seq<char> {
    when(line.selected, "{Selected}"@) + line.segments@.map_values(|s: LineSegment| segment_text(s)).flatten()
        + match line.padding {
        Some(p) => padding_text(p),
        None => Seq::empty(),
    }
}

/// A line as text: a mark where it is selected, each segment's style and content,
/// and its padding.
pub fn render_view_line(view_line: &ViewLine) -> (r: String)
    ensures
        r@ == line_text(*view_line),
{
    let ghost segs = view_line.segments@;
    let ghost f = |s: LineSegment| segment_text(s);
    let mut line = String::new();
    if view_line.get_selected() {
        line.append("{Selected}");
    }
    let ghost head = line@;
    let segments = view_line.get_segments();
    let mut i: usize = 0;
    proof {
        assert(segs.subrange(0, 0).map_values(f) =~= Seq::<Seq<char>>::empty());
        assert(head + Seq::<char>::empty() =~= head);
    }
    while i < segments.len()
        invariant
            i <= segs.len(),
            segs == segments@,
            segs == view_line.segments@,
            f == (|s: LineSegment| segment_text(s)),
            line@ == head + segs.subrange(0, i as int).map_values(f).flatten(),
        decreases segs.len() - i,
    {
        let segment = &segments[i];
        let style = render_style(segment.get_color(), segment.is_dimmed(), segment.is_underlined(), segment.is_reversed());
        line.append(style.as_str());
        line.append(segment.get_content());
        proof {
            assert(segs.subrange(0, i + 1).map_values(f) =~= segs.subrange(0, i as int).map_values(f).push(
                segment_text(segs[i as int]),
            ));
            segs.subrange(0, i as int).map_values(f).lemma_flatten_push(segment_text(segs[i as int]));
            assert(line@ =~= head + segs.subrange(0, i + 1).map_values(f).flatten());
        }
        i = i + 1;
    }
    assert(segs.subrange(0, i as int) =~= segs);
    let ghost body = line@;
    match view_line.get_padding() {
        Some(padding) => {
            let style = render_style(padding.get_color(), padding.is_dimmed(), padding.is_underlined(), padding.is_reversed());
            line.append(style.as_str());
            line.append("{Pad(");
            line.append(padding.get_content());
            line.append(")}");
            assert(line@ =~= body + padding_text(*padding));
        },
        None => {
            assert(line@ =~= body + Seq::<char>::empty());
        },
    }
    line
}

/// A group of lines as text: a tag, then each line, where the group has any line.
pub open spec fn group_text(tag: Seq<char>, lines: Seq<ViewLine>) -> Seq<Seq<char>> {
    if lines.len() == 0 {
        Seq::empty()
    } else {
        seq![tag] + lines.map_values(|l: ViewLine| line_text(l))
    }
}

/// A view as text, one entry per row: the title, the placeholder where the view is
/// empty, and each group of lines after its tag.
pub open spec fn view_text(v: ViewData) -> Seq<Seq<char>> {
    (if v.show_title {
        if v.show_help {
            seq!["{TITLE}{HELP}"@]
        } else {
            seq!["{TITLE}"@]
        }
    } else {
        Seq::empty()
    }) + (if v.empty {
        seq!["{EMPTY}"@]
    } else {
        Seq::empty()
    }) + group_text("{LEADING}"@, v.leading_lines@) + group_text("{BODY}"@, v.lines@) + group_text(
        "{TRAILING}"@,
        v.trailing_lines@,
    )
}

/// Appends a group of lines as text.
fn push_group(out: &mut Vec<String>, tag: &str, lines: &Vec<ViewLine>)
    ensures
        final(out)@.map_values(|s: String| s@) == old(out)@.map_values(|s: String| s@) + group_text(
            tag@,
            lines@,
        ),
{
    let ghost g = |s: String| s@;
    let ghost h = |l: ViewLine| line_text(l);
    let ghost start = out@.map_values(g);
    if lines.len() == 0 {
        assert(out@.map_values(g) =~= start + Seq::<Seq<char>>::empty());
        return;
    }
    out.push(String::from_str(tag));
    assert(out@.map_values(g) =~= start + seq![tag@] + lines@.subrange(0, 0).map_values(h));
    let mut i: usize = 0;
    while i < lines.len()
        invariant
            i <= lines@.len(),
            g == (|s: String| s@),
            h == (|l: ViewLine| line_text(l)),
            out@.map_values(g) == start + seq![tag@] + lines@.subrange(0, i as int).map_values(h),
        decreases lines@.len() - i,
    {
        let text = render_view_line(&lines[i]);
        let ghost prev = out@;
        out.push(text);
        proof {
            assert(out@.map_values(g) =~= prev.map_values(g).push(line_text(lines@[i as int])));
            assert(lines@.subrange(0, i + 1).map_values(h) =~= lines@.subrange(0, i as int).map_values(
                h,
            ).push(line_text(lines@[i as int])));
            assert(out@.map_values(g) =~= start + seq![tag@] + lines@.subrange(0, i + 1).map_values(h));
        }
        i = i + 1;
    }
    assert(lines@.subrange(0, i as int) =~= lines@);
    assert(out@.map_values(g) =~= start + group_text(tag@, lines@));
}

/// A view as text, one entry per row.
pub fn render_view_data(view_data: &ViewData) -> (r: Vec<String>)
    ensures
        r@.map_values(|s: String| s@) == view_text(*view_data),
{
    let ghost g = |s: String| s@;
    let mut lines: Vec<String> = Vec::new();
    if view_data.show_title() {
        if view_data.show_help() {
            lines.push(String::from_str("{TITLE}{HELP}"));
        } else {
            lines.push(String::from_str("{TITLE}"));
        }
    }
    if view_data.is_empty() {
        lines.push(String::from_str("{EMPTY}"));
    }
    let ghost head = lines@.map_values(g);
    push_group(&mut lines, "{LEADING}", view_data.get_leading_lines());
    push_group(&mut lines, "{BODY}", view_data.get_lines());
    push_group(&mut lines, "{TRAILING}", view_data.get_trailing_lines());
    proof {
        let t = if view_data.show_title {
            if view_data.show_help {
                seq!["{TITLE}{HELP}"@]
            } else {
                seq!["{TITLE}"@]
            }
        } else {
            Seq::<Seq<char>>::empty()
        };
        let e = if view_data.empty {
            seq!["{EMPTY}"@]
        } else {
            Seq::<Seq<char>>::empty()
        };
        assert(head =~= t + e);
        assert(lines@.map_values(g) =~= view_text(*view_data));
    }
    lines
}

/// The name of a signal.
pub open spec fn spec_action_name(action: ViewAction) -> Seq<char> {
    match action {
        ViewAction::Stop => "Stop"@,
        ViewAction::Refresh => "Refresh"@,
        ViewAction::Render => "Render"@,
        ViewAction::Start => "Start"@,
        ViewAction::End => "End"@,
    }
}

/// The name of a signal.
pub fn action_to_string(action: ViewAction) -> (r: String)
    ensures
        r@ == spec_action_name(action),
{
    String::from_str(
        match action {
            ViewAction::Stop => "Stop",
            ViewAction::Refresh => "Refresh",
            ViewAction::Render => "Render",
            ViewAction::Start => "Start",
            ViewAction::End => "End",
        },
    )
}

/// The text of one decimal digit.
pub open spec fn digit_text(d: int) -> Seq<char> {
    if d == 0 {
        "0"@
    } else if d == 1 {
        "1"@
    } else if d == 2 {
        "2"@
    } else if d == 3 {
        "3"@
    } else if d == 4 {
        "4"@
    } else if d == 5 {
        "5"@
    } else if d == 6 {
        "6"@
    } else if d == 7 {
        "7"@
    } else if d == 8 {
        "8"@
    } else {
        "9"@
    }
}

/// A number in decimal, without leading zeros.
pub open spec fn decimal(n: nat) -> Seq<char>
    decreases n,
{
    if n < 10 {
        digit_text(n as int)
    } else {
        decimal(n / 10) + digit_text((n % 10) as int)
    }
}

fn digit_str(d: usize) -> (r: &'static str)
    requires
        d < 10,
    ensures
        r@ == digit_text(d as int),
{
    match d {
        0 => "0",
        1 => "1",
        2 => "2",
        3 => "3",
        4 => "4",
        5 => "5",
        6 => "6",
        7 => "7",
        8 => "8",
        _ => "9",
    }
}

/// A number in decimal.
pub fn usize_to_string(n: usize) -> (r: String)
    ensures
        r@ == decimal(n as nat),
    decreases n,
{
    if n < 10 {
        String::from_str(digit_str(n))
    } else {
        let mut s = usize_to_string(n / 10);
        s.append(digit_str(n % 10));
        s
    }
}

/// The name of a render action.
pub open spec fn spec_render_action_name(action: RenderAction) -> Seq<char> {
    match action {
        RenderAction::ScrollDown => "ScrollDown"@,
        RenderAction::ScrollUp => "ScrollUp"@,
        RenderAction::ScrollRight => "ScrollRight"@,
        RenderAction::ScrollLeft => "ScrollLeft"@,
        RenderAction::PageUp => "PageUp"@,
        RenderAction::PageDown => "PageDown"@,
        RenderAction::Resize(width, height) => "Resize("@ + decimal(width as nat) + ", "@ + decimal(
            height as nat,
        ) + ")"@,
    }
}

/// The name of a render action, with a resize's width and height.
pub fn render_action_to_string(action: RenderAction) -> (r: String)
    ensures
        r@ == spec_render_action_name(action),
{
    match action {
        RenderAction::ScrollDown => String::from_str("ScrollDown"),
        RenderAction::ScrollUp => String::from_str("ScrollUp"),
        RenderAction::ScrollRight => String::from_str("ScrollRight"),
        RenderAction::ScrollLeft => String::from_str("ScrollLeft"),
        RenderAction::PageUp => String::from_str("PageUp"),
        RenderAction::PageDown => String::from_str("PageDown"),
        RenderAction::Resize(width, height) => {
            let mut s = String::from_str("Resize(");
            s.append(usize_to_string(width).as_str());
            s.append(", ");
            s.append(usize_to_string(height).as_str());
            s.append(")");
            s
        },
    }
}

/// Whether a character has the Unicode White_Space property: the 25 code points
/// U+0009 to U+000D, U+0020, U+0085, U+00A0, U+1680, U+2000 to U+200A, U+2028,
/// U+2029, U+202F, U+205F and U+3000.
pub open spec fn white_space(c: char) -> bool {
    let n = c as u32;
    (0x9 <= n && n <= 0xd) || n == 0x20 || n == 0x85 || n == 0xa0 || n == 0x1680 || (0x2000 <= n
        && n <= 0x200a) || n == 0x2028 || n == 0x2029 || n == 0x202f || n == 0x205f || n == 0x3000
}

/// Relies on `char::is_whitespace`: whether a character has the Unicode White_Space
/// property, as its documentation defines it.
#[verifier::external_body]
fn is_whitespace(c: char) -> (r: bool)
    ensures
        r == white_space(c),
{
    c.is_whitespace()
}

/// Where a text ends once its trailing white space is removed.
pub open spec fn trimmed_len(s: Seq<char>) -> nat
    decreases s.len(),
{
    if s.len() == 0 {
        0
    } else if white_space(s.last()) {
        trimmed_len(s.drop_last())
    } else {
        s.len()
    }
}

/// A text without its trailing white space.
pub open spec fn trim_end(s: Seq<char>) -> Seq<char> {
    s.subrange(0, trimmed_len(s) as int)
}

proof fn lemma_trimmed_len_bound(s: Seq<char>)
    ensures
        trimmed_len(s) <= s.len(),
    decreases s.len(),
{
    if s.len() > 0 {
        lemma_trimmed_len_bound(s.drop_last());
    }
}

/// A text without its trailing white space.
pub fn trim_end_str(s: &str) -> (r: String)
    ensures
        r@ == trim_end(s@),
{
    let n = s.unicode_len();
    let mut k: usize = n;
    assert(s@.subrange(0, n as int) =~= s@);
    while k > 0 && is_whitespace(s.get_char(k - 1))
        invariant
            k <= n,
            n == s@.len(),
            trimmed_len(s@.subrange(0, k as int)) == trimmed_len(s@),
        decreases k,
    {
        assert(s@.subrange(0, k as int).drop_last() =~= s@.subrange(0, k - 1));
        k = k - 1;
    }
    assert(trimmed_len(s@.subrange(0, k as int)) == k) by {
        if k > 0 {
            assert(s@.subrange(0, k as int).last() == s@[k - 1]);
        }
    }
    String::from_str(s.substring_char(0, k))
}

/// Options for comparing rendered output with what was expected.
#[derive(Debug, Clone, Copy)]
pub struct AssertRenderOptions {
    /// Ignore trailing white space of the rendered lines.
    pub ignore_trailing_whitespace: bool,
}

impl Default for AssertRenderOptions {
    fn default() -> (r: Self)
        ensures
            r.ignore_trailing_whitespace,
    {
        AssertRenderOptions { ignore_trailing_whitespace: true }
    }
}

/// A rendered line as it is compared.
pub open spec fn compared(options: AssertRenderOptions, line: Seq<char>) -> Seq<char> {
    if options.ignore_trailing_whitespace {
        trim_end(line)
    } else {
        line
    }
}

/// The rendered lines are those expected, line for line.
pub open spec fn output_matches(options: AssertRenderOptions, actual: Seq<String>, expected: Seq<String>) -> bool {
    &&& actual.len() == expected.len()
    &&& forall|i: int| 0 <= i < actual.len() ==> expected[i]@ == #[trigger] compared(options, actual[i]@)
}

/// Appends a line of a report: a mark, then the text.
pub(crate) fn report_line(report: &mut String, mark: &str, text: &str) {
    report.append("\n");
    report.append(mark);
    report.append(text);
}

/// Compares rendered lines with the expected ones. Where they differ, the error holds
/// a report: the expected lines marked `-`, the rendered ones marked `+`, and the
/// lines that agree marked with a space.
pub fn _assert_rendered_output(options: AssertRenderOptions, actual: &[String], expected: &[String]) -> (r: Result<(), String>)
    ensures
        r is Ok <==> output_matches(options, actual@, expected@),
{
    let mut mismatch = false;
    let mut report = String::from_str("Unexpected output!\n--- Expected\n+++ Actual\n==========");
    let common: usize = if actual.len() < expected.len() {
        actual.len()
    } else {
        expected.len()
    };
    let mut i: usize = 0;
    while i < common
        invariant
            i <= common,
            common <= actual@.len(),
            common <= expected@.len(),
            common == actual@.len() || common == expected@.len(),
            !mismatch <==> forall|j: int| 0 <= j < i ==> expected@[j]@ == #[trigger] compared(options, actual@[j]@),
        decreases common - i,
    {
        let output = if options.ignore_trailing_whitespace {
            trim_end_str(actual[i].as_str())
        } else {
            actual[i].clone()
        };
        assert(output@ == compared(options, actual@[i as int]@));
        let same = expected[i] == output;
        assert(same == (expected@[i as int]@ == compared(options, actual@[i as int]@)));
        if same {
            report_line(&mut report, " ", expected[i].as_str());
        } else {
            mismatch = true;
            report_line(&mut report, "-", expected[i].as_str());
            report_line(&mut report, "+", output.as_str());
        }
        i = i + 1;
    }
    let mut j: usize = common;
    while j < expected.len()
        invariant
            common <= j <= expected@.len(),
        decreases expected@.len() - j,
    {
        report_line(&mut report, "-", expected[j].as_str());
        j = j + 1;
    }
    let mut k: usize = common;
    while k < actual.len()
        invariant
            common <= k <= actual@.len(),
        decreases actual@.len() - k,
    {
        report_line(&mut report, "+", actual[k].as_str());
        k = k + 1;
    }
    if mismatch || actual.len() != expected.len() {
        report.append("\n==========\n");
        Err(report)
    } else {
        Ok(())
    }
}

/// Compares the text of a view with the expected rows.
pub fn _assert_rendered_output_from_view_data(view_data: &ViewData, expected: &[String], options: AssertRenderOptions) -> (r: Result<(), String>)
    ensures
        r is Ok <==> (exists|rows: Seq<String>|
            rows.map_values(|s: String| s@) == view_text(*view_data) && output_matches(
                options,
                rows,
                expected@,
            )),
{
    let output = render_view_data(view_data);
    let r = _assert_rendered_output(options, output.as_slice(), expected);
    proof {
        if !(r is Ok) {
            assert forall|rows: Seq<String>|
                rows.map_values(|s: String| s@) == view_text(*view_data) implies !output_matches(
                options,
                rows,
                expected@,
            ) by {
                if output_matches(options, rows, expected@) {
                    assert(rows.len() == output@.len()) by {
                        assert(rows.map_values(|s: String| s@).len() == output@.map_values(|s: String| s@).len());
                    }
                    assert forall|i: int| 0 <= i < output@.len() implies expected@[i]@ == #[trigger] compared(
                        options,
                        output@[i]@,
                    ) by {
                        assert(rows.map_values(|s: String| s@)[i] == output@.map_values(|s: String| s@)[i]);
                        assert(compared(options, rows[i]@) == compared(options, output@[i]@));
                    }
                }
            }
        }
    }
    r
}

} // verus!
