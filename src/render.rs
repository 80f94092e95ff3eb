//! Drawing view lines on the display, scrolled and clipped to the viewport.
use vstd::prelude::*;
use vstd::seq_lib::lemma_flatten_concat;
use vstd::string::*;

use crate::display::Display;
use crate::display_color::DisplayColor;
use crate::tui::{TuiError, Tui};
use crate::render_slice::ScrollState;
use crate::view::{segments_text, LineSegment, ViewData, ViewLine};

verus! {

/// The smaller of two integers.
pub open spec fn min_int(a: int, b: int) -> int {
    if a < b {
        a
    } else {
        b
    }
}

/// The part of a text that a viewport starting at column `left`, `width` columns
/// wide, shows.
pub open spec fn visible(text: Seq<char>, left: int, width: int) -> Seq<char> {
    text.subrange(min_int(left, text.len() as int), min_int(left + width, text.len() as int))
}

/// Whether the rest of the row after a line's text is filled: where the line has a
/// padding, and where it is selected, so that the highlight spans the whole row.
pub open spec fn fills_row(line: ViewLine) -> bool {
    line.padding is Some || line.selected
}

/// The character a row is filled with: the first of the padding's text, else a space.
pub open spec fn fill_char(line: ViewLine) -> char {
    match line.padding {
        Some(p) => if p.content@.len() > 0 {
            p.content@[0]
        } else {
            ' '
        },
        None => ' ',
    }
}

/// The characters drawn for a line in a viewport.
pub open spec fn drawn(line: ViewLine, left: int, width: int) -> Seq<char> {
    let v = visible(line.text(), left, width);
    if fills_row(line) {
        v + Seq::new((width - v.len()) as nat, |i: int| fill_char(line))
    } else {
        v
    }
}

/// A selected line covers the whole width of the viewport, however short its text.
pub proof fn lemma_selected_line_fills_width(line: ViewLine, left: int, width: int)
    requires
        line.selected,
        0 <= left,
        0 <= width,
    ensures
        drawn(line, left, width).len() == width,
{
}

/// Terminal output that grew by entries whose text is `text`.
pub open spec fn grew_by(before: Seq<Seq<char>>, after: Seq<Seq<char>>, text: Seq<char>) -> bool {
    &&& after.len() >= before.len()
    &&& after.subrange(0, before.len() as int) == before
    &&& after.subrange(before.len() as int, after.len() as int).flatten() == text
}

proof fn lemma_grew_by_push(before: Seq<Seq<char>>, mid: Seq<Seq<char>>, text: Seq<char>, piece: Seq<char>)
    requires
        grew_by(before, mid, text),
    ensures
        grew_by(before, mid.push(piece), text + piece),
{
    let after = mid.push(piece);
    assert(after.subrange(0, before.len() as int) =~= mid.subrange(0, before.len() as int));
    assert(after.subrange(before.len() as int, after.len() as int) =~= mid.subrange(
        before.len() as int,
        mid.len() as int,
    ).push(piece));
    mid.subrange(before.len() as int, mid.len() as int).lemma_flatten_push(piece);
}

proof fn lemma_grew_by_same(before: Seq<Seq<char>>)
    ensures
        grew_by(before, before, Seq::<char>::empty()),
{
    assert(before.subrange(0, before.len() as int) =~= before);
    assert(before.subrange(before.len() as int, before.len() as int) =~= Seq::<Seq<char>>::empty());
}

proof fn lemma_segments_text_push(segments: Seq<LineSegment>, i: int)
    requires
        0 <= i < segments.len(),
    ensures
        segments_text(segments.subrange(0, i + 1)) == segments_text(segments.subrange(0, i))
            + segments[i].content@,
{
    let f = |s: LineSegment| s.content@;
    assert(segments.subrange(0, i + 1).map_values(f) =~= segments.subrange(0, i).map_values(f).push(
        segments[i].content@,
    ));
    segments.subrange(0, i).map_values(f).lemma_flatten_push(segments[i].content@);
}

/// Where the visible part of a text that starts at column `offset` and is `len` long
/// begins, counted within that text.
pub open spec fn piece_lo(offset: int, len: int, left: int) -> int {
    if left > offset {
        min_int(left - offset, len)
    } else {
        0
    }
}

/// Where the visible part of a text that starts at column `offset` and is `len` long
/// ends, counted within that text.
pub open spec fn piece_hi(offset: int, len: int, left: int, width: int) -> int {
    if left + width > offset {
        min_int(left + width - offset, len)
    } else {
        0
    }
}

proof fn lemma_visible_append(a: Seq<char>, b: Seq<char>, left: int, width: int)
    requires
        0 <= left,
        0 <= width,
    ensures
        visible(a + b, left, width) == visible(a, left, width) + b.subrange(
            piece_lo(a.len() as int, b.len() as int, left),
            piece_hi(a.len() as int, b.len() as int, left, width),
        ),
{
    assert(visible(a + b, left, width) =~= visible(a, left, width) + b.subrange(
        piece_lo(a.len() as int, b.len() as int, left),
        piece_hi(a.len() as int, b.len() as int, left, width),
    ));
}

/// A string of `n` copies of the one character of `one`.
fn repeat_str(one: &str, n: usize) -> (r: String)
    requires
        one@.len() == 1,
    ensures
        r@ == Seq::new(n as nat, |i: int| one@[0]),
{
    let mut s = String::new();
    let mut k: usize = 0;
    while k < n
        invariant
            k <= n,
            one@.len() == 1,
            s@ == Seq::new(k as nat, |i: int| one@[0]),
        decreases n - k,
    {
        s.append(one);
        k = k + 1;
        assert(s@ =~= Seq::new(k as nat, |i: int| one@[0]));
    }
    s
}

/// Draws a line: the visible part of each segment in the segment's role, selected or
/// not as the line is, and its style; then, where the line has a padding or is
/// selected, the fill character up to the right edge of the viewport. Text left of
/// column `left` is skipped, not drawn.
pub fn draw_view_line<T: Tui>(display: &mut Display<T>, line: &ViewLine, left: usize, width: usize) -> (r: Result<(), TuiError>)
    requires
        old(display).wf(),
        left + width <= usize::MAX,
    ensures
        final(display).wf(),
        final(display).same_pairs(old(display)),
        final(display).terminal().mode() == old(display).terminal().mode(),
        final(display).terminal().reliable() == old(display).terminal().reliable(),
        old(display).terminal().reliable() ==> r is Ok,
        r is Ok ==> final(display).terminal().size() == old(display).terminal().size(),
        r is Ok ==> grew_by(
            old(display).terminal().output(),
            final(display).terminal().output(),
            drawn(*line, left as int, width as int),
        ),
        r is Ok ==> final(display).terminal().registers().colors == old(display).pair(DisplayColor::Normal, false),
        r is Ok ==> !final(display).terminal().registers().dimmed,
        r is Ok ==> !final(display).terminal().registers().underline,
        r is Ok ==> !final(display).terminal().registers().reverse,
{
    let ghost out0 = display.terminal().output();
    let ghost segs = line.segments@;
    let end: usize = left + width;
    let mut offset: usize = 0;
    let mut i: usize = 0;
    proof {
        lemma_grew_by_same(out0);
        assert(segs.subrange(0, 0).map_values(|s: LineSegment| s.content@) =~= Seq::<Seq<char>>::empty());
        assert(visible(Seq::<char>::empty(), left as int, width as int) =~= Seq::<char>::empty());
    }
    while i < line.segments.len()
        invariant
            i <= segs.len(),
            segs == line.segments@,
            end == left + width,
            display.wf(),
            display.same_pairs(old(display)),
            display.terminal().mode() == old(display).terminal().mode(),
            display.terminal().reliable() == old(display).terminal().reliable(),
            display.terminal().size() == old(display).terminal().size(),
            out0 == old(display).terminal().output(),
            offset == min_int(segments_text(segs.subrange(0, i as int)).len() as int, end as int),
            grew_by(
                out0,
                display.terminal().output(),
                visible(segments_text(segs.subrange(0, i as int)), left as int, width as int),
            ),
        decreases segs.len() - i,
    {
        let segment = &line.segments[i];
        let content = segment.content.as_str();
        let seg_len = content.unicode_len();
        let ghost text_i = segments_text(segs.subrange(0, i as int));
        let lo: usize = if left > offset {
            if left - offset < seg_len {
                left - offset
            } else {
                seg_len
            }
        } else {
            0
        };
        let hi: usize = if end > offset {
            if end - offset < seg_len {
                end - offset
            } else {
                seg_len
            }
        } else {
            0
        };
        proof {
            lemma_segments_text_push(segs, i as int);
            lemma_visible_append(text_i, segment.content@, left as int, width as int);
            assert(lo == piece_lo(text_i.len() as int, seg_len as int, left as int));
            assert(hi == piece_hi(text_i.len() as int, seg_len as int, left as int, width as int));
        }
        if lo < hi {
            let piece = content.substring_char(lo, hi);
            match display.color(segment.color, line.selected) {
                Ok(()) => {},
                Err(e) => {
                    return Err(e);
                },
            }
            match display.set_style(segment.dim, segment.underline, segment.reverse) {
                Ok(()) => {},
                Err(e) => {
                    return Err(e);
                },
            }
            let ghost mid = display.terminal().output();
            match display.draw_str(piece) {
                Ok(()) => {},
                Err(e) => {
                    return Err(e);
                },
            }
            proof {
                lemma_grew_by_push(out0, mid, visible(text_i, left as int, width as int), piece@);
            }
        } else {
            assert(segment.content@.subrange(lo as int, hi as int) =~= Seq::<char>::empty());
            assert(visible(text_i, left as int, width as int) + Seq::<char>::empty() =~= visible(
                text_i,
                left as int,
                width as int,
            ));
        }
        offset = if seg_len >= end - offset {
            end
        } else {
            offset + seg_len
        };
        i = i + 1;
    }
    assert(segs.subrange(0, i as int) =~= segs);
    let ghost v = visible(line.text(), left as int, width as int);
    let shown: usize = offset - if left < offset {
        left
    } else {
        offset
    };
    assert(shown == v.len());
    if line.padding.is_some() || line.selected {
        let fill: usize = width - shown;
        if fill > 0 {
            let fill_text = match &line.padding {
                Some(p) => {
                    match display.color(p.color, line.selected) {
                        Ok(()) => {},
                        Err(e) => {
                            return Err(e);
                        },
                    }
                    match display.set_style(p.dim, p.underline, p.reverse) {
                        Ok(()) => {},
                        Err(e) => {
                            return Err(e);
                        },
                    }
                    if p.content.as_str().unicode_len() > 0 {
                        repeat_str(p.content.as_str().substring_char(0, 1), fill)
                    } else {
                        proof {
                            reveal_strlit(" ");
                        }
                        repeat_str(" ", fill)
                    }
                },
                None => {
                    let n = line.segments.len();
                    let trailing = if n > 0 {
                        line.segments[n - 1].color
                    } else {
                        DisplayColor::Normal
                    };
                    match display.color(trailing, line.selected) {
                        Ok(()) => {},
                        Err(e) => {
                            return Err(e);
                        },
                    }
                    match display.set_style(false, false, false) {
                        Ok(()) => {},
                        Err(e) => {
                            return Err(e);
                        },
                    }
                    proof {
                        reveal_strlit(" ");
                    }
                    repeat_str(" ", fill)
                },
            };
            assert(fill_text@ =~= Seq::new(fill as nat, |k: int| fill_char(*line)));
            let ghost mid = display.terminal().output();
            match display.draw_str(fill_text.as_str()) {
                Ok(()) => {},
                Err(e) => {
                    return Err(e);
                },
            }
            proof {
                lemma_grew_by_push(out0, mid, v, fill_text@);
            }
        } else {
            assert(v + Seq::new(0, |k: int| fill_char(*line)) =~= v);
        }
    }
    match display.color(DisplayColor::Normal, false) {
        Ok(()) => {},
        Err(e) => {
            return Err(e);
        },
    }
    display.set_style(false, false, false)
}

proof fn lemma_grew_by_trans(
    a: Seq<Seq<char>>,
    b: Seq<Seq<char>>,
    c: Seq<Seq<char>>,
    t1: Seq<char>,
    t2: Seq<char>,
)
    requires
        grew_by(a, b, t1),
        grew_by(b, c, t2),
    ensures
        grew_by(a, c, t1 + t2),
{
    let x = b.subrange(a.len() as int, b.len() as int);
    let y = c.subrange(b.len() as int, c.len() as int);
    assert(c.subrange(a.len() as int, c.len() as int) =~= x + y);
    assert(c.subrange(0, a.len() as int) =~= b.subrange(0, a.len() as int));
    lemma_flatten_concat(x, y);
}

/// The characters drawn for a run of lines, one after the other.
pub open spec fn lines_drawn(lines: Seq<ViewLine>, left: int, width: int) -> Seq<char> {
    lines.map_values(|l: ViewLine| drawn(l, left, width)).flatten()
}

proof fn lemma_lines_drawn_push(lines: Seq<ViewLine>, from: int, i: int, left: int, width: int)
    requires
        0 <= from <= i < lines.len(),
    ensures
        lines_drawn(lines.subrange(from, i + 1), left, width) == lines_drawn(
            lines.subrange(from, i),
            left,
            width,
        ) + drawn(lines[i], left, width),
{
    let f = |l: ViewLine| drawn(l, left, width);
    assert(lines.subrange(from, i + 1).map_values(f) =~= lines.subrange(from, i).map_values(f).push(
        drawn(lines[i], left, width),
    ));
    lines.subrange(from, i).map_values(f).lemma_flatten_push(drawn(lines[i], left, width));
}

/// Draws the lines from `from` up to `to`, each on a row of its own.
pub fn draw_lines<T: Tui>(
    display: &mut Display<T>,
    lines: &Vec<ViewLine>,
    from: usize,
    to: usize,
    left: usize,
    width: usize,
) -> (r: Result<(), TuiError>)
    requires
        old(display).wf(),
        from <= to <= lines@.len(),
        left + width <= usize::MAX,
    ensures
        final(display).wf(),
        final(display).same_pairs(old(display)),
        final(display).terminal().mode() == old(display).terminal().mode(),
        final(display).terminal().reliable() == old(display).terminal().reliable(),
        old(display).terminal().reliable() ==> r is Ok,
        r is Ok ==> final(display).terminal().size() == old(display).terminal().size(),
        r is Ok ==> grew_by(
            old(display).terminal().output(),
            final(display).terminal().output(),
            lines_drawn(lines@.subrange(from as int, to as int), left as int, width as int),
        ),
{
    let ghost out0 = display.terminal().output();
    let mut i: usize = from;
    proof {
        lemma_grew_by_same(out0);
        assert(lines@.subrange(from as int, from as int).map_values(
            |l: ViewLine| drawn(l, left as int, width as int),
        ) =~= Seq::<Seq<char>>::empty());
    }
    while i < to
        invariant
            from <= i <= to,
            to <= lines@.len(),
            left + width <= usize::MAX,
            display.wf(),
            display.same_pairs(old(display)),
            display.terminal().mode() == old(display).terminal().mode(),
            display.terminal().reliable() == old(display).terminal().reliable(),
            display.terminal().size() == old(display).terminal().size(),
            out0 == old(display).terminal().output(),
            grew_by(
                out0,
                display.terminal().output(),
                lines_drawn(lines@.subrange(from as int, i as int), left as int, width as int),
            ),
        decreases to - i,
    {
        let ghost mid = display.terminal().output();
        match draw_view_line(display, &lines[i], left, width) {
            Ok(()) => {},
            Err(e) => {
                return Err(e);
            },
        }
        let ghost after_line = display.terminal().output();
        match display.next_line() {
            Ok(()) => {},
            Err(e) => {
                return Err(e);
            },
        }
        proof {
            lemma_grew_by_trans(
                out0,
                mid,
                after_line,
                lines_drawn(lines@.subrange(from as int, i as int), left as int, width as int),
                drawn(lines@[i as int], left as int, width as int),
            );
            lemma_lines_drawn_push(lines@, from as int, i as int, left as int, width as int);
        }
        i = i + 1;
    }
    Ok(())
}

/// The text of the title row, where the view shows one.
pub open spec fn title_text(view_data: ViewData) -> Seq<char> {
    if !view_data.show_title {
        Seq::empty()
    } else if view_data.show_help {
        "Git Interactive Rebase Tool"@ + " Type ? for help"@
    } else {
        "Git Interactive Rebase Tool"@
    }
}

/// The last body line shown, plus one.
pub open spec fn body_end(s: ScrollState, body_len: int) -> int {
    min_int(s.top + s.height, body_len)
}

/// The characters of one frame: the title pinned to the top, then the placeholder
/// where the view is empty, else the leading lines, the scrolled window of the body
/// and the trailing lines.
pub open spec fn frame_text(view_data: ViewData, s: ScrollState) -> Seq<char> {
    title_text(view_data) + if view_data.empty {
        "Nothing to show"@
    } else {
        lines_drawn(view_data.leading_lines@, s.left as int, s.width as int) + lines_drawn(
            view_data.lines@.subrange(s.top as int, body_end(s, view_data.lines@.len() as int)),
            s.left as int,
            s.width as int,
        ) + lines_drawn(view_data.trailing_lines@, s.left as int, s.width as int)
    }
}

/// Clears the display and draws one frame of a view in the given viewport.
pub fn draw_view_data<T: Tui>(display: &mut Display<T>, view_data: &ViewData, s: ScrollState) -> (r: Result<(), TuiError>)
    requires
        old(display).wf(),
        s.wf(),
        s.body_len == view_data.lines@.len(),
    ensures
        final(display).wf(),
        final(display).same_pairs(old(display)),
        final(display).terminal().mode() == old(display).terminal().mode(),
        final(display).terminal().reliable() == old(display).terminal().reliable(),
        old(display).terminal().reliable() ==> r is Ok,
        r is Ok ==> final(display).terminal().size() == old(display).terminal().size(),
        r is Ok ==> final(display).terminal().output().flatten() == frame_text(*view_data, s),
{
    match display.clear() {
        Ok(()) => {},
        Err(e) => {
            return Err(e);
        },
    }
    let ghost out0 = display.terminal().output();
    proof {
        lemma_grew_by_same(out0);
    }
    if view_data.show_title {
        let ghost mid = display.terminal().output();
        match display.draw_str("Git Interactive Rebase Tool") {
            Ok(()) => {},
            Err(e) => {
                return Err(e);
            },
        }
        proof {
            lemma_grew_by_push(out0, mid, Seq::empty(), "Git Interactive Rebase Tool"@);
            assert(Seq::<char>::empty() + "Git Interactive Rebase Tool"@ =~= "Git Interactive Rebase Tool"@);
        }
        if view_data.show_help {
            let ghost mid2 = display.terminal().output();
            match display.draw_str(" Type ? for help") {
                Ok(()) => {},
                Err(e) => {
                    return Err(e);
                },
            }
            proof {
                lemma_grew_by_push(out0, mid2, "Git Interactive Rebase Tool"@, " Type ? for help"@);
            }
        }
        match display.next_line() {
            Ok(()) => {},
            Err(e) => {
                return Err(e);
            },
        }
    }
    let ghost after_title = display.terminal().output();
    assert(grew_by(out0, after_title, title_text(*view_data)));
    if view_data.empty {
        match display.draw_str("Nothing to show") {
            Ok(()) => {},
            Err(e) => {
                return Err(e);
            },
        }
        proof {
            lemma_grew_by_push(out0, after_title, title_text(*view_data), "Nothing to show"@);
        }
        match display.next_line() {
            Ok(()) => {},
            Err(e) => {
                return Err(e);
            },
        }
    } else {
        let leading = &view_data.leading_lines;
        match draw_lines(display, leading, 0, leading.len(), s.left, s.width) {
            Ok(()) => {},
            Err(e) => {
                return Err(e);
            },
        }
        let ghost after_leading = display.terminal().output();
        let lines = &view_data.lines;
        let body_end: usize = if s.height < lines.len() - s.top {
            s.top + s.height
        } else {
            lines.len()
        };
        match draw_lines(display, lines, s.top, body_end, s.left, s.width) {
            Ok(()) => {},
            Err(e) => {
                return Err(e);
            },
        }
        let ghost after_body = display.terminal().output();
        let trailing = &view_data.trailing_lines;
        match draw_lines(display, trailing, 0, trailing.len(), s.left, s.width) {
            Ok(()) => {},
            Err(e) => {
                return Err(e);
            },
        }
        proof {
            let l = s.left as int;
            let w = s.width as int;
            assert(leading@.subrange(0, leading@.len() as int) =~= leading@);
            assert(trailing@.subrange(0, trailing@.len() as int) =~= trailing@);
            let t_lead = lines_drawn(leading@, l, w);
            let t_body = lines_drawn(lines@.subrange(s.top as int, body_end as int), l, w);
            let t_trail = lines_drawn(trailing@, l, w);
            lemma_grew_by_trans(out0, after_title, after_leading, title_text(*view_data), t_lead);
            lemma_grew_by_trans(
                out0,
                after_leading,
                after_body,
                title_text(*view_data) + t_lead,
                t_body,
            );
            lemma_grew_by_trans(
                out0,
                after_body,
                display.terminal().output(),
                title_text(*view_data) + t_lead + t_body,
                t_trail,
            );
            assert(title_text(*view_data) + t_lead + t_body + t_trail =~= frame_text(*view_data, s));
        }
    }
    proof {
        assert(out0.subrange(0, 0) =~= out0);
        assert(display.terminal().output().subrange(0, display.terminal().output().len() as int)
            =~= display.terminal().output());
    }
    Ok(())
}

} // verus!
