//! The render loop's decisions: which signal is legal in which state, and what each
//! one does to the display and the viewport.
use vstd::prelude::*;

use crate::display::Display;
use crate::render::{draw_view_data, frame_text};
use crate::render_slice::{clamp, lemma_apply_all_keeps_bounds, max_left, max_top, spec_apply_all, RenderSlice, ScrollState};
use crate::tui::{State, TuiError, Tui};
use crate::view::{segments_text, LineSegment, RenderAction, ViewAction, ViewData, ViewLine};

verus! {

/// Where the render loop is in its lifecycle.
#[derive(Debug, Clone, Copy, PartialEq, Eq, Structural)]
pub enum LoopState {
    Uninitialized,
    Active,
    Ended,
    Stopped,
}

/// Why the render loop did not handle a signal.
#[derive(Debug, Clone, Copy, PartialEq, Eq, Structural)]
pub enum RenderError {
    /// The signal is not legal in the loop's state.
    IllegalState(LoopState, ViewAction),
    /// The terminal failed.
    Io(TuiError),
}

/// The state a signal leads to, where it is legal.
pub open spec fn spec_transition(state: LoopState, action: ViewAction) -> Option<LoopState> {
    match (state, action) {
        (_, ViewAction::Stop) => Some(LoopState::Stopped),
        (LoopState::Uninitialized, ViewAction::Start) => Some(LoopState::Active),
        (LoopState::Ended, ViewAction::Start) => Some(LoopState::Active),
        (LoopState::Active, ViewAction::Render) => Some(LoopState::Active),
        (LoopState::Active, ViewAction::Refresh) => Some(LoopState::Active),
        (LoopState::Active, ViewAction::End) => Some(LoopState::Ended),
        _ => None,
    }
}

/// The state a signal leads to, or the error that names the illegal signal.
pub fn transition(state: LoopState, action: ViewAction) -> (r: Result<LoopState, RenderError>)
    ensures
        match spec_transition(state, action) {
            Some(next) => r == Ok::<LoopState, RenderError>(next),
            None => r == Err::<LoopState, RenderError>(RenderError::IllegalState(state, action)),
        },
{
    match (state, action) {
        (_, ViewAction::Stop) => Ok(LoopState::Stopped),
        (LoopState::Uninitialized, ViewAction::Start) => Ok(LoopState::Active),
        (LoopState::Ended, ViewAction::Start) => Ok(LoopState::Active),
        (LoopState::Active, ViewAction::Render) => Ok(LoopState::Active),
        (LoopState::Active, ViewAction::Refresh) => Ok(LoopState::Active),
        (LoopState::Active, ViewAction::End) => Ok(LoopState::Ended),
        _ => Err(RenderError::IllegalState(state, action)),
    }
}

/// The width of a line's text, capped at the largest `usize`.
pub open spec fn line_width(line: ViewLine) -> int {
    if line.text().len() > usize::MAX {
        usize::MAX as int
    } else {
        line.text().len() as int
    }
}

/// The width of the widest of some lines.
pub open spec fn longest(lines: Seq<ViewLine>) -> int
    decreases lines.len(),
{
    if lines.len() == 0 {
        0
    } else {
        let rest = longest(lines.drop_last());
        if rest > line_width(lines.last()) {
            rest
        } else {
            line_width(lines.last())
        }
    }
}

/// The width of a line's text.
pub fn view_line_width(line: &ViewLine) -> (r: usize)
    ensures
        r == line_width(*line),
{
    let ghost segs = line.segments@;
    let mut w: usize = 0;
    let mut i: usize = 0;
    proof {
        assert(segs.subrange(0, 0).map_values(|s: LineSegment| s.content@) =~= Seq::<Seq<char>>::empty());
    }
    while i < line.segments.len()
        invariant
            i <= segs.len(),
            segs == line.segments@,
            w == if segments_text(segs.subrange(0, i as int)).len() > usize::MAX {
                usize::MAX as int
            } else {
                segments_text(segs.subrange(0, i as int)).len() as int
            },
        decreases segs.len() - i,
    {
        let n = line.segments[i].content.as_str().unicode_len();
        proof {
            let f = |s: LineSegment| s.content@;
            assert(segs.subrange(0, i + 1).map_values(f) =~= segs.subrange(0, i as int).map_values(
                f,
            ).push(segs[i as int].content@));
            segs.subrange(0, i as int).map_values(f).lemma_flatten_push(segs[i as int].content@);
        }
        w = if n > usize::MAX - w {
            usize::MAX
        } else {
            w + n
        };
        i = i + 1;
    }
    assert(segs.subrange(0, i as int) =~= segs);
    w
}

/// The width of the widest of some lines.
pub fn longest_line(lines: &Vec<ViewLine>) -> (r: usize)
    ensures
        r == longest(lines@),
{
    let mut best: usize = 0;
    let mut i: usize = 0;
    proof {
        assert(lines@.subrange(0, 0) =~= Seq::<ViewLine>::empty());
    }
    while i < lines.len()
        invariant
            i <= lines@.len(),
            best == longest(lines@.subrange(0, i as int)),
        decreases lines@.len() - i,
    {
        let w = view_line_width(&lines[i]);
        proof {
            assert(lines@.subrange(0, i + 1).drop_last() =~= lines@.subrange(0, i as int));
        }
        if w > best {
            best = w;
        }
        i = i + 1;
    }
    assert(lines@.subrange(0, i as int) =~= lines@);
    best
}

/// The width of the widest line of a view, in any group: every group scrolls
/// sideways with the same offset.
pub open spec fn content_width(view_data: ViewData) -> int {
    let a = longest(view_data.leading_lines@);
    let b = longest(view_data.lines@);
    let c = longest(view_data.trailing_lines@);
    let ab = if a > b {
        a
    } else {
        b
    };
    if ab > c {
        ab
    } else {
        c
    }
}

/// The width of the widest line of a view, in any group.
pub fn view_width(view_data: &ViewData) -> (r: usize)
    ensures
        r == content_width(*view_data),
{
    let a = longest_line(&view_data.leading_lines);
    let b = longest_line(&view_data.lines);
    let c = longest_line(&view_data.trailing_lines);
    let ab = if a > b {
        a
    } else {
        b
    };
    if ab > c {
        ab
    } else {
        c
    }
}

/// The viewport after new content: the body length and the widest line are taken in,
/// and the offsets clamped to them.
pub open spec fn with_content(s: ScrollState, body_len: usize, max_width: usize) -> ScrollState {
    ScrollState {
        body_len,
        max_width,
        top: clamp(s.top as int, max_top(body_len, s.height)) as usize,
        left: clamp(s.left as int, max_left(max_width, s.width)) as usize,
        ..s
    }
}

/// The viewport that a Render signal draws with: the new content taken in, then the
/// pending actions applied first to last.
pub open spec fn render_scroll(s: ScrollState, view_data: ViewData, pending: Seq<RenderAction>) -> ScrollState {
    spec_apply_all(
        with_content(
            s,
            view_data.lines@.len() as usize,
            content_width(view_data) as usize,
        ),
        pending,
    )
}

/// The render loop: the one owner of the display.
pub struct RenderLoop<T: Tui> {
    pub display: Display<T>,
    slice: RenderSlice,
    state: LoopState,
}

impl<T: Tui> RenderLoop<T> {
    /// The lifecycle state.
    pub closed spec fn loop_state(&self) -> LoopState {
        self.state
    }

    /// The display the loop draws on.
    pub closed spec fn current_display(&self) -> Display<T> {
        self.display
    }

    /// The viewport as of the last frame.
    pub closed spec fn scroll(&self) -> ScrollState {
        self.slice.state()
    }

    pub closed spec fn wf(&self) -> bool {
        self.display.wf() && self.slice.wf() && self.slice.queued().len() == 0
    }

    /// A loop that has not started, with an empty viewport.
    pub fn new(display: Display<T>) -> (r: RenderLoop<T>)
        requires
            display.wf(),
        ensures
            r.wf(),
            r.loop_state() == LoopState::Uninitialized,
            r.current_display() == display,
    {
        RenderLoop { display, slice: RenderSlice::new(), state: LoopState::Uninitialized }
    }

    pub fn get_state(&self) -> (r: LoopState)
        ensures
            r == self.loop_state(),
    {
        self.state
    }

    pub fn get_scroll(&self) -> (r: ScrollState)
        ensures
            r == self.scroll(),
    {
        self.slice.get_state()
    }

    /// Handles one signal. An illegal signal is reported and changes nothing. A legal
    /// one does its work on the display and, where that succeeds, moves the loop to
    /// its next state. A Render signal takes in the view's content, applies the
    /// pending actions first to last, draws the frame and shows it; it draws only
    /// from the view it is given.
    pub fn handle(&mut self, action: ViewAction, view_data: &ViewData, pending: &Vec<RenderAction>) -> (r: Result<(), RenderError>)
        requires
            old(self).wf(),
        ensures
            final(self).wf(),
            final(self).current_display().same_pairs(&old(self).current_display()),
            final(self).current_display().terminal().reliable() == old(self).current_display().terminal().reliable(),
            spec_transition(old(self).loop_state(), action) is Some
                && old(self).current_display().terminal().reliable() ==> r is Ok,
            action == ViewAction::Stop && old(self).loop_state() != LoopState::Active ==> r is Ok
                && final(self).loop_state() == LoopState::Stopped,
            spec_transition(old(self).loop_state(), action) is None <==> r == Err::<(), RenderError>(
                RenderError::IllegalState(old(self).loop_state(), action),
            ),
            spec_transition(old(self).loop_state(), action) is None ==> final(self).loop_state() == old(self).loop_state(),
            r is Ok ==> final(self).loop_state() == spec_transition(old(self).loop_state(), action)->Some_0,
            r is Err ==> final(self).loop_state() == old(self).loop_state(),
            action != ViewAction::Render ==> final(self).scroll() == old(self).scroll(),
            r is Ok && action == ViewAction::Render ==> final(self).scroll() == render_scroll(
                old(self).scroll(),
                *view_data,
                pending@,
            ),
            r is Ok && action == ViewAction::Render ==> final(self).current_display().terminal().output().flatten()
                == frame_text(*view_data, final(self).scroll()),
            r is Ok && (action == ViewAction::Render || action == ViewAction::Refresh)
                ==> !final(self).current_display().terminal().registers().dirty,
            r is Ok && action == ViewAction::Start ==> final(self).current_display().terminal().registers().state
                == State::Normal,
            r is Ok && action == ViewAction::End ==> final(self).current_display().terminal().registers().state
                == State::Ended,
            r is Ok && action == ViewAction::Stop && old(self).loop_state() == LoopState::Active
                ==> final(self).current_display().terminal().registers().state == State::Ended,
    {
        let next = match transition(self.state, action) {
            Ok(next) => next,
            Err(e) => {
                return Err(e);
            },
        };
        let done = match action {
            ViewAction::Start => self.display.start(),
            ViewAction::Refresh => self.display.refresh(),
            ViewAction::End => self.display.end(),
            ViewAction::Stop => if self.state == LoopState::Active {
                self.display.end()
            } else {
                Ok(())
            },
            ViewAction::Render => {
                let body_len = view_data.lines.len();
                let max_width = view_width(view_data);
                proof {
                    assert(self.slice.queued().len() == 0);
                }
                self.slice.set_content(body_len, max_width);
                let mut i: usize = 0;
                while i < pending.len()
                    invariant
                        i <= pending@.len(),
                        self.display == old(self).display,
                        self.state == old(self).state,
                        next == spec_transition(old(self).state, action)->Some_0,
                        self.slice.wf(),
                        self.slice.state() == with_content(old(self).scroll(), body_len, max_width),
                        self.slice.queued() == pending@.subrange(0, i as int),
                    decreases pending@.len() - i,
                {
                    self.slice.record_action(pending[i]);
                    proof {
                        assert(pending@.subrange(0, i + 1) =~= pending@.subrange(0, i as int).push(
                            pending@[i as int],
                        ));
                    }
                    i = i + 1;
                }
                assert(pending@.subrange(0, i as int) =~= pending@);
                self.slice.apply_actions();
                let s = self.slice.get_state();
                proof {
                    lemma_apply_all_keeps_bounds(with_content(old(self).scroll(), body_len, max_width), pending@);
                }
                match draw_view_data(&mut self.display, view_data, s) {
                    Ok(()) => {
                        self.display.refresh()
                    },
                    Err(e) => Err(e),
                }
            },
        };
        match done {
            Ok(()) => {
                self.state = next;
                Ok(())
            },
            Err(e) => Err(RenderError::Io(e)),
        }
    }
}

} // verus!
