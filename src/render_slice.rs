//! The viewport: its size, its scroll offsets, and the render actions queued since
//! the last frame.
use vstd::prelude::*;

use crate::view::RenderAction;

verus! {

/// The largest vertical offset: no further than the last page of the body.
pub open spec fn max_top(body_len: usize, height: usize) -> int {
    if body_len > height {
        body_len - height
    } else {
        0
    }
}

/// The largest horizontal offset: no further than the end of the longest line.
pub open spec fn max_left(max_width: usize, width: usize) -> int {
    if max_width > width {
        max_width - width
    } else {
        0
    }
}

/// The size of the viewport, how far it is scrolled, and the extent of the content.
#[derive(Debug, Clone, Copy, PartialEq, Eq, Structural)]
pub struct ScrollState {
    pub width: usize,
    pub height: usize,
    pub top: usize,
    pub left: usize,
    pub body_len: usize,
    pub max_width: usize,
}

impl ScrollState {
    /// The offsets lie within the content.
    pub open spec fn wf(&self) -> bool {
        self.top <= max_top(self.body_len, self.height) && self.left <= max_left(
            self.max_width,
            self.width,
        )
    }
}

/// The smaller of an offset and its bound.
pub open spec fn clamp(v: int, bound: int) -> int {
    if v > bound {
        bound
    } else {
        v
    }
}

/// The state after one action.
pub open spec fn spec_apply(s: ScrollState, action: RenderAction) -> ScrollState {
    match action {
        RenderAction::ScrollUp => ScrollState {
            top: if s.top > 0 {
                (s.top - 1) as usize
            } else {
                0
            },
            ..s
        },
        RenderAction::ScrollDown => ScrollState {
            top: clamp(s.top + 1, max_top(s.body_len, s.height)) as usize,
            ..s
        },
        RenderAction::ScrollLeft => ScrollState {
            left: if s.left > 0 {
                (s.left - 1) as usize
            } else {
                0
            },
            ..s
        },
        RenderAction::ScrollRight => ScrollState {
            left: clamp(s.left + 1, max_left(s.max_width, s.width)) as usize,
            ..s
        },
        RenderAction::PageUp => ScrollState {
            top: if s.top > s.height {
                (s.top - s.height) as usize
            } else {
                0
            },
            ..s
        },
        RenderAction::PageDown => ScrollState {
            top: clamp(s.top + s.height, max_top(s.body_len, s.height)) as usize,
            ..s
        },
        RenderAction::Resize(width, height) => ScrollState {
            width,
            height,
            top: clamp(s.top as int, max_top(s.body_len, height)) as usize,
            left: clamp(s.left as int, max_left(s.max_width, width)) as usize,
            ..s
        },
    }
}

/// The state after a sequence of actions, applied first to last.
pub open spec fn spec_apply_all(s: ScrollState, actions: Seq<RenderAction>) -> ScrollState {
    actions.fold_left(s, |st: ScrollState, a: RenderAction| spec_apply(st, a))
}

/// Applies one action; offsets stay clamped.
pub fn apply_action(s: ScrollState, action: RenderAction) -> (r: ScrollState)
    requires
        s.wf(),
    ensures
        r == spec_apply(s, action),
        r.wf(),
{
    match action {
        RenderAction::ScrollUp => ScrollState {
            top: if s.top > 0 {
                s.top - 1
            } else {
                0
            },
            ..s
        },
        RenderAction::ScrollDown => {
            let bound = if s.body_len > s.height {
                s.body_len - s.height
            } else {
                0
            };
            ScrollState {
                top: if s.top < bound {
                    s.top + 1
                } else {
                    bound
                },
                ..s
            }
        },
        RenderAction::ScrollLeft => ScrollState {
            left: if s.left > 0 {
                s.left - 1
            } else {
                0
            },
            ..s
        },
        RenderAction::ScrollRight => {
            let bound = if s.max_width > s.width {
                s.max_width - s.width
            } else {
                0
            };
            ScrollState {
                left: if s.left < bound {
                    s.left + 1
                } else {
                    bound
                },
                ..s
            }
        },
        RenderAction::PageUp => ScrollState {
            top: if s.top > s.height {
                s.top - s.height
            } else {
                0
            },
            ..s
        },
        RenderAction::PageDown => {
            let bound = if s.body_len > s.height {
                s.body_len - s.height
            } else {
                0
            };
            ScrollState {
                top: if bound - s.top > s.height {
                    s.top + s.height
                } else {
                    bound
                },
                ..s
            }
        },
        RenderAction::Resize(width, height) => {
            let top_bound = if s.body_len > height {
                s.body_len - height
            } else {
                0
            };
            let left_bound = if s.max_width > width {
                s.max_width - width
            } else {
                0
            };
            ScrollState {
                width,
                height,
                top: if s.top > top_bound {
                    top_bound
                } else {
                    s.top
                },
                left: if s.left > left_bound {
                    left_bound
                } else {
                    s.left
                },
                ..s
            }
        },
    }
}

/// Any sequence of actions keeps the offsets within the content, for every body
/// length and viewport size, zero included.
pub proof fn lemma_apply_all_keeps_bounds(s: ScrollState, actions: Seq<RenderAction>)
    requires
        s.wf(),
    ensures
        spec_apply_all(s, actions).wf(),
        spec_apply_all(s, actions).body_len == s.body_len,
        spec_apply_all(s, actions).max_width == s.max_width,
    decreases actions.len(),
{
    if actions.len() > 0 {
        lemma_apply_all_keeps_bounds(s, actions.drop_last());
        lemma_apply_keeps_bounds(spec_apply_all(s, actions.drop_last()), actions.last());
    }
}

/// One action keeps the offsets within the content.
pub proof fn lemma_apply_keeps_bounds(s: ScrollState, action: RenderAction)
    requires
        s.wf(),
    ensures
        spec_apply(s, action).wf(),
{
}

/// Actions queued as one sequence and applied at once give the state that applying
/// its first part and then the rest gives: the queue is one first-in first-out order.
pub proof fn lemma_apply_all_split(s: ScrollState, first: Seq<RenderAction>, rest: Seq<RenderAction>)
    ensures
        spec_apply_all(s, first + rest) == spec_apply_all(spec_apply_all(s, first), rest),
    decreases rest.len(),
{
    if rest.len() > 0 {
        lemma_apply_all_split(s, first, rest.drop_last());
        assert((first + rest).drop_last() =~= first + rest.drop_last());
        assert((first + rest).last() == rest.last());
    } else {
        assert(first + rest =~= first);
    }
}

/// The viewport and the actions queued for the next frame.
pub struct RenderSlice {
    actions: Vec<RenderAction>,
    scroll: ScrollState,
}

impl RenderSlice {
    /// The actions queued, first to last.
    pub closed spec fn queued(&self) -> Seq<RenderAction> {
        self.actions@
    }

    /// The viewport as of the last frame.
    pub closed spec fn state(&self) -> ScrollState {
        self.scroll
    }

    pub open spec fn wf(&self) -> bool {
        self.state().wf()
    }

    /// An empty viewport at the top left, with nothing queued.
    pub fn new() -> (r: RenderSlice)
        ensures
            r.wf(),
            r.queued() == Seq::<RenderAction>::empty(),
            r.state() == (ScrollState { width: 0, height: 0, top: 0, left: 0, body_len: 0, max_width: 0 }),
    {
        RenderSlice {
            actions: Vec::new(),
            scroll: ScrollState { width: 0, height: 0, top: 0, left: 0, body_len: 0, max_width: 0 },
        }
    }

    /// Queues an action after those already queued.
    pub fn record_action(&mut self, action: RenderAction)
        ensures
            final(self).queued() == old(self).queued().push(action),
            final(self).state() == old(self).state(),
    {
        self.actions.push(action);
    }

    /// The actions queued, first to last.
    pub fn get_actions(&self) -> (r: &Vec<RenderAction>)
        ensures
            r@ == self.queued(),
    {
        &self.actions
    }

    /// The viewport as of the last frame.
    pub fn get_state(&self) -> (r: ScrollState)
        ensures
            r == self.state(),
    {
        self.scroll
    }

    /// Takes in the extent of new content, clamping the offsets to it.
    pub fn set_content(&mut self, body_len: usize, max_width: usize)
        requires
            old(self).wf(),
        ensures
            final(self).wf(),
            final(self).queued() == old(self).queued(),
            final(self).state() == (ScrollState {
                body_len,
                max_width,
                top: clamp(old(self).state().top as int, max_top(body_len, old(self).state().height)) as usize,
                left: clamp(old(self).state().left as int, max_left(max_width, old(self).state().width)) as usize,
                ..old(self).state()
            }),
    {
        let s = self.scroll;
        let top_bound = if body_len > s.height {
            body_len - s.height
        } else {
            0
        };
        let left_bound = if max_width > s.width {
            max_width - s.width
        } else {
            0
        };
        self.scroll = ScrollState {
            body_len,
            max_width,
            top: if s.top > top_bound {
                top_bound
            } else {
                s.top
            },
            left: if s.left > left_bound {
                left_bound
            } else {
                s.left
            },
            ..s
        };
    }

    /// Drains the queue, applying its actions first to last.
    pub fn apply_actions(&mut self)
        requires
            old(self).wf(),
        ensures
            final(self).wf(),
            final(self).queued() == Seq::<RenderAction>::empty(),
            final(self).state() == spec_apply_all(old(self).state(), old(self).queued()),
    {
        let mut i: usize = 0;
        let mut s = self.scroll;
        while i < self.actions.len()
            invariant
                i <= self.actions@.len(),
                self.actions@ == old(self).actions@,
                s.wf(),
                s == spec_apply_all(old(self).scroll, self.actions@.subrange(0, i as int)),
            decreases self.actions@.len() - i,
        {
            let ghost prev = self.actions@.subrange(0, i as int);
            s = apply_action(s, self.actions[i]);
            proof {
                let next = self.actions@.subrange(0, i + 1);
                assert(next.drop_last() =~= prev);
            }
            i = i + 1;
        }
        assert(self.actions@.subrange(0, i as int) =~= self.actions@);
        self.scroll = s;
        self.actions = Vec::new();
    }
}

} // verus!
