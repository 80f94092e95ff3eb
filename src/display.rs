//! The display: the one owner of the terminal, with a resolved color pair pair for
//! every role.
use vstd::prelude::*;

use crate::color::{register_selectable_color_pairs, spec_color_pairs, spec_find_color, ColorMode, Colors};
use crate::display_color::{lemma_role_index_bounds, role_at, role_index, DisplayColor, Theme, ROLE_COUNT};
use crate::tui::{Size, TuiError, Tui};

verus! {

/// The normal and the selected pair that a theme gives a role under a color mode.
pub open spec fn theme_pairs(mode: ColorMode, theme: Theme, c: DisplayColor) -> (Colors, Colors) {
    spec_color_pairs(
        mode,
        theme.spec_role_color(c),
        theme.color_background,
        theme.color_selected_background,
    )
}

/// The pair of a role in a given selection state.
pub open spec fn theme_pair(mode: ColorMode, theme: Theme, c: DisplayColor, selected: bool) -> Colors {
    if selected {
        theme_pairs(mode, theme, c).1
    } else {
        theme_pairs(mode, theme, c).0
    }
}

/// Every role, in either selection state, resolves to a pair that agrees with the
/// theme and the color mode: the role's own color as foreground in both states, the
/// theme's background when unselected, and its selected background when selected.
pub proof fn lemma_role_pairs_follow_theme(mode: ColorMode, theme: Theme, c: DisplayColor, selected: bool)
    ensures
        theme_pair(mode, theme, c, selected).foreground == spec_find_color(mode, theme.spec_role_color(c)),
        !selected ==> theme_pair(mode, theme, c, selected).background == spec_find_color(
            mode,
            theme.color_background,
        ),
        selected ==> theme_pair(mode, theme, c, selected).background == spec_find_color(
            mode,
            theme.color_selected_background,
        ),
{
}

pub struct Display<T: Tui> {
    pairs: Vec<(Colors, Colors)>,
    pub tui: T,
}

impl<T: Tui> Display<T> {
    /// The terminal that the display draws on.
    pub closed spec fn terminal(&self) -> T {
        self.tui
    }

    /// The table of pairs, indexed by `role_index`.
    pub closed spec fn pairs_view(&self) -> Seq<(Colors, Colors)> {
        self.pairs@
    }

    /// The table of pairs is complete.
    pub open spec fn wf(&self) -> bool {
        self.pairs_view().len() == ROLE_COUNT
    }

    /// The pair that `color` activates for a role and a selection state.
    pub open spec fn pair(&self, c: DisplayColor, selected: bool) -> Colors {
        if selected {
            self.pairs_view()[role_index(c)].1
        } else {
            self.pairs_view()[role_index(c)].0
        }
    }

    /// The pairs are fixed: every method but `new` keeps them.
    pub open spec fn same_pairs(&self, other: &Self) -> bool {
        self.pairs_view() == other.pairs_view()
    }

    /// Resolves every role of the theme for the terminal's color mode.
    pub fn new(tui: T, theme: &Theme) -> (r: Self)
        ensures
            r.wf(),
            r.terminal() == tui,
            forall|c: DisplayColor, s: bool|
                #[trigger] r.pair(c, s) == theme_pair(tui.mode(), *theme, c, s),
    {
        let mode = tui.get_color_mode();
        let mut pairs: Vec<(Colors, Colors)> = Vec::new();
        let mut i: usize = 0;
        while i < ROLE_COUNT
            invariant
                i <= ROLE_COUNT,
                pairs@.len() == i,
                mode == tui.mode(),
                forall|j: int| 0 <= j < i ==> #[trigger] pairs@[j] == theme_pairs(mode, *theme, role_at(j)),
            decreases ROLE_COUNT - i,
        {
            let role = DisplayColor::from_index(i);
            pairs.push(
                register_selectable_color_pairs(
                    mode,
                    theme.role_color(role),
                    theme.color_background,
                    theme.color_selected_background,
                ),
            );
            i = i + 1;
        }
        let r = Display { pairs, tui };
        assert forall|c: DisplayColor, s: bool|
            #[trigger] r.pair(c, s) == theme_pair(mode, *theme, c, s) by {
            lemma_role_index_bounds(c);
        }
        r
    }

    /// Writes text at the cursor.
    pub fn draw_str(&mut self, s: &str) -> (r: Result<(), TuiError>)
        requires
            old(self).wf(),
        ensures
            final(self).wf(),
            final(self).same_pairs(old(self)),
            final(self).terminal().mode() == old(self).terminal().mode(),
            final(self).terminal().reliable() == old(self).terminal().reliable(),
            old(self).terminal().reliable() ==> r is Ok,
            r is Ok ==> final(self).terminal().size() == old(self).terminal().size(),
            r is Ok ==> final(self).terminal().output() == old(self).terminal().output().push(s@),
            r is Ok ==> final(self).terminal().registers() == (crate::tui::TuiState {
                dirty: true,
                ..old(self).terminal().registers()
            }),
    {
        self.tui.print(s)
    }

    /// Draws later text with the pair of a role in a selection state.
    pub fn color(&mut self, c: DisplayColor, selected: bool) -> (r: Result<(), TuiError>)
        requires
            old(self).wf(),
        ensures
            final(self).wf(),
            final(self).same_pairs(old(self)),
            final(self).terminal().mode() == old(self).terminal().mode(),
            final(self).terminal().reliable() == old(self).terminal().reliable(),
            old(self).terminal().reliable() ==> r is Ok,
            r is Ok ==> final(self).terminal().size() == old(self).terminal().size(),
            r is Ok ==> final(self).terminal().position() == old(self).terminal().position(),
            r is Ok ==> final(self).terminal().output() == old(self).terminal().output(),
            r is Ok ==> final(self).terminal().registers() == (crate::tui::TuiState {
                colors: old(self).pair(c, selected),
                ..old(self).terminal().registers()
            }),
    {
        let idx = c.index();
        let colors = if selected {
            self.pairs[idx].1
        } else {
            self.pairs[idx].0
        };
        self.tui.set_color(colors)
    }

    pub fn set_dim(&mut self, on: bool) -> (r: Result<(), TuiError>)
        requires
            old(self).wf(),
        ensures
            final(self).wf(),
            final(self).same_pairs(old(self)),
            final(self).terminal().mode() == old(self).terminal().mode(),
            final(self).terminal().reliable() == old(self).terminal().reliable(),
            old(self).terminal().reliable() ==> r is Ok,
            r is Ok ==> final(self).terminal().size() == old(self).terminal().size(),
            r is Ok ==> final(self).terminal().position() == old(self).terminal().position(),
            r is Ok ==> final(self).terminal().output() == old(self).terminal().output(),
            r is Ok ==> final(self).terminal().registers() == (crate::tui::TuiState {
                dimmed: on,
                ..old(self).terminal().registers()
            }),
    {
        self.tui.set_dim(on)
    }

    pub fn set_underline(&mut self, on: bool) -> (r: Result<(), TuiError>)
        requires
            old(self).wf(),
        ensures
            final(self).wf(),
            final(self).same_pairs(old(self)),
            final(self).terminal().mode() == old(self).terminal().mode(),
            final(self).terminal().reliable() == old(self).terminal().reliable(),
            old(self).terminal().reliable() ==> r is Ok,
            r is Ok ==> final(self).terminal().size() == old(self).terminal().size(),
            r is Ok ==> final(self).terminal().position() == old(self).terminal().position(),
            r is Ok ==> final(self).terminal().output() == old(self).terminal().output(),
            r is Ok ==> final(self).terminal().registers() == (crate::tui::TuiState {
                underline: on,
                ..old(self).terminal().registers()
            }),
    {
        self.tui.set_underline(on)
    }

    pub fn set_reverse(&mut self, on: bool) -> (r: Result<(), TuiError>)
        requires
            old(self).wf(),
        ensures
            final(self).wf(),
            final(self).same_pairs(old(self)),
            final(self).terminal().mode() == old(self).terminal().mode(),
            final(self).terminal().reliable() == old(self).terminal().reliable(),
            old(self).terminal().reliable() ==> r is Ok,
            r is Ok ==> final(self).terminal().size() == old(self).terminal().size(),
            r is Ok ==> final(self).terminal().position() == old(self).terminal().position(),
            r is Ok ==> final(self).terminal().output() == old(self).terminal().output(),
            r is Ok ==> final(self).terminal().registers() == (crate::tui::TuiState {
                reverse: on,
                ..old(self).terminal().registers()
            }),
    {
        self.tui.set_reverse(on)
    }

    /// Sets the three style bits; each is set whatever it was before.
    pub fn set_style(&mut self, dim: bool, underline: bool, reverse: bool) -> (r: Result<(), TuiError>)
        requires
            old(self).wf(),
        ensures
            final(self).wf(),
            final(self).same_pairs(old(self)),
            final(self).terminal().mode() == old(self).terminal().mode(),
            final(self).terminal().reliable() == old(self).terminal().reliable(),
            old(self).terminal().reliable() ==> r is Ok,
            r is Ok ==> final(self).terminal().size() == old(self).terminal().size(),
            r is Ok ==> final(self).terminal().position() == old(self).terminal().position(),
            r is Ok ==> final(self).terminal().output() == old(self).terminal().output(),
            r is Ok ==> final(self).terminal().registers() == (crate::tui::TuiState {
                dimmed: dim,
                underline,
                reverse,
                ..old(self).terminal().registers()
            }),
    {
        self.set_dim(dim)?;
        self.set_underline(underline)?;
        self.set_reverse(reverse)
    }

    /// Resets the color to the normal unselected pair, turns every style bit off and
    /// clears what was written.
    pub fn clear(&mut self) -> (r: Result<(), TuiError>)
        requires
            old(self).wf(),
        ensures
            final(self).wf(),
            final(self).same_pairs(old(self)),
            final(self).terminal().mode() == old(self).terminal().mode(),
            final(self).terminal().reliable() == old(self).terminal().reliable(),
            old(self).terminal().reliable() ==> r is Ok,
            r is Ok ==> final(self).terminal().size() == old(self).terminal().size(),
            r is Ok ==> final(self).terminal().output() == Seq::<Seq<char>>::empty(),
            r is Ok ==> final(self).terminal().registers() == (crate::tui::TuiState {
                colors: old(self).pair(DisplayColor::Normal, false),
                dimmed: false,
                underline: false,
                reverse: false,
                dirty: true,
                ..old(self).terminal().registers()
            }),
    {
        self.color(DisplayColor::Normal, false)?;
        self.set_style(false, false, false)?;
        self.tui.reset()
    }

    /// Shows what was written.
    pub fn refresh(&mut self) -> (r: Result<(), TuiError>)
        requires
            old(self).wf(),
        ensures
            final(self).wf(),
            final(self).same_pairs(old(self)),
            final(self).terminal().mode() == old(self).terminal().mode(),
            final(self).terminal().reliable() == old(self).terminal().reliable(),
            old(self).terminal().reliable() ==> r is Ok,
            r is Ok ==> final(self).terminal().size() == old(self).terminal().size(),
            r is Ok ==> final(self).terminal().position() == old(self).terminal().position(),
            r is Ok ==> final(self).terminal().output() == old(self).terminal().output(),
            r is Ok ==> final(self).terminal().registers() == (crate::tui::TuiState {
                dirty: false,
                ..old(self).terminal().registers()
            }),
    {
        self.tui.flush()
    }

    /// The terminal the display draws on.
    pub fn get_tui(&self) -> (r: &T)
        ensures
            *r == self.terminal(),
    {
        &self.tui
    }

    /// The terminal the display draws on, for changes that leave the pairs alone.
    pub fn tui_mut(&mut self) -> (r: &mut T)
        ensures
            *r == old(self).terminal(),
            final(self).terminal() == *final(r),
            final(self).pairs_view() == old(self).pairs_view(),
    {
        &mut self.tui
    }

    /// The terminal's size now.
    pub fn get_window_size(&self) -> (r: Size)
        ensures
            r == self.terminal().size(),
    {
        self.tui.get_size()
    }

    /// Moves the cursor to the first column of its line.
    pub fn ensure_at_line_start(&mut self) -> (r: Result<(), TuiError>)
        requires
            old(self).wf(),
        ensures
            final(self).wf(),
            final(self).same_pairs(old(self)),
            final(self).terminal().mode() == old(self).terminal().mode(),
            final(self).terminal().reliable() == old(self).terminal().reliable(),
            old(self).terminal().reliable() ==> r is Ok,
            r is Ok ==> final(self).terminal().size() == old(self).terminal().size(),
            r is Ok ==> final(self).terminal().output() == old(self).terminal().output(),
            r is Ok ==> final(self).terminal().registers() == old(self).terminal().registers(),
            r is Ok ==> final(self).terminal().position() == (1int, old(self).terminal().position().1),
    {
        self.tui.move_to_column(1)
    }

    /// Moves the cursor to the column that leaves `right` columns to its right, that
    /// is column `width - right + 1`, counted from 1.
    pub fn move_from_end_of_line(&mut self, right: u16) -> (r: Result<(), TuiError>)
        requires
            old(self).wf(),
            right <= old(self).terminal().size().width,
            old(self).terminal().size().width - right + 1 <= u16::MAX,
        ensures
            final(self).wf(),
            final(self).same_pairs(old(self)),
            final(self).terminal().mode() == old(self).terminal().mode(),
            final(self).terminal().reliable() == old(self).terminal().reliable(),
            old(self).terminal().reliable() ==> r is Ok,
            r is Ok ==> final(self).terminal().size() == old(self).terminal().size(),
            r is Ok ==> final(self).terminal().output() == old(self).terminal().output(),
            r is Ok ==> final(self).terminal().registers() == old(self).terminal().registers(),
            r is Ok ==> final(self).terminal().position() == (
                old(self).terminal().size().width - right + 1,
                old(self).terminal().position().1,
            ),
    {
        let width = self.get_window_size().width();
        self.tui.move_to_column((width - right as usize + 1) as u16)
    }

    /// Moves the cursor to the start of the next line.
    pub fn next_line(&mut self) -> (r: Result<(), TuiError>)
        requires
            old(self).wf(),
        ensures
            final(self).wf(),
            final(self).same_pairs(old(self)),
            final(self).terminal().mode() == old(self).terminal().mode(),
            final(self).terminal().reliable() == old(self).terminal().reliable(),
            old(self).terminal().reliable() ==> r is Ok,
            r is Ok ==> final(self).terminal().size() == old(self).terminal().size(),
            r is Ok ==> final(self).terminal().output() == old(self).terminal().output(),
            r is Ok ==> final(self).terminal().registers() == old(self).terminal().registers(),
            r is Ok ==> final(self).terminal().position() == (
                0int,
                if old(self).terminal().position().1 < u16::MAX {
                    old(self).terminal().position().1 + 1
                } else {
                    u16::MAX as int
                },
            ),
    {
        self.tui.move_next_line()
    }

    /// Takes the terminal for rendering and shows it.
    pub fn start(&mut self) -> (r: Result<(), TuiError>)
        requires
            old(self).wf(),
        ensures
            final(self).wf(),
            final(self).same_pairs(old(self)),
            final(self).terminal().mode() == old(self).terminal().mode(),
            final(self).terminal().reliable() == old(self).terminal().reliable(),
            old(self).terminal().reliable() ==> r is Ok,
            r is Ok ==> final(self).terminal().size() == old(self).terminal().size(),
            r is Ok ==> final(self).terminal().position() == old(self).terminal().position(),
            r is Ok ==> final(self).terminal().output() == old(self).terminal().output(),
            r is Ok ==> final(self).terminal().registers() == (crate::tui::TuiState {
                state: crate::tui::State::Normal,
                dirty: false,
                ..old(self).terminal().registers()
            }),
    {
        self.tui.start()?;
        self.tui.flush()
    }

    /// Gives the terminal back.
    pub fn end(&mut self) -> (r: Result<(), TuiError>)
        requires
            old(self).wf(),
        ensures
            final(self).wf(),
            final(self).same_pairs(old(self)),
            final(self).terminal().mode() == old(self).terminal().mode(),
            final(self).terminal().reliable() == old(self).terminal().reliable(),
            old(self).terminal().reliable() ==> r is Ok,
            r is Ok ==> final(self).terminal().size() == old(self).terminal().size(),
            r is Ok ==> final(self).terminal().position() == old(self).terminal().position(),
            r is Ok ==> final(self).terminal().output() == old(self).terminal().output(),
            r is Ok ==> final(self).terminal().registers() == (crate::tui::TuiState {
                state: crate::tui::State::Ended,
                dirty: false,
                ..old(self).terminal().registers()
            }),
    {
        self.tui.end()?;
        self.tui.flush()
    }
}

} // verus!
