//! The semantic roles that rendered text takes its colors from.
use vstd::prelude::*;

use crate::color::Color;

verus! {

/// How many roles there are.
pub const ROLE_COUNT: usize = 18;

/// A semantic rendering role, resolved to concrete colors by the display.
#[derive(Debug, Clone, Copy, PartialEq, Eq, Structural)]
pub enum DisplayColor {
    ActionBreak,
    ActionDrop,
    ActionEdit,
    ActionExec,
    ActionFixup,
    ActionPick,
    ActionReword,
    ActionSquash,
    ActionLabel,
    ActionReset,
    ActionMerge,
    DiffAddColor,
    DiffRemoveColor,
    DiffChangeColor,
    DiffContextColor,
    DiffWhitespaceColor,
    IndicatorColor,
    Normal,
}

/// The position of a role in a table of all roles.
pub open spec fn role_index(c: DisplayColor) -> int {
    match c {
        DisplayColor::ActionBreak => 0,
        DisplayColor::ActionDrop => 1,
        DisplayColor::ActionEdit => 2,
        DisplayColor::ActionExec => 3,
        DisplayColor::ActionFixup => 4,
        DisplayColor::ActionPick => 5,
        DisplayColor::ActionReword => 6,
        DisplayColor::ActionSquash => 7,
        DisplayColor::ActionLabel => 8,
        DisplayColor::ActionReset => 9,
        DisplayColor::ActionMerge => 10,
        DisplayColor::DiffAddColor => 11,
        DisplayColor::DiffRemoveColor => 12,
        DisplayColor::DiffChangeColor => 13,
        DisplayColor::DiffContextColor => 14,
        DisplayColor::DiffWhitespaceColor => 15,
        DisplayColor::IndicatorColor => 16,
        DisplayColor::Normal => 17,
    }
}

/// The role at a position of the table; the inverse of `role_index`.
pub open spec fn role_at(i: int) -> DisplayColor {
    if i == 0 {
        DisplayColor::ActionBreak
    } else if i == 1 {
        DisplayColor::ActionDrop
    } else if i == 2 {
        DisplayColor::ActionEdit
    } else if i == 3 {
        DisplayColor::ActionExec
    } else if i == 4 {
        DisplayColor::ActionFixup
    } else if i == 5 {
        DisplayColor::ActionPick
    } else if i == 6 {
        DisplayColor::ActionReword
    } else if i == 7 {
        DisplayColor::ActionSquash
    } else if i == 8 {
        DisplayColor::ActionLabel
    } else if i == 9 {
        DisplayColor::ActionReset
    } else if i == 10 {
        DisplayColor::ActionMerge
    } else if i == 11 {
        DisplayColor::DiffAddColor
    } else if i == 12 {
        DisplayColor::DiffRemoveColor
    } else if i == 13 {
        DisplayColor::DiffChangeColor
    } else if i == 14 {
        DisplayColor::DiffContextColor
    } else if i == 15 {
        DisplayColor::DiffWhitespaceColor
    } else if i == 16 {
        DisplayColor::IndicatorColor
    } else {
        DisplayColor::Normal
    }
}

pub proof fn lemma_role_index_bounds(c: DisplayColor)
    ensures
        0 <= role_index(c) < ROLE_COUNT,
        role_at(role_index(c)) == c,
{
}

impl DisplayColor {
    /// The position of this role in a table of all roles.
    pub fn index(&self) -> (r: usize)
        ensures
            r as int == role_index(*self),
            r < ROLE_COUNT,
    {
        match self {
            DisplayColor::ActionBreak => 0,
            DisplayColor::ActionDrop => 1,
            DisplayColor::ActionEdit => 2,
            DisplayColor::ActionExec => 3,
            DisplayColor::ActionFixup => 4,
            DisplayColor::ActionPick => 5,
            DisplayColor::ActionReword => 6,
            DisplayColor::ActionSquash => 7,
            DisplayColor::ActionLabel => 8,
            DisplayColor::ActionReset => 9,
            DisplayColor::ActionMerge => 10,
            DisplayColor::DiffAddColor => 11,
            DisplayColor::DiffRemoveColor => 12,
            DisplayColor::DiffChangeColor => 13,
            DisplayColor::DiffContextColor => 14,
            DisplayColor::DiffWhitespaceColor => 15,
            DisplayColor::IndicatorColor => 16,
            DisplayColor::Normal => 17,
        }
    }

    /// The role at a position of the table of all roles.
    pub fn from_index(i: usize) -> (r: DisplayColor)
        requires
            i < ROLE_COUNT,
        ensures
            r == role_at(i as int),
            role_index(r) == i,
    {
        match i {
            0 => DisplayColor::ActionBreak,
            1 => DisplayColor::ActionDrop,
            2 => DisplayColor::ActionEdit,
            3 => DisplayColor::ActionExec,
            4 => DisplayColor::ActionFixup,
            5 => DisplayColor::ActionPick,
            6 => DisplayColor::ActionReword,
            7 => DisplayColor::ActionSquash,
            8 => DisplayColor::ActionLabel,
            9 => DisplayColor::ActionReset,
            10 => DisplayColor::ActionMerge,
            11 => DisplayColor::DiffAddColor,
            12 => DisplayColor::DiffRemoveColor,
            13 => DisplayColor::DiffChangeColor,
            14 => DisplayColor::DiffContextColor,
            15 => DisplayColor::DiffWhitespaceColor,
            16 => DisplayColor::IndicatorColor,
            _ => DisplayColor::Normal,
        }
    }
}

/// The colors a theme gives: one per role, and the two backgrounds.
#[derive(Debug, Clone, Copy, PartialEq, Eq, Structural)]
pub struct Theme {
    pub color_foreground: Color,
    pub color_background: Color,
    pub color_selected_background: Color,
    pub color_indicator: Color,
    pub color_action_break: Color,
    pub color_action_drop: Color,
    pub color_action_edit: Color,
    pub color_action_exec: Color,
    pub color_action_fixup: Color,
    pub color_action_pick: Color,
    pub color_action_reword: Color,
    pub color_action_squash: Color,
    pub color_action_label: Color,
    pub color_action_reset: Color,
    pub color_action_merge: Color,
    pub color_diff_add: Color,
    pub color_diff_change: Color,
    pub color_diff_remove: Color,
    pub color_diff_context: Color,
    pub color_diff_whitespace: Color,
}

impl Theme {
    /// The foreground color that this theme gives a role.
    pub open spec fn spec_role_color(&self, c: DisplayColor) -> Color {
        match c {
            DisplayColor::ActionBreak => self.color_action_break,
            DisplayColor::ActionDrop => self.color_action_drop,
            DisplayColor::ActionEdit => self.color_action_edit,
            DisplayColor::ActionExec => self.color_action_exec,
            DisplayColor::ActionFixup => self.color_action_fixup,
            DisplayColor::ActionPick => self.color_action_pick,
            DisplayColor::ActionReword => self.color_action_reword,
            DisplayColor::ActionSquash => self.color_action_squash,
            DisplayColor::ActionLabel => self.color_action_label,
            DisplayColor::ActionReset => self.color_action_reset,
            DisplayColor::ActionMerge => self.color_action_merge,
            DisplayColor::DiffAddColor => self.color_diff_add,
            DisplayColor::DiffRemoveColor => self.color_diff_remove,
            DisplayColor::DiffChangeColor => self.color_diff_change,
            DisplayColor::DiffContextColor => self.color_diff_context,
            DisplayColor::DiffWhitespaceColor => self.color_diff_whitespace,
            DisplayColor::IndicatorColor => self.color_indicator,
            DisplayColor::Normal => self.color_foreground,
        }
    }

    /// The foreground color that this theme gives a role.
    pub fn role_color(&self, c: DisplayColor) -> (r: Color)
        ensures
            r == self.spec_role_color(c),
    {
        match c {
            DisplayColor::ActionBreak => self.color_action_break,
            DisplayColor::ActionDrop => self.color_action_drop,
            DisplayColor::ActionEdit => self.color_action_edit,
            DisplayColor::ActionExec => self.color_action_exec,
            DisplayColor::ActionFixup => self.color_action_fixup,
            DisplayColor::ActionPick => self.color_action_pick,
            DisplayColor::ActionReword => self.color_action_reword,
            DisplayColor::ActionSquash => self.color_action_squash,
            DisplayColor::ActionLabel => self.color_action_label,
            DisplayColor::ActionReset => self.color_action_reset,
            DisplayColor::ActionMerge => self.color_action_merge,
            DisplayColor::DiffAddColor => self.color_diff_add,
            DisplayColor::DiffRemoveColor => self.color_diff_remove,
            DisplayColor::DiffChangeColor => self.color_diff_change,
            DisplayColor::DiffContextColor => self.color_diff_context,
            DisplayColor::DiffWhitespaceColor => self.color_diff_whitespace,
            DisplayColor::IndicatorColor => self.color_indicator,
            DisplayColor::Normal => self.color_foreground,
        }
    }
}

} // verus!
