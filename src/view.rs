//! The styled content of a screen: segments, lines and the data of one view.
use vstd::prelude::*;
use vstd::string::*;

use crate::display_color::DisplayColor;

verus! {

/// A run of text drawn with one role and one style.
#[derive(Debug, Clone)]
pub struct LineSegment {
    pub content: String,
    pub color: DisplayColor,
    pub dim: bool,
    pub underline: bool,
    pub reverse: bool,
}

impl LineSegment {
    /// A segment in the normal role with no style.
    pub fn new(content: &str) -> (r: LineSegment)
        ensures
            r.content@ == content@,
            r.color == DisplayColor::Normal,
            !r.dim && !r.underline && !r.reverse,
    {
        LineSegment {
            content: String::from_str(content),
            color: DisplayColor::Normal,
            dim: false,
            underline: false,
            reverse: false,
        }
    }

    /// A segment with the given role and style.
    pub fn new_with_color_and_style(
        content: &str,
        color: DisplayColor,
        dim: bool,
        underline: bool,
        reverse: bool,
    ) -> (r: LineSegment)
        ensures
            r.content@ == content@,
            r.color == color,
            r.dim == dim,
            r.underline == underline,
            r.reverse == reverse,
    {
        LineSegment { content: String::from_str(content), color, dim, underline, reverse }
    }

    pub fn get_content(&self) -> (r: &str)
        ensures
            r@ == self.content@,
    {
        self.content.as_str()
    }

    pub fn get_color(&self) -> (r: DisplayColor)
        ensures
            r == self.color,
    {
        self.color
    }

    pub fn is_dimmed(&self) -> (r: bool)
        ensures
            r == self.dim,
    {
        self.dim
    }

    pub fn is_underlined(&self) -> (r: bool)
        ensures
            r == self.underline,
    {
        self.underline
    }

    pub fn is_reversed(&self) -> (r: bool)
        ensures
            r == self.reverse,
    {
        self.reverse
    }
}

/// The text of a sequence of segments, one after the other.
pub open spec fn segments_text(segments: Seq<LineSegment>) -> Seq<char> {
    segments.map_values(|s: LineSegment| s.content@).flatten()
}

/// One row of a view: segments, an optional padding that fills the row, and whether
/// the row is selected.
#[derive(Debug, Clone)]
pub struct ViewLine {
    pub segments: Vec<LineSegment>,
    pub padding: Option<LineSegment>,
    pub selected: bool,
}

impl ViewLine {
    /// An unselected line without padding.
    pub fn new(segments: Vec<LineSegment>) -> (r: ViewLine)
        ensures
            r.segments@ == segments@,
            r.padding is None,
            !r.selected,
    {
        ViewLine { segments, padding: None, selected: false }
    }

    pub fn set_selected(self, selected: bool) -> (r: ViewLine)
        ensures
            r.segments@ == self.segments@,
            r.padding == self.padding,
            r.selected == selected,
    {
        ViewLine { selected, ..self }
    }

    pub fn set_padding(self, padding: LineSegment) -> (r: ViewLine)
        ensures
            r.segments@ == self.segments@,
            r.padding == Some(padding),
            r.selected == self.selected,
    {
        ViewLine { padding: Some(padding), ..self }
    }

    pub fn get_segments(&self) -> (r: &Vec<LineSegment>)
        ensures
            r@ == self.segments@,
    {
        &self.segments
    }

    pub fn get_padding(&self) -> (r: &Option<LineSegment>)
        ensures
            *r == self.padding,
    {
        &self.padding
    }

    pub fn get_selected(&self) -> (r: bool)
        ensures
            r == self.selected,
    {
        self.selected
    }

    /// The text of the line's segments.
    pub open spec fn text(&self) -> Seq<char> {
        segments_text(self.segments@)
    }
}

/// What one screen shows: a title, a placeholder when there is nothing to show, and
/// three groups of lines.
#[derive(Debug, Clone)]
pub struct ViewData {
    pub show_title: bool,
    pub show_help: bool,
    pub empty: bool,
    pub leading_lines: Vec<ViewLine>,
    pub lines: Vec<ViewLine>,
    pub trailing_lines: Vec<ViewLine>,
}

impl ViewData {
    /// A view with no title and no lines.
    pub fn new() -> (r: ViewData)
        ensures
            !r.show_title && !r.show_help && !r.empty,
            r.leading_lines@.len() == 0,
            r.lines@.len() == 0,
            r.trailing_lines@.len() == 0,
    {
        ViewData {
            show_title: false,
            show_help: false,
            empty: false,
            leading_lines: Vec::new(),
            lines: Vec::new(),
            trailing_lines: Vec::new(),
        }
    }

    pub fn show_title(&self) -> (r: bool)
        ensures
            r == self.show_title,
    {
        self.show_title
    }

    pub fn show_help(&self) -> (r: bool)
        ensures
            r == self.show_help,
    {
        self.show_help
    }

    pub fn is_empty(&self) -> (r: bool)
        ensures
            r == self.empty,
    {
        self.empty
    }

    pub fn get_leading_lines(&self) -> (r: &Vec<ViewLine>)
        ensures
            r@ == self.leading_lines@,
    {
        &self.leading_lines
    }

    pub fn get_lines(&self) -> (r: &Vec<ViewLine>)
        ensures
            r@ == self.lines@,
    {
        &self.lines
    }

    pub fn get_trailing_lines(&self) -> (r: &Vec<ViewLine>)
        ensures
            r@ == self.trailing_lines@,
    {
        &self.trailing_lines
    }
}

/// A change of the viewport, queued between frames.
#[derive(Debug, Clone, Copy, PartialEq, Eq, Structural)]
pub enum RenderAction {
    ScrollUp,
    ScrollDown,
    ScrollLeft,
    ScrollRight,
    PageUp,
    PageDown,
    Resize(usize, usize),
}

/// A signal to the render loop.
#[derive(Debug, Clone, Copy, PartialEq, Eq, Structural)]
pub enum ViewAction {
    Start,
    Render,
    Refresh,
    End,
    Stop,
}

} // verus!
