//! The terminal port: what the display asks of a terminal, and a terminal that
//! records what it is asked instead of showing it.
use vstd::prelude::*;
use vstd::string::*;

use crate::color::{Color, ColorMode, Colors};

verus! {

/// The size of the terminal, in columns and rows.
#[derive(Debug, Clone, Copy, PartialEq, Eq, Structural)]
pub struct Size {
    pub width: usize,
    pub height: usize,
}

impl Size {
    pub fn new(width: usize, height: usize) -> (r: Size)
        ensures
            r.width == width,
            r.height == height,
    {
        Size { width, height }
    }

    pub fn width(&self) -> (r: usize)
        ensures
            r == self.width,
    {
        self.width
    }

    pub fn height(&self) -> (r: usize)
        ensures
            r == self.height,
    {
        self.height
    }
}

/// Whether the terminal is held for rendering.
#[derive(Debug, Clone, Copy, PartialEq, Eq, Structural)]
pub enum State {
    /// Never started.
    New,
    /// Held for rendering.
    Normal,
    /// Released after rendering.
    Ended,
}

/// A terminal operation that failed.
#[derive(Debug, Clone, Copy, PartialEq, Eq, Structural)]
pub enum TuiError {
    Io,
}

/// The registers of a terminal that later text is drawn with.
#[derive(Debug, Clone, Copy, PartialEq, Eq, Structural)]
pub struct TuiState {
    pub colors: Colors,
    pub dimmed: bool,
    pub underline: bool,
    pub reverse: bool,
    pub state: State,
    /// Output was written and not yet flushed.
    pub dirty: bool,
}

/// A terminal that the display draws on.
pub trait Tui {
    /// The color mode, fixed for the terminal's lifetime.
    spec fn mode(&self) -> ColorMode;

    /// The current size.
    spec fn size(&self) -> Size;

    /// The registers.
    spec fn registers(&self) -> TuiState;

    /// The text written since the last reset, one entry per write.
    spec fn output(&self) -> Seq<Seq<char>>;

    /// The cursor, as (column, row).
    spec fn position(&self) -> (int, int);

    /// Every operation of the terminal succeeds: it is not broken or gone. Operations
    /// keep this as it is.
    spec fn reliable(&self) -> bool;

    fn get_color_mode(&self) -> (r: ColorMode)
        ensures
            r == self.mode(),
    ;

    fn get_size(&self) -> (r: Size)
        ensures
            r == self.size(),
    ;

    fn print(&mut self, s: &str) -> (r: Result<(), TuiError>)
        ensures
            final(self).mode() == old(self).mode(),
            final(self).reliable() == old(self).reliable(),
            old(self).reliable() ==> r is Ok,
            r is Ok ==> final(self).size() == old(self).size(),
            r is Ok ==> final(self).output() == old(self).output().push(s@),
            r is Ok ==> final(self).registers() == (TuiState { dirty: true, ..old(self).registers() }),
    ;

    fn set_color(&mut self, colors: Colors) -> (r: Result<(), TuiError>)
        ensures
            final(self).mode() == old(self).mode(),
            final(self).reliable() == old(self).reliable(),
            old(self).reliable() ==> r is Ok,
            r is Ok ==> final(self).size() == old(self).size(),
            r is Ok ==> final(self).position() == old(self).position(),
            r is Ok ==> final(self).output() == old(self).output(),
            r is Ok ==> final(self).registers() == (TuiState { colors, ..old(self).registers() }),
    ;

    fn set_dim(&mut self, on: bool) -> (r: Result<(), TuiError>)
        ensures
            final(self).mode() == old(self).mode(),
            final(self).reliable() == old(self).reliable(),
            old(self).reliable() ==> r is Ok,
            r is Ok ==> final(self).size() == old(self).size(),
            r is Ok ==> final(self).position() == old(self).position(),
            r is Ok ==> final(self).output() == old(self).output(),
            r is Ok ==> final(self).registers() == (TuiState { dimmed: on, ..old(self).registers() }),
    ;

    fn set_underline(&mut self, on: bool) -> (r: Result<(), TuiError>)
        ensures
            final(self).mode() == old(self).mode(),
            final(self).reliable() == old(self).reliable(),
            old(self).reliable() ==> r is Ok,
            r is Ok ==> final(self).size() == old(self).size(),
            r is Ok ==> final(self).position() == old(self).position(),
            r is Ok ==> final(self).output() == old(self).output(),
            r is Ok ==> final(self).registers() == (TuiState {
                underline: on,
                ..old(self).registers()
            }),
    ;

    fn set_reverse(&mut self, on: bool) -> (r: Result<(), TuiError>)
        ensures
            final(self).mode() == old(self).mode(),
            final(self).reliable() == old(self).reliable(),
            old(self).reliable() ==> r is Ok,
            r is Ok ==> final(self).size() == old(self).size(),
            r is Ok ==> final(self).position() == old(self).position(),
            r is Ok ==> final(self).output() == old(self).output(),
            r is Ok ==> final(self).registers() == (TuiState { reverse: on, ..old(self).registers() }),
    ;

    fn move_to_column(&mut self, x: u16) -> (r: Result<(), TuiError>)
        ensures
            final(self).mode() == old(self).mode(),
            final(self).reliable() == old(self).reliable(),
            old(self).reliable() ==> r is Ok,
            r is Ok ==> final(self).size() == old(self).size(),
            r is Ok ==> final(self).output() == old(self).output(),
            r is Ok ==> final(self).registers() == old(self).registers(),
            r is Ok ==> final(self).position() == (x as int, old(self).position().1),
    ;

    fn move_next_line(&mut self) -> (r: Result<(), TuiError>)
        ensures
            final(self).mode() == old(self).mode(),
            final(self).reliable() == old(self).reliable(),
            old(self).reliable() ==> r is Ok,
            r is Ok ==> final(self).size() == old(self).size(),
            r is Ok ==> final(self).output() == old(self).output(),
            r is Ok ==> final(self).registers() == old(self).registers(),
            r is Ok ==> final(self).position() == (
                0int,
                if old(self).position().1 < u16::MAX {
                    old(self).position().1 + 1
                } else {
                    u16::MAX as int
                },
            ),
    ;

    /// Clears what was written.
    fn reset(&mut self) -> (r: Result<(), TuiError>)
        ensures
            final(self).mode() == old(self).mode(),
            final(self).reliable() == old(self).reliable(),
            old(self).reliable() ==> r is Ok,
            r is Ok ==> final(self).size() == old(self).size(),
            r is Ok ==> final(self).output() == Seq::<Seq<char>>::empty(),
            r is Ok ==> final(self).registers() == (TuiState { dirty: true, ..old(self).registers() }),
    ;

    fn flush(&mut self) -> (r: Result<(), TuiError>)
        ensures
            final(self).mode() == old(self).mode(),
            final(self).reliable() == old(self).reliable(),
            old(self).reliable() ==> r is Ok,
            r is Ok ==> final(self).size() == old(self).size(),
            r is Ok ==> final(self).position() == old(self).position(),
            r is Ok ==> final(self).output() == old(self).output(),
            r is Ok ==> final(self).registers() == (TuiState { dirty: false, ..old(self).registers() }),
    ;

    /// Takes the terminal for rendering.
    fn start(&mut self) -> (r: Result<(), TuiError>)
        ensures
            final(self).mode() == old(self).mode(),
            final(self).reliable() == old(self).reliable(),
            old(self).reliable() ==> r is Ok,
            r is Ok ==> final(self).size() == old(self).size(),
            r is Ok ==> final(self).position() == old(self).position(),
            r is Ok ==> final(self).output() == old(self).output(),
            r is Ok ==> final(self).registers() == (TuiState {
                state: State::Normal,
                dirty: true,
                ..old(self).registers()
            }),
    ;

    /// Gives the terminal back.
    fn end(&mut self) -> (r: Result<(), TuiError>)
        ensures
            final(self).mode() == old(self).mode(),
            final(self).reliable() == old(self).reliable(),
            old(self).reliable() ==> r is Ok,
            r is Ok ==> final(self).size() == old(self).size(),
            r is Ok ==> final(self).position() == old(self).position(),
            r is Ok ==> final(self).output() == old(self).output(),
            r is Ok ==> final(self).registers() == (TuiState {
                state: State::Ended,
                dirty: true,
                ..old(self).registers()
            }),
    ;
}

/// A terminal that records what it is asked to do, for tests and for replay.
pub struct RecordingTui {
    mode: ColorMode,
    size: Size,
    output: Vec<String>,
    registers: TuiState,
    column: u16,
    row: u16,
    failing: bool,
}

impl RecordingTui {
    /// A true color terminal of 10 by 10 cells, with default colors and no output.
    pub fn new() -> (r: RecordingTui)
        ensures
            r.mode() == ColorMode::TrueColor,
            r.size() == (Size { width: 10, height: 10 }),
            r.output() == Seq::<Seq<char>>::empty(),
            r.position() == (0int, 0int),
            r.reliable(),
            r.registers() == (TuiState {
                colors: Colors { foreground: Color::Reset, background: Color::Reset },
                dimmed: false,
                underline: false,
                reverse: false,
                state: State::New,
                dirty: false,
            }),
    {
        RecordingTui {
            mode: ColorMode::TrueColor,
            size: Size { width: 10, height: 10 },
            output: Vec::new(),
            registers: TuiState {
                colors: Colors { foreground: Color::Reset, background: Color::Reset },
                dimmed: false,
                underline: false,
                reverse: false,
                state: State::New,
                dirty: false,
            },
            column: 0,
            row: 0,
            failing: false,
        }
    }

    /// Resizes the recorded terminal.
    pub fn set_size(&mut self, size: Size)
        ensures
            final(self).size() == size,
            final(self).mode() == old(self).mode(),
            final(self).output() == old(self).output(),
            final(self).registers() == old(self).registers(),
            final(self).position() == old(self).position(),
            final(self).reliable() == old(self).reliable(),
    {
        self.size = size;
    }

    /// Makes every later operation fail, or succeed again.
    pub fn set_failing(&mut self, failing: bool)
        ensures
            final(self).reliable() == !failing,
            final(self).size() == old(self).size(),
            final(self).mode() == old(self).mode(),
            final(self).output() == old(self).output(),
            final(self).registers() == old(self).registers(),
            final(self).position() == old(self).position(),
    {
        self.failing = failing;
    }

    /// The text written since the last reset.
    pub fn get_output(&self) -> (r: &Vec<String>)
        ensures
            r@.map_values(|s: String| s@) == self.output(),
    {
        &self.output
    }

    pub fn get_state(&self) -> (r: State)
        ensures
            r == self.registers().state,
    {
        self.registers.state
    }

    pub fn get_colors(&self) -> (r: Colors)
        ensures
            r == self.registers().colors,
    {
        self.registers.colors
    }

    pub fn is_colors_enabled(&self, colors: Colors) -> (r: bool)
        ensures
            r == (self.registers().colors == colors),
    {
        self.registers.colors == colors
    }

    pub fn is_dimmed(&self) -> (r: bool)
        ensures
            r == self.registers().dimmed,
    {
        self.registers.dimmed
    }

    pub fn is_underline(&self) -> (r: bool)
        ensures
            r == self.registers().underline,
    {
        self.registers.underline
    }

    pub fn is_reverse(&self) -> (r: bool)
        ensures
            r == self.registers().reverse,
    {
        self.registers.reverse
    }

    pub fn is_dirty(&self) -> (r: bool)
        ensures
            r == self.registers().dirty,
    {
        self.registers.dirty
    }

    pub fn get_position(&self) -> (r: (u16, u16))
        ensures
            (r.0 as int, r.1 as int) == self.position(),
    {
        (self.column, self.row)
    }
}

impl Tui for RecordingTui {
    closed spec fn mode(&self) -> ColorMode {
        self.mode
    }

    closed spec fn size(&self) -> Size {
        self.size
    }

    closed spec fn registers(&self) -> TuiState {
        self.registers
    }

    closed spec fn output(&self) -> Seq<Seq<char>> {
        self.output@.map_values(|s: String| s@)
    }

    closed spec fn position(&self) -> (int, int) {
        (self.column as int, self.row as int)
    }

    closed spec fn reliable(&self) -> bool {
        !self.failing
    }

    fn get_color_mode(&self) -> (r: ColorMode) {
        self.mode
    }

    fn get_size(&self) -> (r: Size) {
        self.size
    }

    fn print(&mut self, s: &str) -> (r: Result<(), TuiError>) {
        if self.failing {
            return Err(TuiError::Io);
        }
        self.output.push(String::from_str(s));
        assert(self.output@.map_values(|s: String| s@) =~= old(self).output@.map_values(
            |s: String| s@,
        ).push(s@));
        self.registers.dirty = true;
        Ok(())
    }

    fn set_color(&mut self, colors: Colors) -> (r: Result<(), TuiError>) {
        if self.failing {
            return Err(TuiError::Io);
        }
        self.registers.colors = colors;
        Ok(())
    }

    fn set_dim(&mut self, on: bool) -> (r: Result<(), TuiError>) {
        if self.failing {
            return Err(TuiError::Io);
        }
        self.registers.dimmed = on;
        Ok(())
    }

    fn set_underline(&mut self, on: bool) -> (r: Result<(), TuiError>) {
        if self.failing {
            return Err(TuiError::Io);
        }
        self.registers.underline = on;
        Ok(())
    }

    fn set_reverse(&mut self, on: bool) -> (r: Result<(), TuiError>) {
        if self.failing {
            return Err(TuiError::Io);
        }
        self.registers.reverse = on;
        Ok(())
    }

    fn move_to_column(&mut self, x: u16) -> (r: Result<(), TuiError>) {
        if self.failing {
            return Err(TuiError::Io);
        }
        self.column = x;
        Ok(())
    }

    fn move_next_line(&mut self) -> (r: Result<(), TuiError>) {
        if self.failing {
            return Err(TuiError::Io);
        }
        self.column = 0;
        if self.row < u16::MAX {
            self.row = self.row + 1;
        }
        Ok(())
    }

    fn reset(&mut self) -> (r: Result<(), TuiError>) {
        if self.failing {
            return Err(TuiError::Io);
        }
        self.output = Vec::new();
        assert(self.output@.map_values(|s: String| s@) =~= Seq::<Seq<char>>::empty());
        self.registers.dirty = true;
        Ok(())
    }

    fn flush(&mut self) -> (r: Result<(), TuiError>) {
        if self.failing {
            return Err(TuiError::Io);
        }
        self.registers.dirty = false;
        Ok(())
    }

    fn start(&mut self) -> (r: Result<(), TuiError>) {
        if self.failing {
            return Err(TuiError::Io);
        }
        self.registers.state = State::Normal;
        self.registers.dirty = true;
        Ok(())
    }

    fn end(&mut self) -> (r: Result<(), TuiError>) {
        if self.failing {
            return Err(TuiError::Io);
        }
        self.registers.state = State::Ended;
        self.registers.dirty = true;
        Ok(())
    }
}

} // verus!
