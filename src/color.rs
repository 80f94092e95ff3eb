//! Concrete terminal colors and their resolution for a terminal's color mode.
use vstd::prelude::*;

verus! {

/// A concrete terminal color.
#[derive(Debug, Clone, Copy, PartialEq, Eq, Structural)]
pub enum Color {
    Reset,
    Black,
    DarkGrey,
    Red,
    DarkRed,
    Green,
    DarkGreen,
    Yellow,
    DarkYellow,
    Blue,
    DarkBlue,
    Magenta,
    DarkMagenta,
    Cyan,
    DarkCyan,
    White,
    Grey,
    Rgb { r: u8, g: u8, b: u8 },
    AnsiValue(u8),
}

/// A foreground and background color pair.
#[derive(Debug, Clone, Copy, PartialEq, Eq, Structural)]
pub struct Colors {
    pub foreground: Color,
    pub background: Color,
}

impl Colors {
    pub fn new(foreground: Color, background: Color) -> (r: Colors)
        ensures
            r.foreground == foreground,
            r.background == background,
    {
        Colors { foreground, background }
    }
}

/// How many colors the terminal can show.
#[derive(Debug, Clone, Copy, PartialEq, Eq, Structural)]
pub enum ColorMode {
    /// No color at all.
    TwoTone,
    /// The eight basic colors.
    ThreeBit,
    /// The sixteen basic colors.
    FourBit,
    /// The 256 color indexed palette.
    EightBit,
    /// Any RGB value.
    TrueColor,
}

/// The level, 0 to 5, of one channel in the 6x6x6 cube of the indexed palette.
pub open spec fn cube_level(c: u8) -> int {
    (c as int * 5 + 127) / 255
}

/// The index in the 256 color palette nearest to an RGB value.
pub open spec fn cube_index(r: u8, g: u8, b: u8) -> int {
    16 + 36 * cube_level(r) + 6 * cube_level(g) + cube_level(b)
}

/// The bright basic color whose channels are on where the flags say.
pub open spec fn basic_of_channels(r: bool, g: bool, b: bool) -> Color {
    if r && g && b {
        Color::White
    } else if r && g {
        Color::Yellow
    } else if r && b {
        Color::Magenta
    } else if g && b {
        Color::Cyan
    } else if r {
        Color::Red
    } else if g {
        Color::Green
    } else if b {
        Color::Blue
    } else {
        Color::Black
    }
}

/// The first sixteen entries of the indexed palette.
pub open spec fn ansi_basic(n: int) -> Color {
    if n == 0 {
        Color::Black
    } else if n == 1 {
        Color::DarkRed
    } else if n == 2 {
        Color::DarkGreen
    } else if n == 3 {
        Color::DarkYellow
    } else if n == 4 {
        Color::DarkBlue
    } else if n == 5 {
        Color::DarkMagenta
    } else if n == 6 {
        Color::DarkCyan
    } else if n == 7 {
        Color::Grey
    } else if n == 8 {
        Color::DarkGrey
    } else if n == 9 {
        Color::Red
    } else if n == 10 {
        Color::Green
    } else if n == 11 {
        Color::Yellow
    } else if n == 12 {
        Color::Blue
    } else if n == 13 {
        Color::Magenta
    } else if n == 14 {
        Color::Cyan
    } else {
        Color::White
    }
}

/// The basic color nearest to an entry of the indexed palette.
pub open spec fn basic_of_ansi(n: u8) -> Color {
    if n < 16 {
        ansi_basic(n as int)
    } else if n < 232 {
        let v = n as int - 16;
        basic_of_channels(v / 36 >= 3, (v / 6) % 6 >= 3, v % 6 >= 3)
    } else {
        let level = n as int - 232;
        if level < 6 {
            Color::Black
        } else if level < 12 {
            Color::DarkGrey
        } else if level < 18 {
            Color::Grey
        } else {
            Color::White
        }
    }
}

/// What a theme color becomes on a terminal with the given mode.
pub open spec fn spec_find_color(mode: ColorMode, color: Color) -> Color {
    match mode {
        ColorMode::TwoTone => Color::Reset,
        ColorMode::TrueColor => color,
        ColorMode::EightBit => match color {
            Color::Rgb { r, g, b } => Color::AnsiValue(cube_index(r, g, b) as u8),
            _ => color,
        },
        ColorMode::ThreeBit | ColorMode::FourBit => match color {
            Color::Rgb { r, g, b } => basic_of_channels(r >= 128, g >= 128, b >= 128),
            Color::AnsiValue(n) => basic_of_ansi(n),
            _ => color,
        },
    }
}

/// The normal and the selected color pair of a role: the selected pair keeps the
/// foreground and takes the selected background.
pub open spec fn spec_color_pairs(
    mode: ColorMode,
    foreground: Color,
    background: Color,
    selected_background: Color,
) -> (Colors, Colors) {
    (
        Colors {
            foreground: spec_find_color(mode, foreground),
            background: spec_find_color(mode, background),
        },
        Colors {
            foreground: spec_find_color(mode, foreground),
            background: spec_find_color(mode, selected_background),
        },
    )
}

fn find_cube_level(c: u8) -> (r: u8)
    ensures
        r as int == cube_level(c),
        r <= 5,
{
    ((c as u32 * 5 + 127) / 255) as u8
}

fn find_basic_of_channels(r: bool, g: bool, b: bool) -> (c: Color)
    ensures
        c == basic_of_channels(r, g, b),
{
    if r && g && b {
        Color::White
    } else if r && g {
        Color::Yellow
    } else if r && b {
        Color::Magenta
    } else if g && b {
        Color::Cyan
    } else if r {
        Color::Red
    } else if g {
        Color::Green
    } else if b {
        Color::Blue
    } else {
        Color::Black
    }
}

fn find_basic_of_ansi(n: u8) -> (c: Color)
    ensures
        c == basic_of_ansi(n),
{
    if n < 16 {
        match n {
            0 => Color::Black,
            1 => Color::DarkRed,
            2 => Color::DarkGreen,
            3 => Color::DarkYellow,
            4 => Color::DarkBlue,
            5 => Color::DarkMagenta,
            6 => Color::DarkCyan,
            7 => Color::Grey,
            8 => Color::DarkGrey,
            9 => Color::Red,
            10 => Color::Green,
            11 => Color::Yellow,
            12 => Color::Blue,
            13 => Color::Magenta,
            14 => Color::Cyan,
            _ => Color::White,
        }
    } else if n < 232 {
        let v: u8 = n - 16;
        find_basic_of_channels(v / 36 >= 3, (v / 6) % 6 >= 3, v % 6 >= 3)
    } else {
        let level: u8 = n - 232;
        if level < 6 {
            Color::Black
        } else if level < 12 {
            Color::DarkGrey
        } else if level < 18 {
            Color::Grey
        } else {
            Color::White
        }
    }
}

/// What a theme color becomes on a terminal with the given mode: unchanged where the
/// terminal can show it, else the nearest color it can show.
pub fn find_color(mode: ColorMode, color: Color) -> (r: Color)
    ensures
        r == spec_find_color(mode, color),
{
    match mode {
        ColorMode::TwoTone => Color::Reset,
        ColorMode::TrueColor => color,
        ColorMode::EightBit => match color {
            Color::Rgb { r, g, b } => {
                let index = 16 + 36 * find_cube_level(r) + 6 * find_cube_level(g)
                    + find_cube_level(b);
                Color::AnsiValue(index)
            },
            _ => color,
        },
        ColorMode::ThreeBit | ColorMode::FourBit => match color {
            Color::Rgb { r, g, b } => find_basic_of_channels(r >= 128, g >= 128, b >= 128),
            Color::AnsiValue(n) => find_basic_of_ansi(n),
            _ => color,
        },
    }
}

/// Resolves the normal and the selected color pair of one role.
pub fn register_selectable_color_pairs(
    mode: ColorMode,
    foreground: Color,
    background: Color,
    selected_background: Color,
) -> (r: (Colors, Colors))
    ensures
        r == spec_color_pairs(mode, foreground, background, selected_background),
        r.1.foreground == r.0.foreground,
        r.1.background == spec_find_color(mode, selected_background),
{
    let fg = find_color(mode, foreground);
    (Colors::new(fg, find_color(mode, background)), Colors::new(fg, find_color(mode, selected_background)))
}

/// Resolution is a function of its inputs: resolving the same role twice gives the
/// same pairs.
pub proof fn lemma_resolution_deterministic(
    mode: ColorMode,
    foreground: Color,
    background: Color,
    selected_background: Color,
    first: (Colors, Colors),
    second: (Colors, Colors),
)
    requires
        first == spec_color_pairs(mode, foreground, background, selected_background),
        second == spec_color_pairs(mode, foreground, background, selected_background),
    ensures
        first == second,
{
}

} // verus!
