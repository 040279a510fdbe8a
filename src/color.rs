//! Colors and terminal dimensions.

use vstd::prelude::*;

verus! {

/// Terminal size in columns and rows.
#[derive(Debug, Clone, Copy, PartialEq, Eq, Structural)]
pub struct TerminalSize {
    pub cols: u16,
    pub rows: u16,
}

impl TerminalSize {
    pub fn new(cols: u16, rows: u16) -> (r: TerminalSize)
        ensures
            r.cols == cols,
            r.rows == rows,
    {
        TerminalSize { cols, rows }
    }
}

impl Default for TerminalSize {
    fn default() -> (r: TerminalSize)
        ensures
            r.cols == 80,
            r.rows == 24,
    {
        TerminalSize { cols: 80, rows: 24 }
    }
}

/// An RGB color.
#[derive(Debug, Clone, Copy, PartialEq, Eq, Structural)]
pub struct Color {
    pub r: u8,
    pub g: u8,
    pub b: u8,
}

impl Color {
    pub fn rgb(r: u8, g: u8, b: u8) -> (c: Color)
        ensures
            c == (Color { r, g, b }),
    {
        Color { r, g, b }
    }

    pub fn black() -> (c: Color)
        ensures
            c == spec_ansi_color(0),
    {
        ansi_color(0)
    }

    pub fn red() -> (c: Color)
        ensures
            c == spec_ansi_color(1),
    {
        ansi_color(1)
    }

    pub fn green() -> (c: Color)
        ensures
            c == spec_ansi_color(2),
    {
        ansi_color(2)
    }

    pub fn yellow() -> (c: Color)
        ensures
            c == spec_ansi_color(3),
    {
        ansi_color(3)
    }

    pub fn blue() -> (c: Color)
        ensures
            c == spec_ansi_color(4),
    {
        ansi_color(4)
    }

    pub fn magenta() -> (c: Color)
        ensures
            c == spec_ansi_color(5),
    {
        ansi_color(5)
    }

    pub fn cyan() -> (c: Color)
        ensures
            c == spec_ansi_color(6),
    {
        ansi_color(6)
    }

    pub fn white() -> (c: Color)
        ensures
            c == spec_ansi_color(7),
    {
        ansi_color(7)
    }

    pub fn bright_black() -> (c: Color)
        ensures
            c == spec_bright_color(0),
    {
        bright_color(0)
    }

    pub fn bright_red() -> (c: Color)
        ensures
            c == spec_bright_color(1),
    {
        bright_color(1)
    }

    pub fn bright_green() -> (c: Color)
        ensures
            c == spec_bright_color(2),
    {
        bright_color(2)
    }

    pub fn bright_yellow() -> (c: Color)
        ensures
            c == spec_bright_color(3),
    {
        bright_color(3)
    }

    pub fn bright_blue() -> (c: Color)
        ensures
            c == spec_bright_color(4),
    {
        bright_color(4)
    }

    pub fn bright_magenta() -> (c: Color)
        ensures
            c == spec_bright_color(5),
    {
        bright_color(5)
    }

    pub fn bright_cyan() -> (c: Color)
        ensures
            c == spec_bright_color(6),
    {
        bright_color(6)
    }

    pub fn bright_white() -> (c: Color)
        ensures
            c == spec_bright_color(7),
    {
        bright_color(7)
    }
}

/// The default foreground color of the pen.
pub open spec fn default_fg() -> Color {
    Color { r: 229, g: 229, b: 229 }
}

/// The default background color of the pen.
pub open spec fn default_bg() -> Color {
    Color { r: 0, g: 0, b: 0 }
}

/// One of the eight base ANSI colors, by index (0 = black .. 7 = white).
pub open spec fn spec_ansi_color(i: int) -> Color {
    if i == 0 {
        Color { r: 0, g: 0, b: 0 }
    } else if i == 1 {
        Color { r: 205, g: 49, b: 49 }
    } else if i == 2 {
        Color { r: 13, g: 188, b: 121 }
    } else if i == 3 {
        Color { r: 229, g: 229, b: 16 }
    } else if i == 4 {
        Color { r: 36, g: 114, b: 200 }
    } else if i == 5 {
        Color { r: 188, g: 63, b: 188 }
    } else if i == 6 {
        Color { r: 17, g: 168, b: 205 }
    } else {
        Color { r: 229, g: 229, b: 229 }
    }
}

/// One of the eight bright ANSI colors, by index (0 = bright black .. 7 = bright white).
pub open spec fn spec_bright_color(i: int) -> Color {
    if i == 0 {
        Color { r: 102, g: 102, b: 102 }
    } else if i == 1 {
        Color { r: 241, g: 76, b: 76 }
    } else if i == 2 {
        Color { r: 35, g: 209, b: 139 }
    } else if i == 3 {
        Color { r: 245, g: 245, b: 67 }
    } else if i == 4 {
        Color { r: 59, g: 142, b: 234 }
    } else if i == 5 {
        Color { r: 214, g: 112, b: 214 }
    } else if i == 6 {
        Color { r: 41, g: 184, b: 219 }
    } else {
        Color { r: 255, g: 255, b: 255 }
    }
}

/// The color of the 256-color palette at `idx`; indices past the palette give white.
pub open spec fn spec_color_256(idx: int) -> Color {
    if 0 <= idx < 8 {
        spec_ansi_color(idx)
    } else if 8 <= idx < 16 {
        spec_bright_color(idx - 8)
    } else if 16 <= idx < 232 {
        Color {
            r: (((idx - 16) / 36) * 51) as u8,
            g: ((((idx - 16) / 6) % 6) * 51) as u8,
            b: (((idx - 16) % 6) * 51) as u8,
        }
    } else if 232 <= idx < 256 {
        Color {
            r: ((idx - 232) * 10 + 8) as u8,
            g: ((idx - 232) * 10 + 8) as u8,
            b: ((idx - 232) * 10 + 8) as u8,
        }
    } else {
        Color { r: 229, g: 229, b: 229 }
    }
}

/// The base ANSI color with index `i`.
pub fn ansi_color(i: u8) -> (c: Color)
    requires
        i < 8,
    ensures
        c == spec_ansi_color(i as int),
{
    match i {
        0 => Color { r: 0, g: 0, b: 0 },
        1 => Color { r: 205, g: 49, b: 49 },
        2 => Color { r: 13, g: 188, b: 121 },
        3 => Color { r: 229, g: 229, b: 16 },
        4 => Color { r: 36, g: 114, b: 200 },
        5 => Color { r: 188, g: 63, b: 188 },
        6 => Color { r: 17, g: 168, b: 205 },
        _ => Color { r: 229, g: 229, b: 229 },
    }
}

/// The bright ANSI color with index `i`.
pub fn bright_color(i: u8) -> (c: Color)
    requires
        i < 8,
    ensures
        c == spec_bright_color(i as int),
{
    match i {
        0 => Color { r: 102, g: 102, b: 102 },
        1 => Color { r: 241, g: 76, b: 76 },
        2 => Color { r: 35, g: 209, b: 139 },
        3 => Color { r: 245, g: 245, b: 67 },
        4 => Color { r: 59, g: 142, b: 234 },
        5 => Color { r: 214, g: 112, b: 214 },
        6 => Color { r: 41, g: 184, b: 219 },
        _ => Color { r: 255, g: 255, b: 255 },
    }
}

/// Looks up an entry of the 256-color palette: the 16 ANSI colors, a 6x6x6
/// color cube in steps of 51, and a 24-step gray ramp.
pub fn color_from_256(idx: u16) -> (c: Color)
    ensures
        c == spec_color_256(idx as int),
{
    if idx < 8 {
        ansi_color(idx as u8)
    } else if idx < 16 {
        bright_color((idx - 8) as u8)
    } else if idx < 232 {
        let i = idx - 16;
        let r = (i / 36) * 51;
        let g = ((i / 6) % 6) * 51;
        let b = (i % 6) * 51;
        Color { r: r as u8, g: g as u8, b: b as u8 }
    } else if idx < 256 {
        let gray = (idx - 232) * 10 + 8;
        Color { r: gray as u8, g: gray as u8, b: gray as u8 }
    } else {
        Color { r: 229, g: 229, b: 229 }
    }
}

} // verus!
