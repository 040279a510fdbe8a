//! One position of the terminal grid.

use vstd::prelude::*;
use crate::color::{Color, ansi_color, default_fg, default_bg};

verus! {

/// Text attributes of a cell.
#[derive(Debug, Clone, Copy, PartialEq, Eq, Structural)]
pub struct CellAttributes {
    pub bold: bool,
    pub italic: bool,
    pub underline: bool,
    pub strikethrough: bool,
    pub dim: bool,
    pub inverse: bool,
    pub hidden: bool,
    pub blink: bool,
}

/// All attribute flags off.
pub open spec fn plain_attrs() -> CellAttributes {
    CellAttributes {
        bold: false,
        italic: false,
        underline: false,
        strikethrough: false,
        dim: false,
        inverse: false,
        hidden: false,
        blink: false,
    }
}

impl Default for CellAttributes {
    fn default() -> (a: CellAttributes)
        ensures
            a == plain_attrs(),
    {
        CellAttributes {
            bold: false,
            italic: false,
            underline: false,
            strikethrough: false,
            dim: false,
            inverse: false,
            hidden: false,
            blink: false,
        }
    }
}

impl CellAttributes {
    /// Turns every flag off.
    pub fn reset(&mut self)
        ensures
            *final(self) == plain_attrs(),
    {
        *self = CellAttributes::default();
    }
}

/// A single cell of the terminal grid.
#[derive(Debug, Clone, Copy, PartialEq, Eq, Structural)]
pub struct Cell {
    pub character: char,
    pub fg: Color,
    pub bg: Color,
    pub attrs: CellAttributes,
}

/// The default cell: a space in the default colors with no attributes.
pub open spec fn blank_cell() -> Cell {
    Cell { character: ' ', fg: default_fg(), bg: default_bg(), attrs: plain_attrs() }
}

impl Default for Cell {
    fn default() -> (c: Cell)
        ensures
            c == blank_cell(),
    {
        Cell { character: ' ', fg: ansi_color(7), bg: ansi_color(0), attrs: CellAttributes::default() }
    }
}

impl Cell {
    /// A cell holding `character` in the default colors.
    pub fn new(character: char) -> (c: Cell)
        ensures
            c == (Cell { character, ..blank_cell() }),
    {
        Cell { character, ..Cell::default() }
    }

    /// A cell holding `character` in the given colors, with no attributes.
    pub fn with_colors(character: char, fg: Color, bg: Color) -> (c: Cell)
        ensures
            c == (Cell { character, fg, bg, attrs: plain_attrs() }),
    {
        Cell { character, fg, bg, attrs: CellAttributes::default() }
    }

    /// Resets the character to a space and the attributes to none; the colors stay.
    pub fn clear(&mut self)
        ensures
            *final(self) == (Cell { character: ' ', attrs: plain_attrs(), ..*old(self) }),
    {
        self.character = ' ';
        self.attrs = CellAttributes::default();
    }

    /// True when the cell holds a space.
    pub fn is_empty(&self) -> (r: bool)
        ensures
            r == (self.character == ' '),
    {
        self.character == ' '
    }
}

} // verus!
