//! A minimal VT100 sequence reader that turns bytes into commands, for
//! callers that keep their own grid of styled cells.

use vstd::prelude::*;

verus! {

/// A color as an escape sequence names it.
#[derive(Debug, Clone, Copy, PartialEq, Eq, Structural)]
pub enum AnsiColor {
    Black,
    Red,
    Green,
    Yellow,
    Blue,
    Magenta,
    Cyan,
    White,
    BrightBlack,
    BrightRed,
    BrightGreen,
    BrightYellow,
    BrightBlue,
    BrightMagenta,
    BrightCyan,
    BrightWhite,
    Color256(u8),
    Rgb(u8, u8, u8),
}

/// The style of a cell; `None` colors are the defaults.
#[derive(Debug, Clone, Copy, PartialEq, Eq, Structural)]
pub struct CellStyle {
    pub foreground: Option<AnsiColor>,
    pub background: Option<AnsiColor>,
    pub bold: bool,
    pub italic: bool,
    pub underline: bool,
    pub reverse: bool,
    pub dim: bool,
}

pub open spec fn plain_style() -> CellStyle {
    CellStyle {
        foreground: None,
        background: None,
        bold: false,
        italic: false,
        underline: false,
        reverse: false,
        dim: false,
    }
}

impl Default for CellStyle {
    fn default() -> (s: CellStyle)
        ensures
            s == plain_style(),
    {
        CellStyle {
            foreground: None,
            background: None,
            bold: false,
            italic: false,
            underline: false,
            reverse: false,
            dim: false,
        }
    }
}

/// A character with its style.
#[derive(Debug, Clone, Copy, PartialEq, Eq, Structural)]
pub struct Cell {
    pub c: char,
    pub style: CellStyle,
}

impl Default for Cell {
    fn default() -> (cell: Cell)
        ensures
            cell == (Cell { c: ' ', style: plain_style() }),
    {
        Cell { c: ' ', style: CellStyle::default() }
    }
}

/// A command read from the byte stream.
#[derive(Debug, Clone)]
pub enum VtCommand {
    Print(char),
    CursorUp(u32),
    CursorDown(u32),
    CursorForward(u32),
    CursorBackward(u32),
    CursorPosition(u32, u32),
    ClearScreen(u32),
    ClearLine(u32),
    SetGraphicsMode(Vec<u32>),
}

/// The abstract value of a command.
pub enum VtCmd {
    Print(char),
    CursorUp(u32),
    CursorDown(u32),
    CursorForward(u32),
    CursorBackward(u32),
    CursorPosition(u32, u32),
    ClearScreen(u32),
    ClearLine(u32),
    SetGraphicsMode(Seq<u32>),
}

impl View for VtCommand {
    type V = VtCmd;

    open spec fn view(&self) -> VtCmd {
        match self {
            VtCommand::Print(c) => VtCmd::Print(*c),
            VtCommand::CursorUp(n) => VtCmd::CursorUp(*n),
            VtCommand::CursorDown(n) => VtCmd::CursorDown(*n),
            VtCommand::CursorForward(n) => VtCmd::CursorForward(*n),
            VtCommand::CursorBackward(n) => VtCmd::CursorBackward(*n),
            VtCommand::CursorPosition(r, c) => VtCmd::CursorPosition(*r, *c),
            VtCommand::ClearScreen(n) => VtCmd::ClearScreen(*n),
            VtCommand::ClearLine(n) => VtCmd::ClearLine(*n),
            VtCommand::SetGraphicsMode(v) => VtCmd::SetGraphicsMode(v@),
        }
    }
}

#[derive(Debug, Clone, Copy, PartialEq, Eq, Structural)]
pub enum VtState {
    Normal,
    Escape,
    Csi,
    OscString,
}

/// The abstract state of the reader.
pub struct VtModel {
    pub state: VtState,
    pub params: Seq<u32>,
    pub current: nat,
    pub has_digits: bool,
}

/// Parameter values beyond `u32::MAX` are held at this cap, and dropped.
pub const VT_PARAM_CAP: u64 = 4294967296;

/// The parameter list with the pending parameter added, when it has digits
/// and fits a `u32`.
pub open spec fn with_pending(p: VtModel) -> Seq<u32> {
    if p.has_digits && p.current <= u32::MAX {
        p.params.push(p.current as u32)
    } else {
        p.params
    }
}

pub open spec fn first_or(params: Seq<u32>, i: int, default: u32) -> u32 {
    if 0 <= i < params.len() {
        params[i]
    } else {
        default
    }
}

pub open spec fn less_one(n: u32) -> u32 {
    if n == 0 {
        0
    } else {
        (n - 1) as u32
    }
}

/// The command that a final byte selects, if any.
pub open spec fn vt_command(params: Seq<u32>, cmd: u8) -> Option<VtCmd> {
    if cmd == 0x41 {
        Some(VtCmd::CursorUp(first_or(params, 0, 1)))
    } else if cmd == 0x42 {
        Some(VtCmd::CursorDown(first_or(params, 0, 1)))
    } else if cmd == 0x43 {
        Some(VtCmd::CursorForward(first_or(params, 0, 1)))
    } else if cmd == 0x44 {
        Some(VtCmd::CursorBackward(first_or(params, 0, 1)))
    } else if cmd == 0x48 {
        Some(VtCmd::CursorPosition(less_one(first_or(params, 0, 1)), less_one(first_or(params, 1, 1))))
    } else if cmd == 0x4A {
        Some(VtCmd::ClearScreen(first_or(params, 0, 0)))
    } else if cmd == 0x4B {
        Some(VtCmd::ClearLine(first_or(params, 0, 0)))
    } else if cmd == 0x6D {
        Some(VtCmd::SetGraphicsMode(params))
    } else {
        None
    }
}

/// One byte: the next state and the command it completes, if any. Outside
/// a sequence every byte but ESC is printed as the character of that code.
pub open spec fn vt_step(p: VtModel, byte: u8) -> (VtModel, Option<VtCmd>) {
    match p.state {
        VtState::Normal => if byte == 0x1B {
            (VtModel { state: VtState::Escape, ..p }, None)
        } else {
            (p, Some(VtCmd::Print(byte as char)))
        },
        VtState::Escape => if byte == 0x5B {
            (VtModel { state: VtState::Csi, params: Seq::empty(), current: 0, has_digits: false }, None)
        } else if byte == 0x5D {
            (VtModel { state: VtState::OscString, ..p }, None)
        } else {
            (VtModel { state: VtState::Normal, ..p }, None)
        },
        VtState::Csi => if 0x30 <= byte <= 0x39 {
            (
                VtModel {
                    current: if p.current * 10 + (byte - 0x30) > VT_PARAM_CAP {
                        VT_PARAM_CAP as nat
                    } else {
                        (p.current * 10 + (byte - 0x30)) as nat
                    },
                    has_digits: true,
                    ..p
                },
                None,
            )
        } else if byte == 0x3B {
            (VtModel { params: with_pending(p), current: 0, has_digits: false, ..p }, None)
        } else {
            (
                VtModel { state: VtState::Normal, params: with_pending(p), ..p },
                vt_command(with_pending(p), byte),
            )
        },
        VtState::OscString => if byte == 0x07 {
            (VtModel { state: VtState::Normal, ..p }, None)
        } else {
            (p, None)
        },
    }
}

/// Reads VT100 sequences one byte at a time.
pub struct VtParser {
    state: VtState,
    params: Vec<u32>,
    current: u64,
    has_digits: bool,
}

impl View for VtParser {
    type V = VtModel;

    closed spec fn view(&self) -> VtModel {
        VtModel {
            state: self.state,
            params: self.params@,
            current: self.current as nat,
            has_digits: self.has_digits,
        }
    }
}

pub open spec fn opt_view(r: Option<VtCommand>) -> Option<VtCmd> {
    match r {
        Some(c) => Some(c@),
        None => None,
    }
}

impl VtParser {
    pub open spec fn wf(&self) -> bool {
        self@.current <= VT_PARAM_CAP
    }

    pub fn new() -> (p: VtParser)
        ensures
            p.wf(),
            p@ == (VtModel { state: VtState::Normal, params: Seq::empty(), current: 0, has_digits: false }),
    {
        VtParser { state: VtState::Normal, params: Vec::new(), current: 0, has_digits: false }
    }

    fn pending_params(&self) -> (v: Vec<u32>)
        ensures
            v@ == with_pending(self@),
    {
        let mut v = self.params.clone();
        assert(v@ =~= self.params@);
        if self.has_digits && self.current <= 4294967295 {
            v.push(self.current as u32);
        }
        v
    }

    fn command(params: &Vec<u32>, cmd: u8) -> (r: Option<VtCommand>)
        ensures
            opt_view(r) == vt_command(params@, cmd),
    {
        let first = if params.len() > 0 { Some(params[0]) } else { None };
        let second = if params.len() > 1 { Some(params[1]) } else { None };
        let n1 = match first { Some(v) => v, None => 1 };
        let n0 = match first { Some(v) => v, None => 0 };
        if cmd == 0x41 {
            Some(VtCommand::CursorUp(n1))
        } else if cmd == 0x42 {
            Some(VtCommand::CursorDown(n1))
        } else if cmd == 0x43 {
            Some(VtCommand::CursorForward(n1))
        } else if cmd == 0x44 {
            Some(VtCommand::CursorBackward(n1))
        } else if cmd == 0x48 {
            let row = if n1 == 0 { 0 } else { n1 - 1 };
            let c = match second { Some(v) => v, None => 1 };
            let col = if c == 0 { 0 } else { c - 1 };
            Some(VtCommand::CursorPosition(row, col))
        } else if cmd == 0x4A {
            Some(VtCommand::ClearScreen(n0))
        } else if cmd == 0x4B {
            Some(VtCommand::ClearLine(n0))
        } else if cmd == 0x6D {
            let v = params.clone();
            assert(v@ =~= params@);
            Some(VtCommand::SetGraphicsMode(v))
        } else {
            None
        }
    }

    /// Reads one byte; returns the command it completes, if any.
    pub fn parse(&mut self, byte: u8) -> (r: Option<VtCommand>)
        requires
            old(self).wf(),
        ensures
            final(self).wf(),
            (final(self)@, opt_view(r)) == vt_step(old(self)@, byte),
    {
        match self.state {
            VtState::Normal => {
                if byte == 0x1B {
                    self.state = VtState::Escape;
                    None
                } else {
                    Some(VtCommand::Print(byte as char))
                }
            },
            VtState::Escape => {
                if byte == 0x5B {
                    self.state = VtState::Csi;
                    self.params.clear();
                    self.current = 0;
                    self.has_digits = false;
                } else if byte == 0x5D {
                    self.state = VtState::OscString;
                } else {
                    self.state = VtState::Normal;
                }
                None
            },
            VtState::Csi => {
                if 0x30 <= byte && byte <= 0x39 {
                    let v = self.current * 10 + (byte - 0x30) as u64;
                    self.current = if v > VT_PARAM_CAP { VT_PARAM_CAP } else { v };
                    self.has_digits = true;
                    None
                } else if byte == 0x3B {
                    self.params = self.pending_params();
                    self.current = 0;
                    self.has_digits = false;
                    None
                } else {
                    self.params = self.pending_params();
                    self.state = VtState::Normal;
                    Self::command(&self.params, byte)
                }
            },
            VtState::OscString => {
                if byte == 0x07 {
                    self.state = VtState::Normal;
                }
                None
            },
        }
    }
}

impl Default for VtParser {
    fn default() -> (p: VtParser)
        ensures
            p.wf(),
            p@ == (VtModel { state: VtState::Normal, params: Seq::empty(), current: 0, has_digits: false }),
    {
        VtParser::new()
    }
}

} // verus!
