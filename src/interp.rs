//! The escape-sequence interpreter: a resumable state machine over bytes that
//! drives a screen buffer, one operation per completed sequence.

use vstd::prelude::*;
use crate::buffer::TerminalBuffer;
use crate::model::BufferModel;
use crate::sgr::{param, param_or, sgr, apply_sgr};

verus! {

/// At most this many parameters of a control sequence are kept.
pub const MAX_PARAMS: usize = 32;

/// Parameter values are accumulated up to this cap; a value above `u16::MAX`
/// counts as an empty parameter.
pub const PARAM_CAP: u32 = 65536;

/// Where the interpreter stands between two bytes.
#[derive(Debug, Clone, Copy, PartialEq, Eq, Structural)]
pub enum ParseState {
    /// Printing characters and executing controls.
    Ground,
    /// After ESC, waiting for the byte that says what follows.
    Escape,
    /// Inside a two-character escape that carries intermediate bytes.
    EscapeIntermediate,
    /// Collecting the parameters of a control sequence (ESC `[`).
    Csi,
    /// Inside an operating-system command string, discarded up to BEL or ST.
    Osc,
}

/// The abstract state of the interpreter.
pub struct InterpModel {
    pub state: ParseState,
    pub params: Seq<Option<u16>>,
    pub current: nat,
    pub has_digits: bool,
    pub in_subparam: bool,
    pub private_marker: bool,
    pub utf8_remaining: nat,
    pub utf8_code: nat,
}

/// U+FFFD, shown for bytes that are not valid UTF-8.
pub open spec fn replacement_char() -> char {
    '\u{FFFD}'
}

/// The code is a Unicode scalar value.
pub open spec fn is_scalar(v: nat) -> bool {
    v < 0xD800 || (0xE000 <= v && v <= 0x10FFFF)
}

/// The character with code `v`, or U+FFFD when `v` is no scalar value.
pub open spec fn decoded_char(v: nat) -> char {
    if is_scalar(v) {
        (v as u32) as char
    } else {
        replacement_char()
    }
}

impl InterpModel {
    pub open spec fn wf(self) -> bool {
        &&& self.params.len() <= MAX_PARAMS
        &&& self.current <= PARAM_CAP
        &&& self.utf8_remaining <= 3
        &&& (self.utf8_remaining == 3 ==> self.utf8_code < 8)
        &&& (self.utf8_remaining == 2 ==> self.utf8_code < 512)
        &&& (self.utf8_remaining == 1 ==> self.utf8_code < 32768)
        &&& (self.utf8_remaining > 0 ==> self.state == ParseState::Ground)
    }

    pub open spec fn initial() -> InterpModel {
        InterpModel {
            state: ParseState::Ground,
            params: Seq::empty(),
            current: 0,
            has_digits: false,
            in_subparam: false,
            private_marker: false,
            utf8_remaining: 0,
            utf8_code: 0,
        }
    }

    pub open spec fn goto(self, s: ParseState) -> InterpModel {
        InterpModel { state: s, ..self }
    }

    /// Entering a control sequence: no parameters yet.
    pub open spec fn fresh_csi(self) -> InterpModel {
        InterpModel {
            state: ParseState::Csi,
            params: Seq::empty(),
            current: 0,
            has_digits: false,
            in_subparam: false,
            private_marker: false,
            ..self
        }
    }

    /// The parameter being collected, `None` when it is empty or too large.
    pub open spec fn finished_param(self) -> Option<u16> {
        if self.has_digits && self.current <= u16::MAX {
            Some(self.current as u16)
        } else {
            None
        }
    }

    /// Closes the parameter being collected (kept while fewer than
    /// `MAX_PARAMS` are held).
    pub open spec fn push_param(self) -> InterpModel {
        InterpModel {
            params: if self.params.len() < MAX_PARAMS {
                self.params.push(self.finished_param())
            } else {
                self.params
            },
            current: 0,
            has_digits: false,
            in_subparam: false,
            ..self
        }
    }

    /// The state at the final byte: the last parameter closed, unless the
    /// sequence has none at all.
    pub open spec fn finish(self) -> InterpModel {
        if self.has_digits || self.params.len() > 0 {
            self.push_param()
        } else {
            self
        }
    }

    /// The parameters handed to the final byte's command.
    pub open spec fn final_params(self) -> Seq<Option<u16>> {
        self.finish().params
    }

    /// A decimal digit of the current parameter; digits of a sub-parameter
    /// (after `:`) are skipped.
    pub open spec fn digit(self, d: nat) -> InterpModel {
        if self.in_subparam {
            self
        } else {
            InterpModel {
                current: if self.current * 10 + d > PARAM_CAP {
                    PARAM_CAP as nat
                } else {
                    self.current * 10 + d
                },
                has_digits: true,
                ..self
            }
        }
    }

    pub open spec fn no_utf8(self) -> InterpModel {
        InterpModel { utf8_remaining: 0, utf8_code: 0, ..self }
    }
}

/// A C0 control byte: backspace, tab, line feed (also VT and FF) and
/// carriage return act on the cursor; the others are ignored.
pub open spec fn execute(b: BufferModel, byte: u8) -> BufferModel {
    if byte == 0x08 {
        b.write_char('\x08')
    } else if byte == 0x09 {
        b.write_char('\t')
    } else if 0x0A <= byte <= 0x0C {
        b.write_char('\n')
    } else if byte == 0x0D {
        b.write_char('\r')
    } else {
        b
    }
}

/// A two-character escape: `7`/`8` save/restore the cursor, `D`/`M` scroll
/// up/down one line, `c` resets the screen, the pen and the cursor.
pub open spec fn esc_dispatch(b: BufferModel, byte: u8) -> BufferModel {
    if byte == 0x37 {
        b.save_cursor()
    } else if byte == 0x38 {
        b.restore_cursor()
    } else if byte == 0x44 {
        b.scroll_up(1)
    } else if byte == 0x4D {
        b.scroll_down(1)
    } else if byte == 0x63 {
        b.clear().reset_attrs().set_cursor(0, 0)
    } else {
        b
    }
}

/// One mode parameter of `h` (enable) or `l`.
pub open spec fn mode(b: BufferModel, private_marker: bool, code: Option<u16>, enable: bool) -> BufferModel {
    match code {
        None => b,
        Some(c) => if private_marker {
            if c == 6 {
                b.set_origin_mode(enable)
            } else if c == 7 {
                BufferModel { auto_wrap: enable, ..b }
            } else if c == 47 || c == 1047 {
                if enable {
                    b.switch_to_alternate()
                } else {
                    b.switch_to_main()
                }
            } else if c == 1049 {
                if enable {
                    b.save_cursor().switch_to_alternate().clear()
                } else {
                    b.switch_to_main().restore_cursor()
                }
            } else {
                b
            }
        } else if c == 4 {
            BufferModel { insert_mode: enable, ..b }
        } else {
            b
        },
    }
}

pub open spec fn modes_from(b: BufferModel, params: Seq<Option<u16>>, private_marker: bool, enable: bool, i: nat) -> BufferModel
    decreases params.len() - i,
{
    if i >= params.len() {
        b
    } else {
        modes_from(mode(b, private_marker, params[i as int], enable), params, private_marker, enable, i + 1)
    }
}

/// `n - 1`, or 0 for 0.
pub open spec fn minus_one(n: u16) -> int {
    if n == 0 {
        0
    } else {
        n - 1
    }
}

/// A count parameter: default 1, and at least 1.
pub open spec fn count(params: Seq<Option<u16>>) -> int {
    let n = param_or(params, 0, 1);
    if n == 0 {
        1
    } else {
        n as int
    }
}

/// The command that a control sequence's final byte selects.
pub open spec fn dispatch(b: BufferModel, params: Seq<Option<u16>>, private_marker: bool, fin: u8) -> BufferModel {
    let n = param_or(params, 0, 1) as nat;
    if fin == 0x41 {
        b.move_cursor(0, -count(params))
    } else if fin == 0x42 {
        b.move_cursor(0, count(params))
    } else if fin == 0x43 {
        b.move_cursor(count(params), 0)
    } else if fin == 0x44 {
        b.move_cursor(-count(params), 0)
    } else if fin == 0x45 {
        b.move_cursor(0, count(params)).carriage_return()
    } else if fin == 0x46 {
        b.move_cursor(0, -count(params)).carriage_return()
    } else if fin == 0x47 {
        b.move_cursor(minus_one(param_or(params, 0, 1)) - b.cursor_x, 0)
    } else if fin == 0x48 || fin == 0x66 {
        b.set_cursor(minus_one(param_or(params, 1, 1)), minus_one(param_or(params, 0, 1)))
    } else if fin == 0x4A {
        let sel = param_or(params, 0, 0);
        if sel == 0 {
            b.clear_to_end()
        } else if sel == 1 {
            b.clear_to_start()
        } else if sel == 2 || sel == 3 {
            b.clear()
        } else {
            b
        }
    } else if fin == 0x4B {
        let sel = param_or(params, 0, 0);
        if sel == 0 {
            b.clear_line_to_end()
        } else if sel == 1 {
            b.clear_line_to_start()
        } else if sel == 2 {
            b.clear_line()
        } else {
            b
        }
    } else if fin == 0x4C {
        b.insert_lines(n)
    } else if fin == 0x4D {
        b.delete_lines(n)
    } else if fin == 0x50 {
        b.delete_chars(n)
    } else if fin == 0x53 {
        b.scroll_up(n)
    } else if fin == 0x54 {
        b.scroll_down(n)
    } else if fin == 0x58 {
        b.erase_chars(n)
    } else if fin == 0x40 {
        b.insert_blank(n)
    } else if fin == 0x64 {
        b.set_cursor(b.cursor_x as int, minus_one(param_or(params, 0, 1)))
    } else if fin == 0x6D {
        sgr(b, params)
    } else if fin == 0x72 {
        b.set_scroll_region(
            minus_one(param_or(params, 0, 1)),
            minus_one(param_or(params, 1, b.rows as u16)),
        )
    } else if fin == 0x73 {
        b.save_cursor()
    } else if fin == 0x75 {
        b.restore_cursor()
    } else if fin == 0x68 {
        modes_from(b, params, private_marker, true, 0)
    } else if fin == 0x6C {
        modes_from(b, params, private_marker, false, 0)
    } else {
        b
    }
}

/// A byte in the ground state with no UTF-8 sequence under way.
pub open spec fn ground_start(b: BufferModel, p: InterpModel, byte: u8) -> (BufferModel, InterpModel) {
    if byte == 0x1B {
        (b, p.goto(ParseState::Escape))
    } else if byte < 0x20 {
        (execute(b, byte), p)
    } else if byte < 0x7F {
        (b.write_char(byte as char), p)
    } else if byte == 0x7F {
        (b, p)
    } else if 0xC2 <= byte <= 0xDF {
        (b, InterpModel { utf8_remaining: 1, utf8_code: (byte % 32) as nat, ..p })
    } else if 0xE0 <= byte <= 0xEF {
        (b, InterpModel { utf8_remaining: 2, utf8_code: (byte % 16) as nat, ..p })
    } else if 0xF0 <= byte <= 0xF4 {
        (b, InterpModel { utf8_remaining: 3, utf8_code: (byte % 8) as nat, ..p })
    } else {
        (b.write_char(replacement_char()), p)
    }
}

/// A byte in the ground state: it continues a UTF-8 sequence under way, or
/// breaks it off (showing U+FFFD) and stands on its own.
pub open spec fn ground(b: BufferModel, p: InterpModel, byte: u8) -> (BufferModel, InterpModel) {
    if p.utf8_remaining > 0 {
        if 0x80 <= byte <= 0xBF {
            let code = p.utf8_code * 64 + (byte % 64) as nat;
            if p.utf8_remaining == 1 {
                (b.write_char(decoded_char(code)), p.no_utf8())
            } else {
                (b, InterpModel { utf8_remaining: (p.utf8_remaining - 1) as nat, utf8_code: code, ..p })
            }
        } else {
            ground_start(b.write_char(replacement_char()), p.no_utf8(), byte)
        }
    } else {
        ground_start(b, p, byte)
    }
}

pub open spec fn escape(b: BufferModel, p: InterpModel, byte: u8) -> (BufferModel, InterpModel) {
    if byte == 0x1B {
        (b, p)
    } else if byte == 0x18 || byte == 0x1A {
        (b, p.goto(ParseState::Ground))
    } else if byte < 0x20 {
        (execute(b, byte), p)
    } else if byte == 0x5B {
        (b, p.fresh_csi())
    } else if byte == 0x5D {
        (b, p.goto(ParseState::Osc))
    } else if byte <= 0x2F {
        (b, p.goto(ParseState::EscapeIntermediate))
    } else if byte == 0x7F {
        (b, p)
    } else {
        (esc_dispatch(b, byte), p.goto(ParseState::Ground))
    }
}

pub open spec fn escape_intermediate(b: BufferModel, p: InterpModel, byte: u8) -> (BufferModel, InterpModel) {
    if byte == 0x1B {
        (b, p.goto(ParseState::Escape))
    } else if byte == 0x18 || byte == 0x1A {
        (b, p.goto(ParseState::Ground))
    } else if byte < 0x20 {
        (execute(b, byte), p)
    } else if byte <= 0x2F || byte == 0x7F {
        (b, p)
    } else {
        (b, p.goto(ParseState::Ground))
    }
}

pub open spec fn csi(b: BufferModel, p: InterpModel, byte: u8) -> (BufferModel, InterpModel) {
    if byte == 0x1B {
        (b, p.goto(ParseState::Escape))
    } else if byte == 0x18 || byte == 0x1A {
        (b, p.goto(ParseState::Ground))
    } else if byte < 0x20 {
        (execute(b, byte), p)
    } else if 0x30 <= byte <= 0x39 {
        (b, p.digit((byte - 0x30) as nat))
    } else if byte == 0x3B {
        (b, p.push_param())
    } else if byte == 0x3A {
        (b, InterpModel { in_subparam: true, ..p })
    } else if byte == 0x3F {
        (b, InterpModel { private_marker: true, ..p })
    } else if 0x40 <= byte <= 0x7E {
        (dispatch(b, p.final_params(), p.private_marker, byte), p.finish().goto(ParseState::Ground))
    } else {
        (b, p)
    }
}

pub open spec fn osc(b: BufferModel, p: InterpModel, byte: u8) -> (BufferModel, InterpModel) {
    if byte == 0x07 || byte == 0x18 || byte == 0x1A {
        (b, p.goto(ParseState::Ground))
    } else if byte == 0x1B {
        (b, p.goto(ParseState::Escape))
    } else {
        (b, p)
    }
}

/// One byte of input.
#[verifier::opaque]
pub open spec fn step(t: (BufferModel, InterpModel), byte: u8) -> (BufferModel, InterpModel) {
    let (b, p) = t;
    match p.state {
        ParseState::Ground => ground(b, p, byte),
        ParseState::Escape => escape(b, p, byte),
        ParseState::EscapeIntermediate => escape_intermediate(b, p, byte),
        ParseState::Csi => csi(b, p, byte),
        ParseState::Osc => osc(b, p, byte),
    }
}

/// The bytes fed one at a time, in order.
pub open spec fn feed(t: (BufferModel, InterpModel), bytes: Seq<u8>) -> (BufferModel, InterpModel)
    decreases bytes.len(),
{
    if bytes.len() == 0 {
        t
    } else {
        step(feed(t, bytes.drop_last()), bytes.last())
    }
}

/// Relies on `char::from_u32`: `Some` exactly for Unicode scalar values,
/// holding the character with that code.
#[verifier::external_body]
fn char_from_u32(v: u32) -> (r: Option<char>)
    ensures
        r is Some <==> is_scalar(v as nat),
        r matches Some(c) ==> c as u32 == v,
{
    char::from_u32(v)
}

/// The character with code `v`, or U+FFFD.
fn decode(v: u32) -> (c: char)
    ensures
        c == decoded_char(v as nat),
{
    match char_from_u32(v) {
        Some(c) => {
            proof {
                vstd::utf8::char_u32_cast(c, v);
            }
            c
        },
        None => '\u{FFFD}',
    }
}

fn execute_control(buf: &mut TerminalBuffer, byte: u8)
    requires
        old(buf).wf(),
    ensures
        final(buf).wf(),
        final(buf)@ == execute(old(buf)@, byte),
{
    if byte == 0x08 {
        buf.write_char('\x08');
    } else if byte == 0x09 {
        buf.write_char('\t');
    } else if 0x0A <= byte && byte <= 0x0C {
        buf.write_char('\n');
    } else if byte == 0x0D {
        buf.write_char('\r');
    }
}

fn esc_command(buf: &mut TerminalBuffer, byte: u8)
    requires
        old(buf).wf(),
    ensures
        final(buf).wf(),
        final(buf)@ == esc_dispatch(old(buf)@, byte),
{
    if byte == 0x37 {
        buf.save_cursor();
    } else if byte == 0x38 {
        buf.restore_cursor();
    } else if byte == 0x44 {
        buf.scroll_up(1);
    } else if byte == 0x4D {
        buf.scroll_down(1);
    } else if byte == 0x63 {
        buf.clear();
        buf.reset_attrs();
        buf.set_cursor(0, 0);
    }
}

fn apply_mode(buf: &mut TerminalBuffer, private_marker: bool, code: Option<u16>, enable: bool)
    requires
        old(buf).wf(),
    ensures
        final(buf).wf(),
        final(buf)@ == mode(old(buf)@, private_marker, code, enable),
{
    match code {
        None => {},
        Some(c) => {
            if private_marker {
                if c == 6 {
                    buf.set_origin_mode(enable);
                } else if c == 7 {
                    buf.set_auto_wrap(enable);
                } else if c == 47 || c == 1047 {
                    if enable {
                        buf.switch_to_alternate();
                    } else {
                        buf.switch_to_main();
                    }
                } else if c == 1049 {
                    if enable {
                        buf.save_cursor();
                        buf.switch_to_alternate();
                        buf.clear();
                    } else {
                        buf.switch_to_main();
                        buf.restore_cursor();
                    }
                }
            } else if c == 4 {
                buf.set_insert_mode(enable);
            }
        },
    }
}

/// Applies each parameter of an `h` (enable) or `l` sequence as a mode.
fn apply_modes(buf: &mut TerminalBuffer, params: &Vec<Option<u16>>, private_marker: bool, enable: bool)
    requires
        old(buf).wf(),
    ensures
        final(buf).wf(),
        final(buf)@ == modes_from(old(buf)@, params@, private_marker, enable, 0),
{
    let ghost b0 = buf@;
    let mut i: usize = 0;
    while i < params.len()
        invariant
            i <= params@.len(),
            buf.wf(),
            modes_from(buf@, params@, private_marker, enable, i as nat) == modes_from(b0, params@, private_marker, enable, 0),
        decreases params@.len() - i,
    {
        apply_mode(buf, private_marker, params[i], enable);
        i += 1;
    }
}

fn minus_one_exec(n: u16) -> (r: usize)
    ensures
        r == minus_one(n),
{
    if n == 0 {
        0
    } else {
        (n - 1) as usize
    }
}

fn count_exec(params: &Vec<Option<u16>>) -> (r: isize)
    ensures
        r == count(params@),
{
    let n = param(params, 0, 1);
    if n == 0 {
        1
    } else {
        n as isize
    }
}

/// Carries out the command that a control sequence's final byte selects.
fn dispatch_csi(buf: &mut TerminalBuffer, params: &Vec<Option<u16>>, private_marker: bool, fin: u8)
    requires
        old(buf).wf(),
    ensures
        final(buf).wf(),
        final(buf)@ == dispatch(old(buf)@, params@, private_marker, fin),
{
    let n = param(params, 0, 1) as usize;
    if fin == 0x41 {
        buf.move_cursor(0, -count_exec(params));
    } else if fin == 0x42 {
        buf.move_cursor(0, count_exec(params));
    } else if fin == 0x43 {
        buf.move_cursor(count_exec(params), 0);
    } else if fin == 0x44 {
        buf.move_cursor(-count_exec(params), 0);
    } else if fin == 0x45 {
        buf.move_cursor(0, count_exec(params));
        buf.write_char('\r');
    } else if fin == 0x46 {
        buf.move_cursor(0, -count_exec(params));
        buf.write_char('\r');
    } else if fin == 0x47 {
        let col = minus_one_exec(param(params, 0, 1));
        let (x, _) = buf.cursor_position();
        buf.move_cursor(col as isize - x as isize, 0);
    } else if fin == 0x48 || fin == 0x66 {
        let row = minus_one_exec(param(params, 0, 1));
        let col = minus_one_exec(param(params, 1, 1));
        buf.set_cursor(col, row);
    } else if fin == 0x4A {
        let sel = param(params, 0, 0);
        if sel == 0 {
            buf.clear_to_end();
        } else if sel == 1 {
            buf.clear_to_start();
        } else if sel == 2 || sel == 3 {
            buf.clear();
        }
    } else if fin == 0x4B {
        let sel = param(params, 0, 0);
        if sel == 0 {
            buf.clear_line_to_end();
        } else if sel == 1 {
            buf.clear_line_to_start();
        } else if sel == 2 {
            buf.clear_line();
        }
    } else if fin == 0x4C {
        buf.insert_lines(n);
    } else if fin == 0x4D {
        buf.delete_lines(n);
    } else if fin == 0x50 {
        buf.delete_chars(n);
    } else if fin == 0x53 {
        buf.scroll_up(n);
    } else if fin == 0x54 {
        buf.scroll_down(n);
    } else if fin == 0x58 {
        buf.erase_chars(n);
    } else if fin == 0x40 {
        buf.insert_blank(n);
    } else if fin == 0x64 {
        let row = minus_one_exec(param(params, 0, 1));
        let (x, _) = buf.cursor_position();
        buf.set_cursor(x, row);
    } else if fin == 0x6D {
        apply_sgr(buf, params);
    } else if fin == 0x72 {
        let top = minus_one_exec(param(params, 0, 1));
        let rows = buf.size().rows;
        let bottom = minus_one_exec(param(params, 1, rows));
        buf.set_scroll_region(top, bottom);
    } else if fin == 0x73 {
        buf.save_cursor();
    } else if fin == 0x75 {
        buf.restore_cursor();
    } else if fin == 0x68 {
        apply_modes(buf, params, private_marker, true);
    } else if fin == 0x6C {
        apply_modes(buf, params, private_marker, false);
    }
}

/// The interpreter's state between bytes: where it stands in the grammar,
/// the parameters collected so far and any UTF-8 sequence under way. It
/// holds no reference to the buffer it drives.
pub struct Interpreter {
    state: ParseState,
    params: Vec<Option<u16>>,
    current: u32,
    has_digits: bool,
    in_subparam: bool,
    private_marker: bool,
    utf8_remaining: u8,
    utf8_code: u32,
}

impl View for Interpreter {
    type V = InterpModel;

    closed spec fn view(&self) -> InterpModel {
        InterpModel {
            state: self.state,
            params: self.params@,
            current: self.current as nat,
            has_digits: self.has_digits,
            in_subparam: self.in_subparam,
            private_marker: self.private_marker,
            utf8_remaining: self.utf8_remaining as nat,
            utf8_code: self.utf8_code as nat,
        }
    }
}

impl Interpreter {
    pub open spec fn wf(&self) -> bool {
        self@.wf()
    }

    pub fn new() -> (p: Interpreter)
        ensures
            p.wf(),
            p@ == InterpModel::initial(),
    {
        Interpreter {
            state: ParseState::Ground,
            params: Vec::new(),
            current: 0,
            has_digits: false,
            in_subparam: false,
            private_marker: false,
            utf8_remaining: 0,
            utf8_code: 0,
        }
    }

    pub fn state(&self) -> (s: ParseState)
        ensures
            s == self@.state,
    {
        self.state
    }

    fn push_param(&mut self)
        requires
            old(self).wf(),
        ensures
            final(self).wf(),
            final(self)@ == old(self)@.push_param(),
    {
        if self.params.len() < MAX_PARAMS {
            let v = if self.has_digits && self.current <= 65535 {
                Some(self.current as u16)
            } else {
                None
            };
            self.params.push(v);
        }
        self.current = 0;
        self.has_digits = false;
        self.in_subparam = false;
    }

    fn ground_start(&mut self, buf: &mut TerminalBuffer, byte: u8)
        requires
            old(self).wf(),
            old(buf).wf(),
            old(self)@.utf8_remaining == 0,
            old(self)@.state == ParseState::Ground,
        ensures
            final(self).wf(),
            final(buf).wf(),
            (final(buf)@, final(self)@) == ground_start(old(buf)@, old(self)@, byte),
    {
        if byte == 0x1B {
            self.state = ParseState::Escape;
        } else if byte < 0x20 {
            execute_control(buf, byte);
        } else if byte < 0x7F {
            buf.write_char(byte as char);
        } else if byte == 0x7F {
        } else if 0xC2 <= byte && byte <= 0xDF {
            self.utf8_remaining = 1;
            self.utf8_code = (byte % 32) as u32;
        } else if 0xE0 <= byte && byte <= 0xEF {
            self.utf8_remaining = 2;
            self.utf8_code = (byte % 16) as u32;
        } else if 0xF0 <= byte && byte <= 0xF4 {
            self.utf8_remaining = 3;
            self.utf8_code = (byte % 8) as u32;
        } else {
            buf.write_char('\u{FFFD}');
        }
    }

    fn ground(&mut self, buf: &mut TerminalBuffer, byte: u8)
        requires
            old(self).wf(),
            old(buf).wf(),
            old(self)@.state == ParseState::Ground,
        ensures
            final(self).wf(),
            final(buf).wf(),
            (final(buf)@, final(self)@) == ground(old(buf)@, old(self)@, byte),
    {
        if self.utf8_remaining > 0 {
            if 0x80 <= byte && byte <= 0xBF {
                let code = self.utf8_code * 64 + (byte % 64) as u32;
                if self.utf8_remaining == 1 {
                    let c = decode(code);
                    self.utf8_remaining = 0;
                    self.utf8_code = 0;
                    buf.write_char(c);
                } else {
                    self.utf8_remaining = self.utf8_remaining - 1;
                    self.utf8_code = code;
                }
            } else {
                buf.write_char('\u{FFFD}');
                self.utf8_remaining = 0;
                self.utf8_code = 0;
                self.ground_start(buf, byte);
            }
        } else {
            self.ground_start(buf, byte);
        }
    }

    fn escape(&mut self, buf: &mut TerminalBuffer, byte: u8)
        requires
            old(self).wf(),
            old(buf).wf(),
            old(self)@.state == ParseState::Escape,
        ensures
            final(self).wf(),
            final(buf).wf(),
            (final(buf)@, final(self)@) == escape(old(buf)@, old(self)@, byte),
    {
        if byte == 0x1B {
        } else if byte == 0x18 || byte == 0x1A {
            self.state = ParseState::Ground;
        } else if byte < 0x20 {
            execute_control(buf, byte);
        } else if byte == 0x5B {
            self.state = ParseState::Csi;
            self.params.clear();
            self.current = 0;
            self.has_digits = false;
            self.in_subparam = false;
            self.private_marker = false;
        } else if byte == 0x5D {
            self.state = ParseState::Osc;
        } else if byte <= 0x2F {
            self.state = ParseState::EscapeIntermediate;
        } else if byte == 0x7F {
        } else {
            esc_command(buf, byte);
            self.state = ParseState::Ground;
        }
    }

    fn escape_intermediate(&mut self, buf: &mut TerminalBuffer, byte: u8)
        requires
            old(self).wf(),
            old(buf).wf(),
            old(self)@.state == ParseState::EscapeIntermediate,
        ensures
            final(self).wf(),
            final(buf).wf(),
            (final(buf)@, final(self)@) == escape_intermediate(old(buf)@, old(self)@, byte),
    {
        if byte == 0x1B {
            self.state = ParseState::Escape;
        } else if byte == 0x18 || byte == 0x1A {
            self.state = ParseState::Ground;
        } else if byte < 0x20 {
            execute_control(buf, byte);
        } else if byte <= 0x2F || byte == 0x7F {
        } else {
            self.state = ParseState::Ground;
        }
    }

    fn csi(&mut self, buf: &mut TerminalBuffer, byte: u8)
        requires
            old(self).wf(),
            old(buf).wf(),
            old(self)@.state == ParseState::Csi,
        ensures
            final(self).wf(),
            final(buf).wf(),
            (final(buf)@, final(self)@) == csi(old(buf)@, old(self)@, byte),
    {
        if byte == 0x1B {
            self.state = ParseState::Escape;
        } else if byte == 0x18 || byte == 0x1A {
            self.state = ParseState::Ground;
        } else if byte < 0x20 {
            execute_control(buf, byte);
        } else if 0x30 <= byte && byte <= 0x39 {
            if !self.in_subparam {
                let v = self.current * 10 + (byte - 0x30) as u32;
                self.current = if v > PARAM_CAP { PARAM_CAP } else { v };
                self.has_digits = true;
            }
        } else if byte == 0x3B {
            self.push_param();
        } else if byte == 0x3A {
            self.in_subparam = true;
        } else if byte == 0x3F {
            self.private_marker = true;
        } else if 0x40 <= byte && byte <= 0x7E {
            if self.has_digits || self.params.len() > 0 {
                self.push_param();
            }
            dispatch_csi(buf, &self.params, self.private_marker, byte);
            self.state = ParseState::Ground;
        }
    }

    fn osc(&mut self, buf: &mut TerminalBuffer, byte: u8)
        requires
            old(self).wf(),
            old(self)@.state == ParseState::Osc,
        ensures
            final(self).wf(),
            (*final(buf), final(self)@) == (*old(buf), osc(old(buf)@, old(self)@, byte).1),
            osc(old(buf)@, old(self)@, byte).0 == old(buf)@,
    {
        if byte == 0x07 || byte == 0x18 || byte == 0x1A {
            self.state = ParseState::Ground;
        } else if byte == 0x1B {
            self.state = ParseState::Escape;
        }
    }

    /// Feeds one byte: the buffer changes as `step` says.
    pub fn advance(&mut self, buf: &mut TerminalBuffer, byte: u8)
        requires
            old(self).wf(),
            old(buf).wf(),
        ensures
            final(self).wf(),
            final(buf).wf(),
            (final(buf)@, final(self)@) == step((old(buf)@, old(self)@), byte),
    {
        proof {
            reveal(step);
        }
        match self.state {
            ParseState::Ground => self.ground(buf, byte),
            ParseState::Escape => self.escape(buf, byte),
            ParseState::EscapeIntermediate => self.escape_intermediate(buf, byte),
            ParseState::Csi => self.csi(buf, byte),
            ParseState::Osc => self.osc(buf, byte),
        }
    }
}

} // verus!
