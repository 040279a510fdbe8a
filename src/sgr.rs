//! Select Graphic Rendition: how an `m` sequence's parameters change the pen.

use vstd::prelude::*;
use crate::buffer::TerminalBuffer;
use crate::cell::CellAttributes;
use crate::color::{Color, color_from_256, spec_color_256, spec_ansi_color, spec_bright_color, ansi_color, bright_color, default_fg, default_bg};
use crate::model::BufferModel;

verus! {

/// A parameter's value, an empty parameter counting as `default`.
pub open spec fn param_or(params: Seq<Option<u16>>, i: int, default: u16) -> u16 {
    if 0 <= i < params.len() && params[i] is Some {
        params[i]->0
    } else {
        default
    }
}

/// The attributes after one SGR attribute code; other codes leave them.
pub open spec fn attrs_after(a: CellAttributes, code: u16) -> CellAttributes {
    if code == 1 {
        CellAttributes { bold: true, ..a }
    } else if code == 2 {
        CellAttributes { dim: true, ..a }
    } else if code == 3 {
        CellAttributes { italic: true, ..a }
    } else if code == 4 {
        CellAttributes { underline: true, ..a }
    } else if code == 5 || code == 6 {
        CellAttributes { blink: true, ..a }
    } else if code == 7 {
        CellAttributes { inverse: true, ..a }
    } else if code == 8 {
        CellAttributes { hidden: true, ..a }
    } else if code == 9 {
        CellAttributes { strikethrough: true, ..a }
    } else if code == 21 || code == 22 {
        CellAttributes { bold: false, dim: false, ..a }
    } else if code == 23 {
        CellAttributes { italic: false, ..a }
    } else if code == 24 {
        CellAttributes { underline: false, ..a }
    } else if code == 25 {
        CellAttributes { blink: false, ..a }
    } else if code == 27 {
        CellAttributes { inverse: false, ..a }
    } else if code == 28 {
        CellAttributes { hidden: false, ..a }
    } else if code == 29 {
        CellAttributes { strikethrough: false, ..a }
    } else {
        a
    }
}

pub open spec fn is_attr_code(code: u16) -> bool {
    (1 <= code <= 9) || (21 <= code <= 25) || (27 <= code <= 29)
}

/// The pen after one SGR code that takes no extra parameters.
pub open spec fn sgr_code(b: BufferModel, code: u16) -> BufferModel {
    if code == 0 {
        b.reset_attrs()
    } else if is_attr_code(code) {
        BufferModel { attrs: attrs_after(b.attrs, code), ..b }
    } else if 30 <= code <= 37 {
        BufferModel { fg: spec_ansi_color(code - 30), ..b }
    } else if code == 39 {
        BufferModel { fg: default_fg(), ..b }
    } else if 40 <= code <= 47 {
        BufferModel { bg: spec_ansi_color(code - 40), ..b }
    } else if code == 49 {
        BufferModel { bg: default_bg(), ..b }
    } else if 90 <= code <= 97 {
        BufferModel { fg: spec_bright_color(code - 90), ..b }
    } else if 100 <= code <= 107 {
        BufferModel { bg: spec_bright_color(code - 100), ..b }
    } else {
        b
    }
}

/// Sets the foreground (`fg`) or background color.
pub open spec fn with_color(b: BufferModel, fg: bool, c: Color) -> BufferModel {
    if fg {
        BufferModel { fg: c, ..b }
    } else {
        BufferModel { bg: c, ..b }
    }
}

/// A truecolor component: the parameter's low eight bits.
pub open spec fn component(params: Seq<Option<u16>>, i: int) -> u8 {
    (param_or(params, i, 0) % 256) as u8
}

/// The pen after the SGR parameters from index `i` on, scanned left to
/// right. `38`/`48` followed by `5;N` select palette entry N, followed by
/// `2;R;G;B` a truecolor; otherwise each code stands alone.
pub open spec fn sgr_from(b: BufferModel, params: Seq<Option<u16>>, i: nat) -> BufferModel
    decreases params.len() - i,
{
    if i >= params.len() {
        b
    } else {
        let code = param_or(params, i as int, 0);
        if (code == 38 || code == 48) && i + 2 < params.len() && params[(i + 1) as int] == Some(5u16) {
            sgr_from(
                with_color(b, code == 38, spec_color_256(param_or(params, (i + 2) as int, 0) as int)),
                params,
                i + 3,
            )
        } else if (code == 38 || code == 48) && i + 4 < params.len() && params[(i + 1) as int] == Some(2u16) {
            sgr_from(
                with_color(
                    b,
                    code == 38,
                    Color {
                        r: component(params, (i + 2) as int),
                        g: component(params, (i + 3) as int),
                        b: component(params, (i + 4) as int),
                    },
                ),
                params,
                i + 5,
            )
        } else {
            sgr_from(sgr_code(b, code), params, i + 1)
        }
    }
}

/// An `m` sequence: no parameters at all reset the pen.
pub open spec fn sgr(b: BufferModel, params: Seq<Option<u16>>) -> BufferModel {
    if params.len() == 0 {
        b.reset_attrs()
    } else {
        sgr_from(b, params, 0)
    }
}

/// Parameter `i`, or `default` when it is missing or empty.
pub fn param(params: &Vec<Option<u16>>, i: usize, default: u16) -> (v: u16)
    ensures
        v == param_or(params@, i as int, default),
{
    if i < params.len() {
        match params[i] {
            Some(v) => v,
            None => default,
        }
    } else {
        default
    }
}

fn apply_sgr_code(buf: &mut TerminalBuffer, code: u16)
    ensures
        final(buf)@ == sgr_code(old(buf)@, code),
{
    if code == 0 {
        buf.reset_attrs();
    } else if (1 <= code && code <= 9) || (21 <= code && code <= 25) || (27 <= code && code <= 29) {
        let mut a = buf.current_attrs();
        match code {
            1 => a.bold = true,
            2 => a.dim = true,
            3 => a.italic = true,
            4 => a.underline = true,
            5 | 6 => a.blink = true,
            7 => a.inverse = true,
            8 => a.hidden = true,
            9 => a.strikethrough = true,
            21 | 22 => {
                a.bold = false;
                a.dim = false;
            },
            23 => a.italic = false,
            24 => a.underline = false,
            25 => a.blink = false,
            27 => a.inverse = false,
            28 => a.hidden = false,
            _ => a.strikethrough = false,
        }
        buf.set_attr(a);
    } else if 30 <= code && code <= 37 {
        buf.set_fg(ansi_color((code - 30) as u8));
    } else if code == 39 {
        buf.set_fg(ansi_color(7));
    } else if 40 <= code && code <= 47 {
        buf.set_bg(ansi_color((code - 40) as u8));
    } else if code == 49 {
        buf.set_bg(ansi_color(0));
    } else if 90 <= code && code <= 97 {
        buf.set_fg(bright_color((code - 90) as u8));
    } else if 100 <= code && code <= 107 {
        buf.set_bg(bright_color((code - 100) as u8));
    }
}

fn set_color(buf: &mut TerminalBuffer, fg: bool, c: Color)
    ensures
        final(buf)@ == with_color(old(buf)@, fg, c),
{
    if fg {
        buf.set_fg(c);
    } else {
        buf.set_bg(c);
    }
}

/// Applies an `m` sequence's parameters to the pen; cells already written
/// keep their colors and attributes.
pub fn apply_sgr(buf: &mut TerminalBuffer, params: &Vec<Option<u16>>)
    requires
        old(buf).wf(),
    ensures
        final(buf).wf(),
        final(buf)@ == sgr(old(buf)@, params@),
{
    if params.len() == 0 {
        buf.reset_attrs();
        return;
    }
    let ghost b0 = buf@;
    let len = params.len();
    let mut i: usize = 0;
    while i < len
        invariant
            len == params@.len(),
            i <= len,
            buf.wf(),
            sgr_from(buf@, params@, i as nat) == sgr_from(b0, params@, 0),
        decreases len - i,
    {
        let code = param(params, i, 0);
        if (code == 38 || code == 48) && len - i > 2 && params[i + 1] == Some(5u16) {
            let c = color_from_256(param(params, i + 2, 0));
            set_color(buf, code == 38, c);
            i += 3;
        } else if (code == 38 || code == 48) && len - i > 4 && params[i + 1] == Some(2u16) {
            let c = Color {
                r: (param(params, i + 2, 0) % 256) as u8,
                g: (param(params, i + 3, 0) % 256) as u8,
                b: (param(params, i + 4, 0) % 256) as u8,
            };
            set_color(buf, code == 38, c);
            i += 5;
        } else {
            apply_sgr_code(buf, code);
            i += 1;
        }
    }
}

} // verus!
