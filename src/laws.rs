//! Properties of the terminal stated over the model and proved.

use vstd::prelude::*;
use crate::cell::{Cell, blank_cell, plain_attrs};
use crate::color::{default_fg, default_bg, spec_ansi_color};
use crate::interp::{InterpModel, ParseState, feed, step, dispatch};
use crate::model::{BufferModel, lemma_insert_blank_frame, lemma_scroll_up_wf};

verus! {

/// Feeding one more byte is one more step.
pub proof fn lemma_feed_push(t: (BufferModel, InterpModel), s: Seq<u8>, b: u8)
    ensures
        feed(t, s.push(b)) == step(feed(t, s), b),
{
    assert(s.push(b).drop_last() =~= s);
}

/// Input split across two calls has the same effect as the same input in
/// one call, wherever the split falls.
pub proof fn lemma_split_input(t: (BufferModel, InterpModel), a: Seq<u8>, b: Seq<u8>)
    ensures
        feed(feed(t, a), b) == feed(t, a + b),
    decreases b.len(),
{
    if b.len() == 0 {
        assert(a + b =~= a);
    } else {
        lemma_split_input(t, a, b.drop_last());
        assert((a + b).drop_last() =~= a + b.drop_last());
        assert((a + b).last() == b.last());
    }
}

/// Every cursor-movement command leaves the cursor on the screen.
pub proof fn lemma_cursor_commands_in_bounds(b: BufferModel, params: Seq<Option<u16>>, private_marker: bool, fin: u8)
    requires
        b.wf(),
        fin == 0x41 || fin == 0x42 || fin == 0x43 || fin == 0x44 || fin == 0x45 || fin == 0x46
            || fin == 0x47 || fin == 0x48 || fin == 0x66 || fin == 0x64,
    ensures
        dispatch(b, params, private_marker, fin).cursor_x < dispatch(b, params, private_marker, fin).cols,
        dispatch(b, params, private_marker, fin).cursor_y < dispatch(b, params, private_marker, fin).rows,
{
}

proof fn lemma_step_esc(t: (BufferModel, InterpModel))
    requires
        t.1.wf(),
    ensures
        step(t, 0x1Bu8).1.state == ParseState::Escape,
        step(t, 0x1Bu8).1.utf8_remaining == 0,
        step(t, 0x1Bu8).1.wf(),
        t.1.utf8_remaining == 0 ==> step(t, 0x1Bu8).0 == t.0,
{
    reveal(step);
}

proof fn lemma_step_open_csi(t: (BufferModel, InterpModel))
    requires
        t.1.state == ParseState::Escape,
    ensures
        step(t, 0x5Bu8) == (t.0, t.1.fresh_csi()),
{
    reveal(step);
}

proof fn lemma_step_digit(t: (BufferModel, InterpModel), byte: u8)
    requires
        t.1.state == ParseState::Csi,
        0x30 <= byte <= 0x39,
    ensures
        step(t, byte) == (t.0, t.1.digit((byte - 0x30) as nat)),
{
    reveal(step);
}

proof fn lemma_step_private(t: (BufferModel, InterpModel))
    requires
        t.1.state == ParseState::Csi,
    ensures
        step(t, 0x3Fu8) == (t.0, InterpModel { private_marker: true, ..t.1 }),
{
    reveal(step);
}

proof fn lemma_step_final(t: (BufferModel, InterpModel), byte: u8)
    requires
        t.1.state == ParseState::Csi,
        0x40 <= byte <= 0x7E,
    ensures
        step(t, byte) == (
            dispatch(t.0, t.1.final_params(), t.1.private_marker, byte),
            t.1.finish().goto(ParseState::Ground),
        ),
{
    reveal(step);
}

proof fn lemma_step_print(t: (BufferModel, InterpModel), byte: u8)
    requires
        t.1.state == ParseState::Ground,
        t.1.utf8_remaining == 0,
        0x20 <= byte < 0x7F,
    ensures
        step(t, byte) == (t.0.write_char(byte as char), t.1),
{
    reveal(step);
}

/// Bytes of `ESC [ 2 J`.
pub open spec fn erase_display_bytes() -> Seq<u8> {
    seq![0x1Bu8, 0x5Bu8, 0x32u8, 0x4Au8]
}

/// `ESC [ 2 J` leaves every cell of the screen at the default cell,
/// whatever the state before.
pub proof fn lemma_erase_display(t: (BufferModel, InterpModel))
    requires
        t.0.wf(),
        t.1.wf(),
    ensures
        ({
            let r = feed(t, erase_display_bytes());
            forall|y: int, x: int| 0 <= y < r.0.rows && 0 <= x < r.0.cols ==> r.0.screen[y][x] == blank_cell()
        }),
{
    let s0 = Seq::<u8>::empty();
    lemma_feed_push(t, s0, 0x1B);
    lemma_feed_push(t, s0.push(0x1B), 0x5B);
    lemma_feed_push(t, s0.push(0x1B).push(0x5B), 0x32);
    lemma_feed_push(t, s0.push(0x1B).push(0x5B).push(0x32), 0x4A);
    assert(erase_display_bytes() =~= s0.push(0x1B).push(0x5B).push(0x32).push(0x4A));
    lemma_step_esc(t);
    let t1 = step(t, 0x1B);
    lemma_step_open_csi(t1);
    let t2 = step(t1, 0x5B);
    lemma_step_digit(t2, 0x32);
    let t3 = step(t2, 0x32);
    assert(t3.1.final_params() =~= seq![Some(2u16)]);
    lemma_step_final(t3, 0x4A);
    let r = step(t3, 0x4A);
    assert(r.0.screen == crate::model::blank_grid(r.0.cols, r.0.rows));
}

/// Bytes of `ESC [ 0 m`.
pub open spec fn sgr_reset_bytes() -> Seq<u8> {
    seq![0x1Bu8, 0x5Bu8, 0x30u8, 0x6Du8]
}

/// `ESC [ 0 m` turns every attribute off and gives the pen its default
/// colors, whatever codes came before.
pub proof fn lemma_sgr_reset(t: (BufferModel, InterpModel))
    requires
        t.0.wf(),
        t.1.wf(),
    ensures
        feed(t, sgr_reset_bytes()).0.attrs == plain_attrs(),
        feed(t, sgr_reset_bytes()).0.fg == default_fg(),
        feed(t, sgr_reset_bytes()).0.bg == default_bg(),
{
    let s0 = Seq::<u8>::empty();
    lemma_feed_push(t, s0, 0x1B);
    lemma_feed_push(t, s0.push(0x1B), 0x5B);
    lemma_feed_push(t, s0.push(0x1B).push(0x5B), 0x30);
    lemma_feed_push(t, s0.push(0x1B).push(0x5B).push(0x30), 0x6D);
    assert(sgr_reset_bytes() =~= s0.push(0x1B).push(0x5B).push(0x30).push(0x6D));
    lemma_step_esc(t);
    let t1 = step(t, 0x1B);
    lemma_step_open_csi(t1);
    let t2 = step(t1, 0x5B);
    lemma_step_digit(t2, 0x30);
    let t3 = step(t2, 0x30);
    let ps = t3.1.final_params();
    assert(ps =~= seq![Some(0u16)]);
    assert(crate::sgr::sgr_from(t3.0, ps, 0) == crate::sgr::sgr_from(t3.0.reset_attrs(), ps, 1));
    assert(crate::sgr::sgr_from(t3.0.reset_attrs(), ps, 1) == t3.0.reset_attrs());
    assert(dispatch(t3.0, ps, t3.1.private_marker, 0x6D) == crate::sgr::sgr(t3.0, ps));
    lemma_step_final(t3, 0x6D);
}

/// Bytes of `ESC [ 3 1 m X`.
pub open spec fn red_x_bytes() -> Seq<u8> {
    seq![0x1Bu8, 0x5Bu8, 0x33u8, 0x31u8, 0x6Du8, 0x58u8]
}

/// `ESC [ 31 m X` puts a red `X` at the cursor, when no wrap is pending and
/// no UTF-8 sequence is under way; the cursor then advances, or stays on the
/// last column with a wrap pending.
pub proof fn lemma_red_x(t: (BufferModel, InterpModel))
    requires
        t.0.wf(),
        t.1.wf(),
        t.1.utf8_remaining == 0,
        !t.0.wrap_pending,
    ensures
        ({
            let r = feed(t, red_x_bytes()).0;
            &&& r.screen[t.0.cursor_y as int][t.0.cursor_x as int].character == 'X'
            &&& r.screen[t.0.cursor_y as int][t.0.cursor_x as int].fg == spec_ansi_color(1)
            &&& r.cursor_x == if t.0.cursor_x + 1 < t.0.cols { (t.0.cursor_x + 1) as int } else { t.0.cursor_x as int }
            &&& r.wrap_pending == (t.0.cursor_x + 1 == t.0.cols)
            &&& r.cursor_y == t.0.cursor_y
        }),
{
    let s0 = Seq::<u8>::empty();
    let s1 = s0.push(0x1B);
    let s2 = s1.push(0x5B);
    let s3 = s2.push(0x33);
    let s4 = s3.push(0x31);
    let s5 = s4.push(0x6D);
    let s6 = s5.push(0x58);
    lemma_feed_push(t, s0, 0x1B);
    lemma_feed_push(t, s1, 0x5B);
    lemma_feed_push(t, s2, 0x33);
    lemma_feed_push(t, s3, 0x31);
    lemma_feed_push(t, s4, 0x6D);
    lemma_feed_push(t, s5, 0x58);
    assert(red_x_bytes() =~= s6);
    lemma_step_esc(t);
    let t1 = step(t, 0x1B);
    lemma_step_open_csi(t1);
    let t2 = step(t1, 0x5B);
    lemma_step_digit(t2, 0x33);
    let t3 = step(t2, 0x33);
    lemma_step_digit(t3, 0x31);
    let t4 = step(t3, 0x31);
    assert(t4.1.current == 31);
    let ps = t4.1.final_params();
    assert(ps =~= seq![Some(31u16)]);
    lemma_step_final(t4, 0x6D);
    let t5 = step(t4, 0x6D);
    assert(crate::sgr::sgr_from(t4.0, ps, 0) == crate::sgr::sgr_from(crate::sgr::sgr_code(t4.0, 31), ps, 1));
    assert(crate::sgr::sgr_from(crate::sgr::sgr_code(t4.0, 31), ps, 1) == crate::sgr::sgr_code(t4.0, 31));
    assert(dispatch(t4.0, ps, t4.1.private_marker, 0x6D) == crate::sgr::sgr(t4.0, ps));
    assert(t5.0.fg == spec_ansi_color(1));
    assert(t5.0.cursor_x == t.0.cursor_x && t5.0.cursor_y == t.0.cursor_y);
    assert(!t5.0.wrap_pending);
    lemma_step_print(t5, 0x58);
    lemma_print_in_row(t5.0, 'X');
}

/// Bytes of `ESC [ ? 1 0 4 9 h` and of `ESC [ ? 1 0 4 9 l`.
pub open spec fn alt_screen_bytes(enable: bool) -> Seq<u8> {
    seq![0x1Bu8, 0x5Bu8, 0x3Fu8, 0x31u8, 0x30u8, 0x34u8, 0x39u8, if enable { 0x68u8 } else { 0x6Cu8 }]
}

/// Bytes of `ESC [ ? 1 0 4 9`.
pub open spec fn alt_screen_prefix() -> Seq<u8> {
    seq![0x1Bu8, 0x5Bu8, 0x3Fu8, 0x31u8, 0x30u8, 0x34u8, 0x39u8]
}

proof fn lemma_alt_prefix(t: (BufferModel, InterpModel))
    requires
        t.0.wf(),
        t.1.wf(),
        t.1.utf8_remaining == 0,
    ensures
        ({
            let r = feed(t, alt_screen_prefix());
            &&& r.0 == t.0
            &&& r.1.wf()
            &&& r.1.state == ParseState::Csi
            &&& r.1.params.len() == 0
            &&& r.1.current == 1049
            &&& r.1.has_digits
            &&& r.1.private_marker
            &&& r.1.utf8_remaining == 0
        }),
{
    let s0 = Seq::<u8>::empty();
    let s1 = s0.push(0x1B);
    let s2 = s1.push(0x5B);
    let s3 = s2.push(0x3F);
    let s4 = s3.push(0x31);
    let s5 = s4.push(0x30);
    let s6 = s5.push(0x34);
    let s7 = s6.push(0x39);
    lemma_feed_push(t, s0, 0x1B);
    lemma_feed_push(t, s1, 0x5B);
    lemma_feed_push(t, s2, 0x3F);
    lemma_feed_push(t, s3, 0x31);
    lemma_feed_push(t, s4, 0x30);
    lemma_feed_push(t, s5, 0x34);
    lemma_feed_push(t, s6, 0x39);
    assert(alt_screen_prefix() =~= s7);
    lemma_step_esc(t);
    let t1 = step(t, 0x1B);
    assert(t1.0 == t.0);
    lemma_step_open_csi(t1);
    let t2 = step(t1, 0x5B);
    assert(t2.0 == t.0 && t2.1.state == ParseState::Csi && t2.1.params.len() == 0 && t2.1.current == 0);
    lemma_step_private(t2);
    let t3 = step(t2, 0x3F);
    assert(t3.0 == t.0 && t3.1.state == ParseState::Csi && t3.1.private_marker && !t3.1.in_subparam);
    lemma_step_digit(t3, 0x31);
    let t4 = step(t3, 0x31);
    assert(t4.0 == t.0 && t4.1.current == 1 && t4.1.state == ParseState::Csi);
    lemma_step_digit(t4, 0x30);
    let t5 = step(t4, 0x30);
    assert(t5.0 == t.0 && t5.1.current == 10 && t5.1.state == ParseState::Csi);
    lemma_step_digit(t5, 0x34);
    let t6 = step(t5, 0x34);
    assert(t6.0 == t.0 && t6.1.current == 104 && t6.1.state == ParseState::Csi);
    lemma_step_digit(t6, 0x39);
    let t7 = step(t6, 0x39);
    assert(t7.0 == t.0 && t7.1.current == 1049 && t7.1.state == ParseState::Csi);
}

proof fn lemma_feed_alt(t: (BufferModel, InterpModel), enable: bool)
    requires
        t.0.wf(),
        t.1.wf(),
        t.1.utf8_remaining == 0,
    ensures
        feed(t, alt_screen_bytes(enable)).0 == crate::interp::mode(t.0, true, Some(1049u16), enable),
        feed(t, alt_screen_bytes(enable)).1.utf8_remaining == 0,
        feed(t, alt_screen_bytes(enable)).1.wf(),
{
    let f = if enable { 0x68u8 } else { 0x6Cu8 };
    lemma_alt_prefix(t);
    lemma_feed_push(t, alt_screen_prefix(), f);
    assert(alt_screen_bytes(enable) =~= alt_screen_prefix().push(f));
    let t7 = feed(t, alt_screen_prefix());
    let ps = t7.1.final_params();
    assert(ps =~= seq![Some(1049u16)]);
    let b1 = crate::interp::mode(t7.0, true, ps[0], enable);
    assert(crate::interp::modes_from(b1, ps, true, enable, 1) == b1);
    assert(crate::interp::modes_from(t7.0, ps, true, enable, 0) == b1);
    assert(dispatch(t7.0, ps, true, f) == crate::interp::modes_from(t7.0, ps, true, enable, 0));
    lemma_step_final(t7, f);
}

/// `ESC [ ? 1049 h` followed by `ESC [ ? 1049 l` brings back the exact
/// primary grid and cursor position, when the primary screen was shown and
/// no UTF-8 sequence was under way.
pub proof fn lemma_alt_screen_round_trip(t: (BufferModel, InterpModel))
    requires
        t.0.wf(),
        t.1.wf(),
        t.1.utf8_remaining == 0,
        t.0.alternate is None,
    ensures
        ({
            let r = feed(feed(t, alt_screen_bytes(true)), alt_screen_bytes(false)).0;
            &&& r.screen == t.0.screen
            &&& r.cursor_x == t.0.cursor_x
            &&& r.cursor_y == t.0.cursor_y
            &&& r.alternate is None
            &&& r.scrollback == t.0.scrollback
        }),
{
    lemma_feed_alt(t, true);
    let m = feed(t, alt_screen_bytes(true));
    assert(m.0.wf());
    lemma_feed_alt(m, false);
}

/// A line feed on the bottom row of a scroll region that starts at the top
/// of the screen moves exactly one row into the scrollback, while there is
/// room for it.
pub proof fn lemma_newline_at_bottom(m: BufferModel)
    requires
        m.wf(),
        m.scroll_top == 0,
        m.cursor_y == m.scroll_bottom,
        m.scrollback.len() < m.max_scrollback,
    ensures
        m.write_char('\n').scrollback == m.scrollback.push(m.screen[0]),
        m.write_char('\n').scrollback.len() == m.scrollback.len() + 1,
        m.write_char('\n').cursor_x == m.cursor_x,
        m.write_char('\n').cursor_y == m.cursor_y,
{
    assert(m.scroll_up(0) == m);
}

/// The rows that `n` lines of upward scroll move out of the top of the
/// screen, in order; none when the scroll region does not start at the top.
pub open spec fn scrolled_out(m: BufferModel, n: nat) -> Seq<Seq<Cell>>
    decreases n,
{
    if n == 0 || m.scroll_top != 0 {
        Seq::empty()
    } else {
        scrolled_out(m, (n - 1) as nat).push(m.scroll_up((n - 1) as nat).screen[0])
    }
}

/// The last `k` rows of `s` (all of them when there are fewer).
pub open spec fn last_rows(s: Seq<Seq<Cell>>, k: nat) -> Seq<Seq<Cell>> {
    if s.len() > k {
        s.skip(s.len() - k)
    } else {
        s
    }
}

/// After `n` lines of upward scroll the scrollback holds the newest rows of
/// the old scrollback followed by the rows scrolled out, up to its capacity:
/// the oldest rows are evicted first.
pub proof fn lemma_scrollback_fifo(m: BufferModel, n: nat)
    requires
        m.wf(),
    ensures
        m.scroll_up(n).scrollback == last_rows(m.scrollback + scrolled_out(m, n), m.max_scrollback),
    decreases n,
{
    if n == 0 {
        assert(m.scrollback + Seq::<Seq<Cell>>::empty() =~= m.scrollback);
    } else {
        lemma_scrollback_fifo(m, (n - 1) as nat);
        crate::model::lemma_scroll_up_frame(m, (n - 1) as nat);
        let p = m.scroll_up((n - 1) as nat);
        let a = m.scrollback + scrolled_out(m, (n - 1) as nat);
        let k = m.max_scrollback;
        if m.scroll_top == 0 {
            let r = p.screen[0];
            assert(m.scrollback + scrolled_out(m, n) =~= a.push(r));
            if a.len() > k {
                assert(a.skip(a.len() - k).push(r).drop_first() =~= a.push(r).skip(a.push(r).len() - k));
            } else if a.len() == k {
                assert(a.push(r).drop_first() =~= a.push(r).skip(a.push(r).len() - k));
            }
        } else {
            assert(m.scrollback + Seq::<Seq<Cell>>::empty() =~= m.scrollback);
        }
    }
}

/// However many lines scroll, the scrollback never holds more than its
/// capacity.
pub proof fn lemma_scrollback_bounded(m: BufferModel, n: nat)
    requires
        m.wf(),
    ensures
        m.scroll_up(n).scrollback.len() <= m.max_scrollback,
{
    lemma_scroll_up_wf(m, n);
    crate::model::lemma_scroll_up_frame(m, n);
}

/// Characters that `write_char` writes rather than acting on.
pub open spec fn is_printable(c: char) -> bool {
    c != '\n' && c != '\r' && c != '\x08' && c != '\t' && c != '\x07'
}

proof fn lemma_print_in_row(m: BufferModel, c: char)
    requires
        m.wf(),
        !m.wrap_pending,
    ensures
        m.print(c).wf(),
        m.print(c) == (BufferModel {
            screen: m.print(c).screen,
            cursor_x: if m.cursor_x + 1 < m.cols { (m.cursor_x + 1) as nat } else { m.cursor_x },
            wrap_pending: m.cursor_x + 1 >= m.cols,
            ..m
        }),
        m.print(c).screen[m.cursor_y as int][m.cursor_x as int] == m.pen_cell(c),
        !m.insert_mode ==> m.print(c).screen == m.screen.update(
            m.cursor_y as int,
            m.cursor_row().update(m.cursor_x as int, m.pen_cell(c)),
        ),
{
    let m2 = if m.insert_mode {
        m.insert_blank(1)
    } else {
        m
    };
    if m.insert_mode {
        lemma_insert_blank_frame(m, 1);
    }
    assert(m2 == m.with_screen(m2.screen));
    crate::model::lemma_put_char_wf(m2, c);
}

/// Row `y` of `m` with its first `k` cells written from `s` with the pen.
pub open spec fn filled_row(m: BufferModel, s: Seq<char>, k: int) -> Seq<Cell> {
    Seq::new(m.cols, |i: int| if i < k { m.pen_cell(s[i]) } else { m.cursor_row()[i] })
}

proof fn lemma_fill_row(m: BufferModel, s: Seq<char>, k: nat)
    requires
        m.wf(),
        m.cursor_x == 0,
        !m.wrap_pending,
        k <= s.len(),
        k <= m.cols,
        forall|i: int| 0 <= i < s.len() ==> is_printable(#[trigger] s[i]),
    ensures
        m.write_str(s.take(k as int)).wf(),
        m.write_str(s.take(k as int)) == (BufferModel {
            screen: m.write_str(s.take(k as int)).screen,
            cursor_x: if k < m.cols { k } else { (m.cols - 1) as nat },
            wrap_pending: k == m.cols,
            ..m
        }),
        !m.insert_mode ==> m.write_str(s.take(k as int)).screen == m.screen.update(
            m.cursor_y as int,
            filled_row(m, s, k as int),
        ),
    decreases k,
{
    if k == 0 {
        assert(s.take(0) =~= Seq::<char>::empty());
        assert(m.screen[m.cursor_y as int].len() == m.cols);
        assert(filled_row(m, s, 0) =~= m.cursor_row());
        assert(m.screen.update(m.cursor_y as int, filled_row(m, s, 0)) =~= m.screen);
    } else {
        lemma_fill_row(m, s, (k - 1) as nat);
        assert(s.take(k as int).drop_last() =~= s.take(k - 1));
        let w = m.write_str(s.take(k - 1));
        let c = s[k - 1];
        assert(is_printable(c));
        lemma_print_in_row(w, c);
        if !m.insert_mode {
            assert(filled_row(m, s, k - 1).update(k - 1, m.pen_cell(c)) =~= filled_row(m, s, k as int));
            assert(w.screen.update(m.cursor_y as int, filled_row(m, s, k as int)) =~= m.screen.update(
                m.cursor_y as int,
                filled_row(m, s, k as int),
            ));
        }
    }
}

/// With auto-wrap on, a row of printable characters written from column 0
/// fills the row, and the character after it lands at column 0 of the next
/// row, the rest of the screen unchanged; when the row was the scroll
/// region's bottom (or below it) the region scrolls exactly once and that
/// character lands at column 0 of the same row.
pub proof fn lemma_wrap_after_full_row(m: BufferModel, s: Seq<char>)
    requires
        m.wf(),
        m.auto_wrap,
        m.cursor_x == 0,
        !m.wrap_pending,
        s.len() == m.cols + 1,
        forall|i: int| 0 <= i < s.len() ==> is_printable(#[trigger] s[i]),
    ensures
        ({
            let r = m.write_str(s);
            let y = m.cursor_y;
            &&& r.cursor_x == if m.cols > 1 { 1int } else { 0int }
            &&& if y < m.scroll_bottom {
                &&& r.cursor_y == y + 1
                &&& r.screen[(y + 1) as int][0] == m.pen_cell(s.last())
                &&& r.scrollback == m.scrollback
                &&& !m.insert_mode ==> {
                    &&& r.screen[y as int] == Seq::new(m.cols, |i: int| m.pen_cell(s[i]))
                    &&& r.screen[(y + 1) as int] == m.screen[(y + 1) as int].update(0, m.pen_cell(s.last()))
                    &&& forall|j: int| 0 <= j < m.rows && j != y && j != y + 1 ==> r.screen[j] == m.screen[j]
                }
            } else {
                &&& r.cursor_y == y
                &&& r.screen[y as int][0] == m.pen_cell(s.last())
                &&& r.scrollback.len() == if m.scroll_top == 0 {
                    crate::model::min((m.scrollback.len() + 1) as int, m.max_scrollback as int)
                } else {
                    m.scrollback.len() as int
                }
            }
        }),
{
    lemma_fill_row(m, s, m.cols);
    assert(s.drop_last() =~= s.take(m.cols as int));
    let w = m.write_str(s.take(m.cols as int));
    let c = s.last();
    assert(is_printable(s[s.len() - 1]));
    let w1 = w.carriage_return();
    crate::model::lemma_newline_frame(w1);
    crate::model::lemma_scroll_up_frame(w1, 1);
    assert(w1.scroll_up(0) == w1);
    let w2 = w1.newline();
    lemma_print_in_row(w2, c);
    assert(w2.print(c) == w.print(c));
    if !m.insert_mode {
        assert(filled_row(m, s, m.cols as int) =~= Seq::new(m.cols, |i: int| m.pen_cell(s[i])));
    }
}

} // verus!
