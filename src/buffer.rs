//! The screen buffer: the live grid, its scrollback, the cursor, the scroll
//! region, the alternate screen and the pen.

use vstd::prelude::*;
use crate::cell::{Cell, CellAttributes, blank_cell};
use crate::color::{Color, TerminalSize, ansi_color};
use crate::model::{
    BufferModel, SavedModel, blank_row, blank_grid, clear_range, resized_grid, evict, min, max,
    lemma_scroll_up_one_wf, lemma_scroll_down_one_wf, lemma_grid_update, lemma_insert_blank_frame,
    lemma_insert_lines_frame, lemma_delete_lines_frame, lemma_grid_remove_insert, lemma_newline_frame, lemma_put_char_wf,
    lemma_resize_wf,
};

verus! {

/// The abstract value of a vector of rows.
pub open spec fn rows_view(v: Seq<Vec<Cell>>) -> Seq<Seq<Cell>> {
    Seq::new(v.len(), |i: int| v[i]@)
}

proof fn lemma_rows_view_remove(v: Seq<Vec<Cell>>, i: int)
    requires
        0 <= i < v.len(),
    ensures
        rows_view(v.remove(i)) == rows_view(v).remove(i),
{
    assert(rows_view(v.remove(i)) =~= rows_view(v).remove(i));
}

proof fn lemma_rows_view_insert(v: Seq<Vec<Cell>>, i: int, r: Vec<Cell>)
    requires
        0 <= i <= v.len(),
    ensures
        rows_view(v.insert(i, r)) == rows_view(v).insert(i, r@),
{
    assert(rows_view(v.insert(i, r)) =~= rows_view(v).insert(i, r@));
}

proof fn lemma_rows_view_push(v: Seq<Vec<Cell>>, r: Vec<Cell>)
    ensures
        rows_view(v.push(r)) == rows_view(v).push(r@),
{
    assert(rows_view(v.push(r)) =~= rows_view(v).push(r@));
}

proof fn lemma_rows_view_update(v: Seq<Vec<Cell>>, i: int, r: Vec<Cell>)
    requires
        0 <= i < v.len(),
    ensures
        rows_view(v.update(i, r)) == rows_view(v).update(i, r@),
{
    assert(rows_view(v.update(i, r)) =~= rows_view(v).update(i, r@));
}

proof fn lemma_rows_view_drop_first(v: Seq<Vec<Cell>>)
    requires
        v.len() > 0,
    ensures
        rows_view(v.remove(0)) == rows_view(v).drop_first(),
{
    assert(rows_view(v.remove(0)) =~= rows_view(v).drop_first());
}

/// The primary screen put aside while the alternate screen is shown.
pub struct SavedScreen {
    grid: Vec<Vec<Cell>>,
    cursor_x: usize,
    cursor_y: usize,
}

impl View for SavedScreen {
    type V = SavedModel;

    closed spec fn view(&self) -> SavedModel {
        SavedModel {
            grid: rows_view(self.grid@),
            cursor_x: self.cursor_x as nat,
            cursor_y: self.cursor_y as nat,
        }
    }
}

/// Terminal buffer with scrollback.
pub struct TerminalBuffer {
    screen: Vec<Vec<Cell>>,
    scrollback: Vec<Vec<Cell>>,
    max_scrollback: usize,
    size: TerminalSize,
    cursor_x: usize,
    cursor_y: usize,
    saved_cursor_x: usize,
    saved_cursor_y: usize,
    current_attrs: CellAttributes,
    current_fg: Color,
    current_bg: Color,
    scroll_top: usize,
    scroll_bottom: usize,
    alternate: Option<SavedScreen>,
    origin_mode: bool,
    auto_wrap: bool,
    insert_mode: bool,
    wrap_pending: bool,
}

impl View for TerminalBuffer {
    type V = BufferModel;

    closed spec fn view(&self) -> BufferModel {
        BufferModel {
            screen: rows_view(self.screen@),
            scrollback: rows_view(self.scrollback@),
            max_scrollback: self.max_scrollback as nat,
            cols: self.size.cols as nat,
            rows: self.size.rows as nat,
            cursor_x: self.cursor_x as nat,
            cursor_y: self.cursor_y as nat,
            saved_x: self.saved_cursor_x as nat,
            saved_y: self.saved_cursor_y as nat,
            attrs: self.current_attrs,
            fg: self.current_fg,
            bg: self.current_bg,
            scroll_top: self.scroll_top as nat,
            scroll_bottom: self.scroll_bottom as nat,
            alternate: match self.alternate {
                Some(s) => Some(s@),
                None => None,
            },
            origin_mode: self.origin_mode,
            auto_wrap: self.auto_wrap,
            insert_mode: self.insert_mode,
            wrap_pending: self.wrap_pending,
        }
    }
}

/// A row of `cols` default cells.
fn blank_row_vec(cols: usize) -> (r: Vec<Cell>)
    ensures
        r@ == blank_row(cols as nat),
{
    let mut r: Vec<Cell> = Vec::new();
    let mut i: usize = 0;
    while i < cols
        invariant
            i <= cols,
            r@ == blank_row(i as nat),
        decreases cols - i,
    {
        r.push(Cell::default());
        i += 1;
        assert(r@ =~= blank_row(i as nat));
    }
    r
}

impl TerminalBuffer {
    pub open spec fn wf(&self) -> bool {
        self@.wf()
    }

    /// A buffer of the given size (a zero dimension counts as one), blank,
    /// with the cursor home and the default pen.
    pub fn new(cols: u16, rows: u16, max_scrollback: usize) -> (b: TerminalBuffer)
        ensures
            b.wf(),
            b@ == BufferModel::initial(cols as nat, rows as nat, max_scrollback as nat),
    {
        let cols = if cols == 0 { 1 } else { cols };
        let rows = if rows == 0 { 1 } else { rows };
        let screen = Self::create_empty_screen(cols as usize, rows as usize);
        let limit = usize::MAX - 65535;
        let max_scrollback = if max_scrollback < limit { max_scrollback } else { limit };
        let b = TerminalBuffer {
            screen,
            scrollback: Vec::new(),
            max_scrollback,
            size: TerminalSize { cols, rows },
            cursor_x: 0,
            cursor_y: 0,
            saved_cursor_x: 0,
            saved_cursor_y: 0,
            current_attrs: CellAttributes::default(),
            current_fg: ansi_color(7),
            current_bg: ansi_color(0),
            scroll_top: 0,
            scroll_bottom: rows as usize - 1,
            alternate: None,
            origin_mode: false,
            auto_wrap: true,
            insert_mode: false,
            wrap_pending: false,
        };
        assert(rows_view(Seq::<Vec<Cell>>::empty()) =~= Seq::empty());
        assert(b@ =~= BufferModel::initial(cols as nat, rows as nat, max_scrollback as nat));
        b
    }

    fn create_empty_screen(cols: usize, rows: usize) -> (g: Vec<Vec<Cell>>)
        ensures
            rows_view(g@) == blank_grid(cols as nat, rows as nat),
    {
        let mut g: Vec<Vec<Cell>> = Vec::new();
        let mut i: usize = 0;
        while i < rows
            invariant
                i <= rows,
                rows_view(g@) == blank_grid(cols as nat, i as nat),
            decreases rows - i,
        {
            let r = blank_row_vec(cols);
            proof {
                lemma_rows_view_push(g@, r);
            }
            g.push(r);
            i += 1;
            assert(rows_view(g@) =~= blank_grid(cols as nat, i as nat));
        }
        g
    }

    pub fn size(&self) -> (s: TerminalSize)
        ensures
            s.cols == self@.cols,
            s.rows == self@.rows,
    {
        self.size
    }

    pub fn cursor_position(&self) -> (p: (usize, usize))
        ensures
            p.0 == self@.cursor_x,
            p.1 == self@.cursor_y,
    {
        (self.cursor_x, self.cursor_y)
    }

    /// The cell at column `x` of row `y`, if it is on the screen.
    pub fn get_cell(&self, x: usize, y: usize) -> (c: Option<&Cell>)
        requires
            self.wf(),
        ensures
            match c {
                Some(cell) => x < self@.cols && y < self@.rows && *cell == self@.screen[y as int][x as int],
                None => !(x < self@.cols && y < self@.rows),
            },
    {
        if y < self.screen.len() {
            let row = &self.screen[y];
            assert(row@ == self@.screen[y as int]);
            if x < row.len() {
                return Some(&row[x]);
            }
        }
        None
    }

    /// Row `y` of the screen, if there is one.
    pub fn get_row(&self, y: usize) -> (r: Option<&Vec<Cell>>)
        requires
            self.wf(),
        ensures
            match r {
                Some(row) => y < self@.rows && row@ == self@.screen[y as int],
                None => y >= self@.rows,
            },
    {
        if y < self.screen.len() {
            Some(&self.screen[y])
        } else {
            None
        }
    }

    pub fn scrollback_len(&self) -> (n: usize)
        ensures
            n == self@.scrollback.len(),
    {
        self.scrollback.len()
    }

    /// Scrollback row `index`, oldest first, if there is one.
    pub fn get_scrollback_row(&self, index: usize) -> (r: Option<&Vec<Cell>>)
        ensures
            match r {
                Some(row) => index < self@.scrollback.len() && row@ == self@.scrollback[index as int],
                None => index >= self@.scrollback.len(),
            },
    {
        if index < self.scrollback.len() {
            Some(&self.scrollback[index])
        } else {
            None
        }
    }

    /// Moves the cursor to column `x`, row `y` (relative to the scroll region
    /// in origin mode), clamped so that it lands on the screen.
    pub fn set_cursor(&mut self, x: usize, y: usize)
        requires
            old(self).wf(),
        ensures
            final(self).wf(),
            final(self)@ == old(self)@.set_cursor(x as int, y as int),
            final(self)@.cursor_x < final(self)@.cols,
            final(self)@.cursor_y < final(self)@.rows,
    {
        let max_x = self.size.cols as usize - 1;
        let max_y = self.size.rows as usize - 1;
        self.cursor_x = if x < max_x { x } else { max_x };
        self.wrap_pending = false;
        if self.origin_mode {
            let height = self.scroll_bottom - self.scroll_top;
            self.cursor_y = if y < height { y + self.scroll_top } else { self.scroll_bottom };
        } else {
            self.cursor_y = if y < max_y { y } else { max_y };
        }
    }

    /// Moves the cursor by `dx` columns and `dy` rows, clamped to the screen
    /// (to the scroll region's rows in origin mode).
    pub fn move_cursor(&mut self, dx: isize, dy: isize)
        requires
            old(self).wf(),
        ensures
            final(self).wf(),
            final(self)@ == old(self)@.move_cursor(dx as int, dy as int),
            final(self)@.cursor_x < final(self)@.cols,
            final(self)@.cursor_y < final(self)@.rows,
    {
        let max_x = self.size.cols as usize - 1;
        let x = offset_clamped(self.cursor_x, dx, 0, max_x);
        let y = if self.origin_mode {
            offset_clamped(self.cursor_y, dy, self.scroll_top, self.scroll_bottom)
        } else {
            offset_clamped(self.cursor_y, dy, 0, self.size.rows as usize - 1)
        };
        self.cursor_x = x;
        self.cursor_y = y;
        self.wrap_pending = false;
    }
    fn scroll_up_one(&mut self)
        requires
            old(self).wf(),
        ensures
            final(self).wf(),
            final(self)@ == old(self)@.scroll_up_one(),
    {
        let top = self.scroll_top;
        let ghost sc0 = self.screen@;
        proof {
            lemma_rows_view_remove(sc0, top as int);
            lemma_scroll_up_one_wf(self@);
        }
        let row = self.screen.remove(top);
        if top == 0 {
            push_scrollback(&mut self.scrollback, row, self.max_scrollback);
        }
        let blank = blank_row_vec(self.size.cols as usize);
        let ghost sc1 = self.screen@;
        proof {
            lemma_rows_view_insert(sc1, self.scroll_bottom as int, blank);
        }
        self.screen.insert(self.scroll_bottom, blank);
    }

    /// Scrolls the scroll region up by `n` lines (see `BufferModel::scroll_up_one`).
    pub fn scroll_up(&mut self, n: usize)
        requires
            old(self).wf(),
        ensures
            final(self).wf(),
            final(self)@ == old(self)@.scroll_up(n as nat),
    {
        let ghost m0 = self@;
        let mut i: usize = 0;
        while i < n
            invariant
                i <= n,
                self.wf(),
                self@ == m0.scroll_up(i as nat),
            decreases n - i,
        {
            self.scroll_up_one();
            i += 1;
        }
    }

    fn scroll_down_one(&mut self)
        requires
            old(self).wf(),
        ensures
            final(self).wf(),
            final(self)@ == old(self)@.scroll_down_one(),
    {
        let ghost sc0 = self.screen@;
        proof {
            lemma_rows_view_remove(sc0, self.scroll_bottom as int);
        }
        self.screen.remove(self.scroll_bottom);
        let blank = blank_row_vec(self.size.cols as usize);
        let ghost sc1 = self.screen@;
        proof {
            lemma_rows_view_insert(sc1, self.scroll_top as int, blank);
        }
        self.screen.insert(self.scroll_top, blank);
        proof {
            lemma_scroll_down_one_wf(old(self)@);
        }
    }

    /// Scrolls the scroll region down by `n` lines; default rows enter at its top.
    pub fn scroll_down(&mut self, n: usize)
        requires
            old(self).wf(),
        ensures
            final(self).wf(),
            final(self)@ == old(self)@.scroll_down(n as nat),
    {
        let ghost m0 = self@;
        let mut i: usize = 0;
        while i < n
            invariant
                i <= n,
                self.wf(),
                self@ == m0.scroll_down(i as nat),
            decreases n - i,
        {
            self.scroll_down_one();
            i += 1;
        }
    }

    fn newline(&mut self)
        requires
            old(self).wf(),
        ensures
            final(self).wf(),
            final(self)@ == old(self)@.newline(),
    {
        if self.cursor_y >= self.scroll_bottom {
            self.scroll_up(1);
        } else {
            self.cursor_y += 1;
        }
    }

    fn backspace(&mut self)
        requires
            old(self).wf(),
        ensures
            final(self).wf(),
            final(self)@ == old(self)@.backspace(),
    {
        if self.wrap_pending {
            self.wrap_pending = false;
        } else if self.cursor_x > 0 {
            self.cursor_x -= 1;
        }
    }

    fn tab(&mut self)
        requires
            old(self).wf(),
        ensures
            final(self).wf(),
            final(self)@ == old(self)@.tab(),
    {
        let next_tab = (self.cursor_x / 8 + 1) * 8;
        let last = self.size.cols as usize - 1;
        self.cursor_x = if next_tab < last { next_tab } else { last };
        self.wrap_pending = false;
    }
    fn insert_blank_one(&mut self)
        requires
            old(self).wf(),
        ensures
            final(self).wf(),
            final(self)@ == old(self)@.insert_blank_one(),
    {
        if self.cursor_x < self.size.cols as usize {
            let x = self.cursor_x;
            let y = self.cursor_y;
            let ghost sc = self.screen@;
            self.screen[y].insert(x, Cell::default());
            self.screen[y].pop();
            proof {
                lemma_rows_view_update(sc, y as int, self.screen@[y as int]);
                assert(self.screen@ == sc.update(y as int, self.screen@[y as int]));
                let m = old(self)@;
                lemma_grid_update(m.screen, m.cols, m.rows, y as int, self.screen@[y as int]@);
            }
        }
    }
    /// Inserts `count` default cells at the cursor, shifting the rest of the
    /// row right; cells pushed past the last column are lost.
    pub fn insert_blank(&mut self, count: usize)
        requires
            old(self).wf(),
        ensures
            final(self).wf(),
            final(self)@ == old(self)@.insert_blank(count as nat),
    {
        let ghost m0 = self@;
        let mut i: usize = 0;
        while i < count
            invariant
                i <= count,
                m0.wf(),
                self.wf(),
                self@ == m0.insert_blank(i as nat),
            decreases count - i,
        {
            self.insert_blank_one();
            i += 1;
        }
    }

    fn delete_char_one(&mut self)
        requires
            old(self).wf(),
        ensures
            final(self).wf(),
            final(self)@ == old(self)@.delete_char_one(),
    {
        if self.cursor_x < self.size.cols as usize {
            let x = self.cursor_x;
            let y = self.cursor_y;
            let ghost sc = self.screen@;
            self.screen[y].remove(x);
            self.screen[y].push(Cell::default());
            proof {
                lemma_rows_view_update(sc, y as int, self.screen@[y as int]);
                assert(self.screen@ == sc.update(y as int, self.screen@[y as int]));
                let m = old(self)@;
                lemma_grid_update(m.screen, m.cols, m.rows, y as int, self.screen@[y as int]@);
            }
        }
    }

    /// Deletes `count` cells at the cursor, shifting the rest of the row left
    /// and filling its end with default cells.
    pub fn delete_chars(&mut self, count: usize)
        requires
            old(self).wf(),
        ensures
            final(self).wf(),
            final(self)@ == old(self)@.delete_chars(count as nat),
    {
        let ghost m0 = self@;
        let mut i: usize = 0;
        while i < count
            invariant
                i <= count,
                self.wf(),
                self@ == m0.delete_chars(i as nat),
            decreases count - i,
        {
            self.delete_char_one();
            i += 1;
        }
    }

    fn insert_line_one(&mut self)
        requires
            old(self).wf(),
            old(self)@.in_region(),
        ensures
            final(self).wf(),
            final(self)@ == old(self)@.insert_line_one(),
    {
        let ghost sc0 = self.screen@;
        proof {
            lemma_rows_view_remove(sc0, self.scroll_bottom as int);
            let m = self@;
            lemma_grid_remove_insert(m.screen, m.cols, m.rows, m.scroll_bottom as int, m.cursor_y as int, blank_row(m.cols));
        }
        self.screen.remove(self.scroll_bottom);
        let blank = blank_row_vec(self.size.cols as usize);
        let ghost sc1 = self.screen@;
        proof {
            lemma_rows_view_insert(sc1, self.cursor_y as int, blank);
        }
        self.screen.insert(self.cursor_y, blank);
    }

    /// Inserts `count` default rows at the cursor row when the cursor is in
    /// the scroll region; rows pushed past the region's bottom are lost.
    pub fn insert_lines(&mut self, count: usize)
        requires
            old(self).wf(),
        ensures
            final(self).wf(),
            final(self)@ == old(self)@.insert_lines(count as nat),
    {
        if self.scroll_top <= self.cursor_y && self.cursor_y <= self.scroll_bottom {
            let ghost m0 = self@;
            let mut i: usize = 0;
            while i < count
                invariant
                    i <= count,
                    self.wf(),
                    m0.wf(),
                    m0.in_region(),
                    self@ == m0.insert_lines_n(i as nat),
                decreases count - i,
            {
                proof {
                    lemma_insert_lines_frame(m0, i as nat);
                }
                self.insert_line_one();
                i += 1;
            }
        }
    }

    fn delete_line_one(&mut self)
        requires
            old(self).wf(),
            old(self)@.in_region(),
        ensures
            final(self).wf(),
            final(self)@ == old(self)@.delete_line_one(),
    {
        let ghost sc0 = self.screen@;
        proof {
            lemma_rows_view_remove(sc0, self.cursor_y as int);
            let m = self@;
            lemma_grid_remove_insert(m.screen, m.cols, m.rows, m.cursor_y as int, m.scroll_bottom as int, blank_row(m.cols));
        }
        self.screen.remove(self.cursor_y);
        let blank = blank_row_vec(self.size.cols as usize);
        let ghost sc1 = self.screen@;
        proof {
            lemma_rows_view_insert(sc1, self.scroll_bottom as int, blank);
        }
        self.screen.insert(self.scroll_bottom, blank);
    }

    /// Deletes `count` rows at the cursor row when the cursor is in the scroll
    /// region; default rows enter at the region's bottom.
    pub fn delete_lines(&mut self, count: usize)
        requires
            old(self).wf(),
        ensures
            final(self).wf(),
            final(self)@ == old(self)@.delete_lines(count as nat),
    {
        if self.scroll_top <= self.cursor_y && self.cursor_y <= self.scroll_bottom {
            let ghost m0 = self@;
            let mut i: usize = 0;
            while i < count
                invariant
                    i <= count,
                    self.wf(),
                    m0.wf(),
                    m0.in_region(),
                    self@ == m0.delete_lines_n(i as nat),
                decreases count - i,
            {
                proof {
                    lemma_delete_lines_frame(m0, i as nat);
                }
                self.delete_line_one();
                i += 1;
            }
        }
    }

    fn wrap_if_pending(&mut self)
        requires
            old(self).wf(),
        ensures
            final(self).wf(),
            final(self)@ == old(self)@.wrap_if_pending(),
    {
        if self.wrap_pending {
            self.wrap_pending = false;
            if self.auto_wrap {
                self.cursor_x = 0;
                proof {
                    lemma_newline_frame(self@);
                }
                self.newline();
            }
        }
    }

    fn put_char(&mut self, c: char)
        requires
            old(self).wf(),
        ensures
            final(self).wf(),
            final(self)@ == old(self)@.put_char(c),
    {
        let cell = Cell {
            character: c,
            fg: self.current_fg,
            bg: self.current_bg,
            attrs: self.current_attrs,
        };
        let x = self.cursor_x;
        let y = self.cursor_y;
        let ghost sc = self.screen@;
        let ghost m2 = self@;
        proof {
            lemma_put_char_wf(m2, c);
        }
        self.screen[y][x] = cell;
        proof {
            lemma_rows_view_update(sc, y as int, self.screen@[y as int]);
            assert(self.screen@[y as int]@ == m2.cursor_row().update(x as int, m2.pen_cell(c)));
        }
        if x + 1 < self.size.cols as usize {
            self.cursor_x = x + 1;
        } else {
            self.wrap_pending = true;
        }
    }

    fn print(&mut self, c: char)
        requires
            old(self).wf(),
        ensures
            final(self).wf(),
            final(self)@ == old(self)@.print(c),
    {
        self.wrap_if_pending();
        if self.insert_mode {
            proof {
                lemma_insert_blank_frame(self@, 1);
            }
            self.insert_blank(1);
        }
        self.put_char(c);
    }

    /// Writes one character at the cursor. Line feed, carriage return,
    /// backspace, tab and bell act on the cursor instead of being written.
    pub fn write_char(&mut self, c: char)
        requires
            old(self).wf(),
        ensures
            final(self).wf(),
            final(self)@ == old(self)@.write_char(c),
    {
        if c == '\n' {
            self.newline();
        } else if c == '\r' {
            self.cursor_x = 0;
            self.wrap_pending = false;
        } else if c == '\x08' {
            self.backspace();
        } else if c == '\t' {
            self.tab();
        } else if c == '\x07' {
        } else {
            self.print(c);
        }
    }
    /// Writes each character of `s` in turn, as `write_char` does.
    pub fn write_str(&mut self, s: &str)
        requires
            old(self).wf(),
        ensures
            final(self).wf(),
            final(self)@ == old(self)@.write_str(s@),
    {
        let ghost m0 = self@;
        for c in it: s.chars()
            invariant
                it.seq() == s@,
                self.wf(),
                self@ == m0.write_str(it.seq().take(it.index() as int)),
        {
            proof {
                let t = it.seq().take(it.index() as int + 1);
                assert(t.drop_last() =~= it.seq().take(it.index() as int));
            }
            self.write_char(c);
        }
        proof {
            assert(s@.take(s@.len() as int) =~= s@);
        }
    }
    /// Resets the whole screen to default cells; the cursor stays.
    pub fn clear(&mut self)
        requires
            old(self).wf(),
        ensures
            final(self).wf(),
            final(self)@ == old(self)@.clear(),
    {
        self.screen = Self::create_empty_screen(self.size.cols as usize, self.size.rows as usize);
    }

    /// Resets the cells `lo <= x < hi` of the cursor row.
    fn clear_cursor_row(&mut self, lo: usize, hi: usize)
        requires
            old(self).wf(),
        ensures
            final(self).wf(),
            final(self)@ == old(self)@.with_cursor_row(
                clear_range(old(self)@.cursor_row(), lo as int, hi as int),
            ),
    {
        let y = self.cursor_y;
        let ghost sc = self.screen@;
        clear_cells(&mut self.screen[y], lo, hi);
        proof {
            lemma_rows_view_update(sc, y as int, self.screen@[y as int]);
            assert(self.screen@ == sc.update(y as int, self.screen@[y as int]));
            let m = old(self)@;
            lemma_grid_update(m.screen, m.cols, m.rows, y as int, self.screen@[y as int]@);
        }
    }

    /// Resets rows `lo <= y < hi` to default rows.
    fn blank_rows(&mut self, lo: usize, hi: usize)
        requires
            old(self).wf(),
            lo <= hi <= old(self)@.rows,
        ensures
            final(self).wf(),
            final(self)@ == old(self)@.with_screen(
                Seq::new(
                    old(self)@.rows,
                    |y: int|
                        if lo <= y < hi {
                            blank_row(old(self)@.cols)
                        } else {
                            old(self)@.screen[y]
                        },
                ),
            ),
    {
        let ghost m0 = self@;
        let cols = self.size.cols as usize;
        let mut y = lo;
        proof {
            assert(self@.screen =~= Seq::new(
                m0.rows,
                |k: int|
                    if lo <= k < y {
                        blank_row(m0.cols)
                    } else {
                        m0.screen[k]
                    },
            ));
        }
        while y < hi
            invariant
                lo <= y <= hi <= m0.rows,
                m0.wf(),
                self.wf(),
                self@ == m0.with_screen(
                    Seq::new(
                        m0.rows,
                        |k: int|
                            if lo <= k < y {
                                blank_row(m0.cols)
                            } else {
                                m0.screen[k]
                            },
                    ),
                ),
                cols == m0.cols,
            decreases hi - y,
        {
            let r = blank_row_vec(cols);
            let ghost sc = self.screen@;
            let ghost m1 = self@;
            proof {
                lemma_rows_view_update(sc, y as int, r);
                lemma_grid_update(m1.screen, m1.cols, m1.rows, y as int, r@);
            }
            self.screen[y] = r;
            y += 1;
            proof {
                assert(self@.screen =~= Seq::new(
                    m0.rows,
                    |k: int|
                        if lo <= k < y {
                            blank_row(m0.cols)
                        } else {
                            m0.screen[k]
                        },
                ));
            }
        }
    }

    /// Resets everything from the cursor to the end of the screen.
    pub fn clear_to_end(&mut self)
        requires
            old(self).wf(),
        ensures
            final(self).wf(),
            final(self)@ == old(self)@.clear_to_end(),
    {
        let x = self.cursor_x;
        let cols = self.size.cols as usize;
        self.clear_cursor_row(x, cols);
        let rows = self.size.rows as usize;
        self.blank_rows(self.cursor_y + 1, rows);
        proof {
            assert(self@.screen =~= old(self)@.clear_to_end().screen);
        }
    }

    /// Resets everything from the start of the screen up to and including
    /// the cursor.
    pub fn clear_to_start(&mut self)
        requires
            old(self).wf(),
        ensures
            final(self).wf(),
            final(self)@ == old(self)@.clear_to_start(),
    {
        let x = self.cursor_x;
        self.clear_cursor_row(0, x + 1);
        self.blank_rows(0, self.cursor_y);
        proof {
            assert(self@.screen =~= old(self)@.clear_to_start().screen);
        }
    }

    /// Resets the cursor row.
    pub fn clear_line(&mut self)
        requires
            old(self).wf(),
        ensures
            final(self).wf(),
            final(self)@ == old(self)@.clear_line(),
    {
        let cols = self.size.cols as usize;
        self.clear_cursor_row(0, cols);
    }

    /// Resets the cursor row from the cursor to its end.
    pub fn clear_line_to_end(&mut self)
        requires
            old(self).wf(),
        ensures
            final(self).wf(),
            final(self)@ == old(self)@.clear_line_to_end(),
    {
        let x = self.cursor_x;
        let cols = self.size.cols as usize;
        self.clear_cursor_row(x, cols);
    }

    /// Resets the cursor row from its start up to and including the cursor.
    pub fn clear_line_to_start(&mut self)
        requires
            old(self).wf(),
        ensures
            final(self).wf(),
            final(self)@ == old(self)@.clear_line_to_start(),
    {
        let x = self.cursor_x;
        self.clear_cursor_row(0, x + 1);
    }

    /// Resets `count` cells from the cursor on, without moving anything.
    pub fn erase_chars(&mut self, count: usize)
        requires
            old(self).wf(),
        ensures
            final(self).wf(),
            final(self)@ == old(self)@.erase_chars(count as nat),
    {
        let x = self.cursor_x;
        let cols = self.size.cols as usize;
        let hi = if count < cols - x { x + count } else { cols };
        self.clear_cursor_row(x, hi);
        proof {
            assert(clear_range(old(self)@.cursor_row(), x as int, hi as int) =~= clear_range(
                old(self)@.cursor_row(),
                x as int,
                x + count,
            ));
        }
    }

    pub fn save_cursor(&mut self)
        requires
            old(self).wf(),
        ensures
            final(self).wf(),
            final(self)@ == old(self)@.save_cursor(),
    {
        self.saved_cursor_x = self.cursor_x;
        self.saved_cursor_y = self.cursor_y;
    }

    pub fn restore_cursor(&mut self)
        requires
            old(self).wf(),
        ensures
            final(self).wf(),
            final(self)@ == old(self)@.restore_cursor(),
    {
        self.cursor_x = self.saved_cursor_x;
        self.cursor_y = self.saved_cursor_y;
        self.wrap_pending = false;
    }

    /// Sets the scroll region to rows `top..=bottom`, clamped to the screen,
    /// with the bottom never above the top.
    pub fn set_scroll_region(&mut self, top: usize, bottom: usize)
        requires
            old(self).wf(),
        ensures
            final(self).wf(),
            final(self)@ == old(self)@.set_scroll_region(top as int, bottom as int),
    {
        let max_row = self.size.rows as usize - 1;
        let t = if top < max_row { top } else { max_row };
        let b = if bottom < max_row { bottom } else { max_row };
        self.scroll_top = t;
        self.scroll_bottom = if b > t { b } else { t };
    }

    /// Makes the scroll region the whole screen.
    pub fn reset_scroll_region(&mut self)
        requires
            old(self).wf(),
        ensures
            final(self).wf(),
            final(self)@ == old(self)@.reset_scroll_region(),
    {
        self.scroll_top = 0;
        self.scroll_bottom = self.size.rows as usize - 1;
    }

    pub fn switch_to_alternate(&mut self)
        requires
            old(self).wf(),
        ensures
            final(self).wf(),
            final(self)@ == old(self)@.switch_to_alternate(),
    {
        if self.alternate.is_none() {
            let mut grid = Self::create_empty_screen(self.size.cols as usize, self.size.rows as usize);
            std::mem::swap(&mut self.screen, &mut grid);
            self.alternate = Some(SavedScreen { grid, cursor_x: self.cursor_x, cursor_y: self.cursor_y });
            self.cursor_x = 0;
            self.cursor_y = 0;
            self.wrap_pending = false;
        }
    }

    pub fn switch_to_main(&mut self)
        requires
            old(self).wf(),
        ensures
            final(self).wf(),
            final(self)@ == old(self)@.switch_to_main(),
    {
        let mut slot: Option<SavedScreen> = None;
        std::mem::swap(&mut self.alternate, &mut slot);
        match slot {
            Some(saved) => {
                self.screen = saved.grid;
                self.cursor_x = saved.cursor_x;
                self.cursor_y = saved.cursor_y;
                self.wrap_pending = false;
            },
            None => {},
        }
    }

    pub fn set_fg(&mut self, color: Color)
        ensures
            final(self)@ == (BufferModel { fg: color, ..old(self)@ }),
    {
        self.current_fg = color;
    }

    pub fn set_bg(&mut self, color: Color)
        ensures
            final(self)@ == (BufferModel { bg: color, ..old(self)@ }),
    {
        self.current_bg = color;
    }

    pub fn set_attr(&mut self, attr: CellAttributes)
        ensures
            final(self)@ == (BufferModel { attrs: attr, ..old(self)@ }),
    {
        self.current_attrs = attr;
    }

    /// Resets the pen: no attributes, default colors.
    pub fn reset_attrs(&mut self)
        ensures
            final(self)@ == old(self)@.reset_attrs(),
    {
        self.current_attrs = CellAttributes::default();
        self.current_fg = ansi_color(7);
        self.current_bg = ansi_color(0);
    }

    pub fn current_attrs(&self) -> (a: CellAttributes)
        ensures
            a == self@.attrs,
    {
        self.current_attrs
    }

    pub fn set_auto_wrap(&mut self, enabled: bool)
        ensures
            final(self)@ == (BufferModel { auto_wrap: enabled, ..old(self)@ }),
    {
        self.auto_wrap = enabled;
    }

    pub fn set_insert_mode(&mut self, enabled: bool)
        ensures
            final(self)@ == (BufferModel { insert_mode: enabled, ..old(self)@ }),
    {
        self.insert_mode = enabled;
    }

    /// Sets origin mode; turning it on moves the cursor to the top-left of
    /// the scroll region.
    pub fn set_origin_mode(&mut self, enabled: bool)
        requires
            old(self).wf(),
        ensures
            final(self).wf(),
            final(self)@ == old(self)@.set_origin_mode(enabled),
    {
        self.origin_mode = enabled;
        if enabled {
            self.set_cursor(0, 0);
        }
    }
    /// Changes the size (a zero dimension counts as one). Each grid keeps its
    /// overlapping top-left rectangle, cursors are clamped to the new size, and
    /// the scroll region becomes the whole screen (its top kept if it fits).
    pub fn resize(&mut self, cols: u16, rows: u16)
        requires
            old(self).wf(),
        ensures
            final(self).wf(),
            final(self)@ == old(self)@.resize(cols as nat, rows as nat),
    {
        let c = if cols == 0 { 1 } else { cols };
        let r = if rows == 0 { 1 } else { rows };
        let new_cols = c as usize;
        let new_rows = r as usize;
        self.screen = resized_copy(&self.screen, new_cols, new_rows);
        let mut slot: Option<SavedScreen> = None;
        std::mem::swap(&mut self.alternate, &mut slot);
        self.alternate = resized_saved(slot, new_cols, new_rows);
        self.size = TerminalSize { cols: c, rows: r };
        self.cursor_x = min_usize(self.cursor_x, new_cols - 1);
        self.wrap_pending = false;
        self.cursor_y = min_usize(self.cursor_y, new_rows - 1);
        self.saved_cursor_x = min_usize(self.saved_cursor_x, new_cols - 1);
        self.saved_cursor_y = min_usize(self.saved_cursor_y, new_rows - 1);
        self.scroll_bottom = new_rows - 1;
        if self.scroll_top >= new_rows {
            self.scroll_top = 0;
        }
        proof {
            lemma_resize_wf(old(self)@, cols as nat, rows as nat);
            let t = old(self)@.resize(cols as nat, rows as nat);
            assert(self@.alternate == t.alternate);
            assert(self@.screen == t.screen);
        }
    }
}

/// Appends `row` to `sb`, evicting the oldest row past `max` rows.
fn push_scrollback(sb: &mut Vec<Vec<Cell>>, row: Vec<Cell>, max: usize)
    requires
        old(sb)@.len() <= max,
    ensures
        rows_view(final(sb)@) == evict(rows_view(old(sb)@).push(row@), max as nat),
        final(sb)@.len() <= max,
{
    let ghost s0 = sb@;
    proof {
        lemma_rows_view_push(s0, row);
    }
    sb.push(row);
    if sb.len() > max {
        let ghost s1 = sb@;
        proof {
            lemma_rows_view_drop_first(s1);
        }
        sb.remove(0);
    }
}

/// Resets the cells `lo <= i < hi` of `row`.
fn clear_cells(row: &mut Vec<Cell>, lo: usize, hi: usize)
    ensures
        final(row)@ == clear_range(old(row)@, lo as int, hi as int),
{
    let ghost r0 = row@;
    let end = if hi < row.len() { hi } else { row.len() };
    let mut i = lo;
    while i < end
        invariant
            lo <= i,
            i == lo || i <= end,
            end <= r0.len(),
            end <= hi,
            row@.len() == r0.len(),
            forall|k: int| 0 <= k < r0.len() ==> #[trigger] row@[k] == if lo <= k < i { blank_cell() } else { r0[k] },
        decreases end - i,
    {
        row[i] = Cell::default();
        i += 1;
    }
    assert forall|k: int| 0 <= k < r0.len() implies #[trigger] row@[k] == clear_range(r0, lo as int, hi as int)[k] by {
        assert(row@[k] == if lo <= k < i { blank_cell() } else { r0[k] });
        assert(end == hi || end == r0.len());
    }
    assert(row@ =~= clear_range(r0, lo as int, hi as int));
}

impl Default for TerminalBuffer {
    fn default() -> (b: TerminalBuffer)
        ensures
            b.wf(),
            b@ == BufferModel::initial(80, 24, 10000),
    {
        TerminalBuffer::new(80, 24, 10000)
    }
}

/// The top-left `cols` x `rows` rectangle of `g`, padded with default cells.
fn resized_copy(g: &Vec<Vec<Cell>>, cols: usize, rows: usize) -> (r: Vec<Vec<Cell>>)
    ensures
        rows_view(r@) == resized_grid(rows_view(g@), cols as nat, rows as nat),
{
    let ghost target = resized_grid(rows_view(g@), cols as nat, rows as nat);
    let mut out: Vec<Vec<Cell>> = Vec::new();
    let mut y: usize = 0;
    while y < rows
        invariant
            y <= rows,
            out@.len() == y,
            target == resized_grid(rows_view(g@), cols as nat, rows as nat),
            forall|k: int| 0 <= k < y ==> (#[trigger] out@[k])@ == target[k],
        decreases rows - y,
    {
        let mut row: Vec<Cell> = Vec::new();
        let mut x: usize = 0;
        while x < cols
            invariant
                x <= cols,
                y < rows,
                row@.len() == x,
                target == resized_grid(rows_view(g@), cols as nat, rows as nat),
                forall|k: int| 0 <= k < x ==> #[trigger] row@[k] == target[y as int][k],
            decreases cols - x,
        {
            if y < g.len() && x < g[y].len() {
                row.push(g[y][x]);
            } else {
                row.push(Cell::default());
            }
            x += 1;
        }
        assert(row@ =~= target[y as int]);
        out.push(row);
        y += 1;
    }
    assert(rows_view(out@) =~= target);
    out
}

fn min_usize(a: usize, b: usize) -> (r: usize)
    ensures
        r == min(a as int, b as int),
{
    if a < b {
        a
    } else {
        b
    }
}

/// A put-aside primary screen fitted to a new size.
fn resized_saved(slot: Option<SavedScreen>, cols: usize, rows: usize) -> (r: Option<SavedScreen>)
    requires
        cols >= 1,
        rows >= 1,
    ensures
        match slot {
            Some(s) => r is Some && r->0@ == (SavedModel {
                grid: resized_grid(s@.grid, cols as nat, rows as nat),
                cursor_x: min(s@.cursor_x as int, cols - 1) as nat,
                cursor_y: min(s@.cursor_y as int, rows - 1) as nat,
            }),
            None => r is None,
        },
{
    match slot {
        Some(saved) => {
            let grid = resized_copy(&saved.grid, cols, rows);
            let sx = min_usize(saved.cursor_x, cols - 1);
            let sy = min_usize(saved.cursor_y, rows - 1);
            Some(SavedScreen { grid, cursor_x: sx, cursor_y: sy })
        },
        None => None,
    }
}

/// `pos + d`, clamped to `[lo, hi]`.
fn offset_clamped(pos: usize, d: isize, lo: usize, hi: usize) -> (r: usize)
    requires
        lo <= hi <= u16::MAX,
        pos <= u16::MAX,
    ensures
        r == min(max(pos + d, lo as int), hi as int),
{
    if d >= 0 {
        let step = d as usize;
        if step >= hi || pos >= hi - step {
            hi
        } else if pos + step < lo {
            lo
        } else {
            pos + step
        }
    } else {
        let t = pos as isize + d;
        if t < lo as isize {
            lo
        } else {
            let t = t as usize;
            if t > hi { hi } else { t }
        }
    }
}

} // verus!
