//! The mathematical model of the screen buffer: what each buffer operation
//! does, stated over sequences of rows.

use vstd::prelude::*;
use crate::cell::{Cell, CellAttributes, blank_cell, plain_attrs};
use crate::color::{Color, default_fg, default_bg};

verus! {

/// A row of `cols` default cells.
pub open spec fn blank_row(cols: nat) -> Seq<Cell> {
    Seq::new(cols, |i: int| blank_cell())
}

/// A grid of `rows` rows of `cols` default cells.
pub open spec fn blank_grid(cols: nat, rows: nat) -> Seq<Seq<Cell>> {
    Seq::new(rows, |i: int| blank_row(cols))
}

/// `g` has `rows` rows, each of `cols` cells.
pub open spec fn grid_wf(g: Seq<Seq<Cell>>, cols: nat, rows: nat) -> bool {
    &&& g.len() == rows
    &&& forall|y: int| 0 <= y < rows ==> (#[trigger] g[y]).len() == cols
}

/// `row` with the cells at positions `lo <= i < hi` reset to default.
pub open spec fn clear_range(row: Seq<Cell>, lo: int, hi: int) -> Seq<Cell> {
    Seq::new(row.len(), |i: int| if lo <= i < hi { blank_cell() } else { row[i] })
}

/// The top-left `cols` x `rows` rectangle of `g`, padded with default cells.
pub open spec fn resized_grid(g: Seq<Seq<Cell>>, cols: nat, rows: nat) -> Seq<Seq<Cell>> {
    Seq::new(
        rows,
        |y: int|
            Seq::new(
                cols,
                |x: int|
                    if y < g.len() && x < g[y].len() {
                        g[y][x]
                    } else {
                        blank_cell()
                    },
            ),
    )
}

/// `s` with its oldest row dropped when it holds more than `max` rows.
pub open spec fn evict(s: Seq<Seq<Cell>>, max: nat) -> Seq<Seq<Cell>> {
    if s.len() > max {
        s.drop_first()
    } else {
        s
    }
}

pub open spec fn min(a: int, b: int) -> int {
    if a < b {
        a
    } else {
        b
    }
}

pub open spec fn max(a: int, b: int) -> int {
    if a > b {
        a
    } else {
        b
    }
}

/// The primary screen put aside while the alternate screen is shown.
pub struct SavedModel {
    pub grid: Seq<Seq<Cell>>,
    pub cursor_x: nat,
    pub cursor_y: nat,
}

/// The abstract state of a screen buffer.
pub struct BufferModel {
    pub screen: Seq<Seq<Cell>>,
    pub scrollback: Seq<Seq<Cell>>,
    pub max_scrollback: nat,
    pub cols: nat,
    pub rows: nat,
    pub cursor_x: nat,
    pub cursor_y: nat,
    pub saved_x: nat,
    pub saved_y: nat,
    pub attrs: CellAttributes,
    pub fg: Color,
    pub bg: Color,
    pub scroll_top: nat,
    pub scroll_bottom: nat,
    pub alternate: Option<SavedModel>,
    pub origin_mode: bool,
    pub auto_wrap: bool,
    pub insert_mode: bool,
    pub wrap_pending: bool,
}

impl BufferModel {
    /// The buffer's invariant: the cursor, the saved cursor and the cursor of
    /// the put-aside primary screen all lie on the screen. After a character
    /// is written into the last column the cursor stays there and
    /// `wrap_pending` is set: the next printable character wraps first.
    pub open spec fn wf(self) -> bool {
        &&& 1 <= self.cols <= u16::MAX
        &&& 1 <= self.rows <= u16::MAX
        &&& grid_wf(self.screen, self.cols, self.rows)
        &&& self.scrollback.len() <= self.max_scrollback
        &&& self.max_scrollback + u16::MAX <= usize::MAX
        &&& self.cursor_x < self.cols
        &&& self.cursor_y < self.rows
        &&& self.saved_x < self.cols
        &&& self.saved_y < self.rows
        &&& self.scroll_top <= self.scroll_bottom < self.rows
        &&& match self.alternate {
            Some(s) => grid_wf(s.grid, self.cols, self.rows) && s.cursor_x < self.cols && s.cursor_y
                < self.rows,
            None => true,
        }
    }

    /// The cell that writing `c` with the current pen produces.
    pub open spec fn pen_cell(self, c: char) -> Cell {
        Cell { character: c, fg: self.fg, bg: self.bg, attrs: self.attrs }
    }

    /// The state freshly created with the given size and scrollback capacity;
    /// a zero dimension counts as one, and the capacity is held below
    /// `usize::MAX - u16::MAX` so that row numbers across scrollback and
    /// screen stay representable.
    pub open spec fn initial(cols: nat, rows: nat, max_scrollback: nat) -> BufferModel {
        let c = max(cols as int, 1) as nat;
        let r = max(rows as int, 1) as nat;
        BufferModel {
            screen: blank_grid(c, r),
            scrollback: Seq::empty(),
            max_scrollback: min(max_scrollback as int, usize::MAX - u16::MAX) as nat,
            cols: c,
            rows: r,
            cursor_x: 0,
            cursor_y: 0,
            saved_x: 0,
            saved_y: 0,
            attrs: plain_attrs(),
            fg: default_fg(),
            bg: default_bg(),
            scroll_top: 0,
            scroll_bottom: (r - 1) as nat,
            alternate: None,
            origin_mode: false,
            auto_wrap: true,
            insert_mode: false,
            wrap_pending: false,
        }
    }

    /// Absolute cursor addressing: the column is clamped to the screen; the row
    /// is clamped to the screen, or taken relative to the scroll region and
    /// clamped to it in origin mode.
    pub open spec fn set_cursor(self, x: int, y: int) -> BufferModel {
        BufferModel {
            cursor_x: min(x, self.cols - 1) as nat,
            wrap_pending: false,
            cursor_y: if self.origin_mode {
                min(y + self.scroll_top, self.scroll_bottom as int) as nat
            } else {
                min(y, self.rows - 1) as nat
            },
            ..self
        }
    }

    /// Relative cursor motion, clamped to the screen (to the scroll region's
    /// rows in origin mode).
    pub open spec fn move_cursor(self, dx: int, dy: int) -> BufferModel {
        let y = self.cursor_y + dy;
        BufferModel {
            cursor_x: min(max(self.cursor_x + dx, 0), self.cols - 1) as nat,
            wrap_pending: false,
            cursor_y: if self.origin_mode {
                min(max(y, self.scroll_top as int), self.scroll_bottom as int) as nat
            } else {
                min(max(y, 0), self.rows - 1) as nat
            },
            ..self
        }
    }
    /// One line of upward scroll inside the scroll region. The row leaving
    /// the region goes to the scrollback only when the region starts at the
    /// top of the screen; the oldest scrollback row is evicted past capacity.
    pub open spec fn scroll_up_one(self) -> BufferModel {
        BufferModel {
            scrollback: if self.scroll_top == 0 {
                evict(self.scrollback.push(self.screen[0]), self.max_scrollback)
            } else {
                self.scrollback
            },
            screen: self.screen.remove(self.scroll_top as int).insert(
                self.scroll_bottom as int,
                blank_row(self.cols),
            ),
            ..self
        }
    }

    pub open spec fn scroll_up(self, n: nat) -> BufferModel
        decreases n,
    {
        if n == 0 {
            self
        } else {
            self.scroll_up((n - 1) as nat).scroll_up_one()
        }
    }

    /// One line of downward scroll inside the scroll region; a default row
    /// enters at the top of the region.
    pub open spec fn scroll_down_one(self) -> BufferModel {
        BufferModel {
            screen: self.screen.remove(self.scroll_bottom as int).insert(
                self.scroll_top as int,
                blank_row(self.cols),
            ),
            ..self
        }
    }

    pub open spec fn scroll_down(self, n: nat) -> BufferModel
        decreases n,
    {
        if n == 0 {
            self
        } else {
            self.scroll_down((n - 1) as nat).scroll_down_one()
        }
    }

    /// Line feed: scroll when the cursor is on or below the region's bottom row.
    pub open spec fn newline(self) -> BufferModel {
        if self.cursor_y >= self.scroll_bottom {
            self.scroll_up(1)
        } else {
            BufferModel { cursor_y: self.cursor_y + 1, ..self }
        }
    }

    pub open spec fn carriage_return(self) -> BufferModel {
        BufferModel { cursor_x: 0, wrap_pending: false, ..self }
    }

    /// One column left; a pending wrap is dropped instead, so that the cursor
    /// stays on the last column.
    pub open spec fn backspace(self) -> BufferModel {
        if self.wrap_pending {
            BufferModel { wrap_pending: false, ..self }
        } else if self.cursor_x > 0 {
            BufferModel { cursor_x: (self.cursor_x - 1) as nat, ..self }
        } else {
            self
        }
    }

    /// Advance to the next multiple of eight, clamped to the last column.
    pub open spec fn tab(self) -> BufferModel {
        BufferModel {
            cursor_x: min(((self.cursor_x / 8 + 1) * 8) as int, self.cols - 1) as nat,
            wrap_pending: false,
            ..self
        }
    }

    /// The state with the cursor row replaced by `row`.
    pub open spec fn with_cursor_row(self, row: Seq<Cell>) -> BufferModel {
        BufferModel { screen: self.screen.update(self.cursor_y as int, row), ..self }
    }

    pub open spec fn cursor_row(self) -> Seq<Cell> {
        self.screen[self.cursor_y as int]
    }

    pub open spec fn insert_blank_one(self) -> BufferModel {
        if self.cursor_x < self.cols {
            self.with_cursor_row(
                self.cursor_row().insert(self.cursor_x as int, blank_cell()).drop_last(),
            )
        } else {
            self
        }
    }

    pub open spec fn insert_blank(self, n: nat) -> BufferModel
        decreases n,
    {
        if n == 0 {
            self
        } else {
            self.insert_blank((n - 1) as nat).insert_blank_one()
        }
    }

    pub open spec fn delete_char_one(self) -> BufferModel {
        if self.cursor_x < self.cols {
            self.with_cursor_row(
                self.cursor_row().remove(self.cursor_x as int).push(blank_cell()),
            )
        } else {
            self
        }
    }

    pub open spec fn delete_chars(self, n: nat) -> BufferModel
        decreases n,
    {
        if n == 0 {
            self
        } else {
            self.delete_chars((n - 1) as nat).delete_char_one()
        }
    }

    pub open spec fn in_region(self) -> bool {
        self.scroll_top <= self.cursor_y <= self.scroll_bottom
    }

    pub open spec fn insert_line_one(self) -> BufferModel {
        BufferModel {
            screen: self.screen.remove(self.scroll_bottom as int).insert(
                self.cursor_y as int,
                blank_row(self.cols),
            ),
            ..self
        }
    }

    pub open spec fn insert_lines_n(self, n: nat) -> BufferModel
        decreases n,
    {
        if n == 0 {
            self
        } else {
            self.insert_lines_n((n - 1) as nat).insert_line_one()
        }
    }

    /// Inserts `n` default rows at the cursor row, pushing the rows below it
    /// off the region's bottom; nothing happens outside the scroll region.
    pub open spec fn insert_lines(self, n: nat) -> BufferModel {
        if self.in_region() {
            self.insert_lines_n(n)
        } else {
            self
        }
    }

    pub open spec fn delete_line_one(self) -> BufferModel {
        BufferModel {
            screen: self.screen.remove(self.cursor_y as int).insert(
                self.scroll_bottom as int,
                blank_row(self.cols),
            ),
            ..self
        }
    }

    pub open spec fn delete_lines_n(self, n: nat) -> BufferModel
        decreases n,
    {
        if n == 0 {
            self
        } else {
            self.delete_lines_n((n - 1) as nat).delete_line_one()
        }
    }

    /// Deletes `n` rows at the cursor row, pulling up the rows below it and
    /// filling the region's bottom with default rows; nothing happens outside
    /// the scroll region.
    pub open spec fn delete_lines(self, n: nat) -> BufferModel {
        if self.in_region() {
            self.delete_lines_n(n)
        } else {
            self
        }
    }

    /// With a wrap pending, the start of the next line (or, without auto-wrap,
    /// the same last column with the wrap dropped).
    pub open spec fn wrap_if_pending(self) -> BufferModel {
        if self.wrap_pending {
            if self.auto_wrap {
                self.carriage_return().newline()
            } else {
                BufferModel { wrap_pending: false, ..self }
            }
        } else {
            self
        }
    }

    /// Puts the pen cell for `c` under the cursor, then advances one column,
    /// or sets a pending wrap on the last column.
    pub open spec fn put_char(self, c: char) -> BufferModel {
        let m = self.with_cursor_row(self.cursor_row().update(self.cursor_x as int, self.pen_cell(c)));
        if self.cursor_x + 1 < self.cols {
            BufferModel { cursor_x: self.cursor_x + 1, ..m }
        } else {
            BufferModel { wrap_pending: true, ..m }
        }
    }

    /// Writes a printable character: a pending wrap is carried out first, the
    /// row shifts right in insert mode, then the character is put.
    pub open spec fn print(self, c: char) -> BufferModel {
        let m1 = self.wrap_if_pending();
        let m2 = if m1.insert_mode {
            m1.insert_blank(1)
        } else {
            m1
        };
        m2.put_char(c)
    }

    pub open spec fn write_char(self, c: char) -> BufferModel {
        if c == '\n' {
            self.newline()
        } else if c == '\r' {
            self.carriage_return()
        } else if c == '\x08' {
            self.backspace()
        } else if c == '\t' {
            self.tab()
        } else if c == '\x07' {
            self
        } else {
            self.print(c)
        }
    }

    pub open spec fn write_str(self, s: Seq<char>) -> BufferModel
        decreases s.len(),
    {
        if s.len() == 0 {
            self
        } else {
            self.write_str(s.drop_last()).write_char(s.last())
        }
    }

    pub open spec fn with_screen(self, screen: Seq<Seq<Cell>>) -> BufferModel {
        BufferModel { screen, ..self }
    }

    pub open spec fn clear(self) -> BufferModel {
        self.with_screen(blank_grid(self.cols, self.rows))
    }

    pub open spec fn clear_line(self) -> BufferModel {
        self.with_cursor_row(clear_range(self.cursor_row(), 0, self.cols as int))
    }

    pub open spec fn clear_line_to_end(self) -> BufferModel {
        self.with_cursor_row(clear_range(self.cursor_row(), self.cursor_x as int, self.cols as int))
    }

    pub open spec fn clear_line_to_start(self) -> BufferModel {
        self.with_cursor_row(clear_range(self.cursor_row(), 0, (self.cursor_x + 1) as int))
    }

    /// Rows below the cursor row reset, and the cursor row from the cursor on.
    pub open spec fn clear_to_end(self) -> BufferModel {
        self.with_screen(
            Seq::new(
                self.rows,
                |y: int|
                    if y > self.cursor_y {
                        blank_row(self.cols)
                    } else if y == self.cursor_y {
                        clear_range(self.screen[y], self.cursor_x as int, self.cols as int)
                    } else {
                        self.screen[y]
                    },
            ),
        )
    }

    /// Rows above the cursor row reset, and the cursor row up to and
    /// including the cursor.
    pub open spec fn clear_to_start(self) -> BufferModel {
        self.with_screen(
            Seq::new(
                self.rows,
                |y: int|
                    if y < self.cursor_y {
                        blank_row(self.cols)
                    } else if y == self.cursor_y {
                        clear_range(self.screen[y], 0, (self.cursor_x + 1) as int)
                    } else {
                        self.screen[y]
                    },
            ),
        )
    }

    pub open spec fn erase_chars(self, n: nat) -> BufferModel {
        self.with_cursor_row(clear_range(self.cursor_row(), self.cursor_x as int, (self.cursor_x + n) as int))
    }

    pub open spec fn save_cursor(self) -> BufferModel {
        BufferModel { saved_x: self.cursor_x, saved_y: self.cursor_y, ..self }
    }

    pub open spec fn restore_cursor(self) -> BufferModel {
        BufferModel { cursor_x: self.saved_x, cursor_y: self.saved_y, wrap_pending: false, ..self }
    }

    pub open spec fn set_scroll_region(self, top: int, bottom: int) -> BufferModel {
        let t = min(top, self.rows - 1);
        BufferModel {
            scroll_top: t as nat,
            scroll_bottom: max(min(bottom, self.rows - 1), t) as nat,
            ..self
        }
    }

    pub open spec fn reset_scroll_region(self) -> BufferModel {
        BufferModel { scroll_top: 0, scroll_bottom: (self.rows - 1) as nat, ..self }
    }

    /// Puts the primary grid and cursor aside and shows a cleared screen with
    /// the cursor home; a no-op while the alternate screen is already shown.
    pub open spec fn switch_to_alternate(self) -> BufferModel {
        if self.alternate is None {
            BufferModel {
                alternate: Some(
                    SavedModel { grid: self.screen, cursor_x: self.cursor_x, cursor_y: self.cursor_y },
                ),
                screen: blank_grid(self.cols, self.rows),
                cursor_x: 0,
                cursor_y: 0,
                wrap_pending: false,
                ..self
            }
        } else {
            self
        }
    }

    /// Brings back the primary grid and cursor put aside by
    /// `switch_to_alternate`; a no-op on the primary screen.
    pub open spec fn switch_to_main(self) -> BufferModel {
        match self.alternate {
            Some(s) => BufferModel {
                screen: s.grid,
                cursor_x: s.cursor_x,
                cursor_y: s.cursor_y,
                wrap_pending: false,
                alternate: None,
                ..self
            },
            None => self,
        }
    }

    pub open spec fn reset_attrs(self) -> BufferModel {
        BufferModel { attrs: plain_attrs(), fg: default_fg(), bg: default_bg(), ..self }
    }

    pub open spec fn set_origin_mode(self, enabled: bool) -> BufferModel {
        let m = BufferModel { origin_mode: enabled, ..self };
        if enabled {
            m.set_cursor(0, 0)
        } else {
            m
        }
    }

    /// New dimensions (zero counts as one): the overlapping top-left rectangle
    /// of each grid is kept, cursors are clamped, and the scroll region becomes
    /// the whole screen unless its top still fits.
    pub open spec fn resize(self, cols: nat, rows: nat) -> BufferModel {
        let c = max(cols as int, 1) as nat;
        let r = max(rows as int, 1) as nat;
        BufferModel {
            screen: resized_grid(self.screen, c, r),
            cols: c,
            rows: r,
            cursor_x: min(self.cursor_x as int, c - 1) as nat,
            wrap_pending: false,
            cursor_y: min(self.cursor_y as int, r - 1) as nat,
            saved_x: min(self.saved_x as int, c - 1) as nat,
            saved_y: min(self.saved_y as int, r - 1) as nat,
            scroll_top: if self.scroll_top >= r {
                0
            } else {
                self.scroll_top
            },
            scroll_bottom: (r - 1) as nat,
            alternate: match self.alternate {
                Some(s) => Some(
                    SavedModel {
                        grid: resized_grid(s.grid, c, r),
                        cursor_x: min(s.cursor_x as int, c - 1) as nat,
                        cursor_y: min(s.cursor_y as int, r - 1) as nat,
                    },
                ),
                None => None,
            },
            ..self
        }
    }
}

/// Removing a row and inserting one of the same width keeps the grid's shape.
pub proof fn lemma_grid_remove_insert(g: Seq<Seq<Cell>>, cols: nat, rows: nat, i: int, j: int, r: Seq<Cell>)
    requires
        grid_wf(g, cols, rows),
        0 <= i < rows,
        0 <= j < rows,
        r.len() == cols,
    ensures
        grid_wf(g.remove(i).insert(j, r), cols, rows),
{
    let h = g.remove(i).insert(j, r);
    assert forall|y: int| 0 <= y < rows implies (#[trigger] h[y]).len() == cols by {
        if y < j {
            if y < i {
                assert(h[y] == g[y]);
            } else {
                assert(h[y] == g[y + 1]);
            }
        } else if y > j {
            if y - 1 < i {
                assert(h[y] == g[y - 1]);
            } else {
                assert(h[y] == g[y]);
            }
        }
    }
}

/// Replacing a row by one of the same width keeps the grid's shape.
pub proof fn lemma_grid_update(g: Seq<Seq<Cell>>, cols: nat, rows: nat, i: int, r: Seq<Cell>)
    requires
        grid_wf(g, cols, rows),
        0 <= i < rows,
        r.len() == cols,
    ensures
        grid_wf(g.update(i, r), cols, rows),
{
    assert forall|y: int| 0 <= y < rows implies (#[trigger] g.update(i, r)[y]).len() == cols by {
        if y != i {
            assert(g.update(i, r)[y] == g[y]);
        }
    }
}

pub proof fn lemma_scroll_up_one_wf(m: BufferModel)
    requires
        m.wf(),
    ensures
        m.scroll_up_one().wf(),
{
    lemma_grid_remove_insert(m.screen, m.cols, m.rows, m.scroll_top as int, m.scroll_bottom as int, blank_row(m.cols));
}

pub proof fn lemma_scroll_up_wf(m: BufferModel, n: nat)
    requires
        m.wf(),
    ensures
        m.scroll_up(n).wf(),
    decreases n,
{
    if n > 0 {
        lemma_scroll_up_wf(m, (n - 1) as nat);
        lemma_scroll_up_one_wf(m.scroll_up((n - 1) as nat));
    }
}

pub proof fn lemma_scroll_down_one_wf(m: BufferModel)
    requires
        m.wf(),
    ensures
        m.scroll_down_one().wf(),
{
    lemma_grid_remove_insert(m.screen, m.cols, m.rows, m.scroll_bottom as int, m.scroll_top as int, blank_row(m.cols));
}

pub proof fn lemma_insert_blank_frame(m: BufferModel, n: nat)
    requires
        m.wf(),
    ensures
        m.insert_blank(n).wf(),
        m.insert_blank(n) == m.with_screen(m.insert_blank(n).screen),
    decreases n,
{
    if n > 0 {
        lemma_insert_blank_frame(m, (n - 1) as nat);
        let p = m.insert_blank((n - 1) as nat);
        if p.cursor_x < p.cols {
            lemma_grid_update(p.screen, p.cols, p.rows, p.cursor_y as int,
                p.cursor_row().insert(p.cursor_x as int, blank_cell()).drop_last());
        }
    }
}

pub proof fn lemma_insert_lines_frame(m: BufferModel, n: nat)
    requires
        m.wf(),
        m.in_region(),
    ensures
        m.insert_lines_n(n).wf(),
        m.insert_lines_n(n) == m.with_screen(m.insert_lines_n(n).screen),
    decreases n,
{
    if n > 0 {
        lemma_insert_lines_frame(m, (n - 1) as nat);
        let p = m.insert_lines_n((n - 1) as nat);
        lemma_grid_remove_insert(p.screen, p.cols, p.rows, p.scroll_bottom as int, p.cursor_y as int, blank_row(p.cols));
    }
}

pub proof fn lemma_delete_lines_frame(m: BufferModel, n: nat)
    requires
        m.wf(),
        m.in_region(),
    ensures
        m.delete_lines_n(n).wf(),
        m.delete_lines_n(n) == m.with_screen(m.delete_lines_n(n).screen),
    decreases n,
{
    if n > 0 {
        lemma_delete_lines_frame(m, (n - 1) as nat);
        let p = m.delete_lines_n((n - 1) as nat);
        lemma_grid_remove_insert(p.screen, p.cols, p.rows, p.cursor_y as int, p.scroll_bottom as int, blank_row(p.cols));
    }
}

pub proof fn lemma_scroll_up_frame(m: BufferModel, n: nat)
    requires
        m.wf(),
    ensures
        m.scroll_up(n).wf(),
        m.scroll_up(n) == (BufferModel {
            screen: m.scroll_up(n).screen,
            scrollback: m.scroll_up(n).scrollback,
            ..m
        }),
    decreases n,
{
    lemma_scroll_up_wf(m, n);
    if n > 0 {
        lemma_scroll_up_frame(m, (n - 1) as nat);
    }
}

pub proof fn lemma_put_char_wf(m: BufferModel, c: char)
    requires
        m.wf(),
    ensures
        m.put_char(c).wf(),
{
    lemma_grid_update(m.screen, m.cols, m.rows, m.cursor_y as int, m.cursor_row().update(m.cursor_x as int, m.pen_cell(c)));
}

pub proof fn lemma_newline_frame(m: BufferModel)
    requires
        m.wf(),
    ensures
        m.newline().wf(),
        m.newline().cursor_x == m.cursor_x,
        m.newline().wrap_pending == m.wrap_pending,
        m.newline().cols == m.cols,
        m.newline().rows == m.rows,
        m.newline().insert_mode == m.insert_mode,
{
    lemma_scroll_up_frame(m, 1);
}

pub proof fn lemma_resized_grid_wf(g: Seq<Seq<Cell>>, cols: nat, rows: nat)
    ensures
        grid_wf(resized_grid(g, cols, rows), cols, rows),
{
}

pub proof fn lemma_resize_wf(m: BufferModel, cols: nat, rows: nat)
    requires
        m.wf(),
        cols <= u16::MAX,
        rows <= u16::MAX,
    ensures
        m.resize(cols, rows).wf(),
{
    let c = max(cols as int, 1) as nat;
    let r = max(rows as int, 1) as nat;
    lemma_resized_grid_wf(m.screen, c, r);
    match m.alternate {
        Some(s) => lemma_resized_grid_wf(s.grid, c, r),
        None => {},
    }
}

} // verus!
