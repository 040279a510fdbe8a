//! Text search over the scrollback and the screen.

use vstd::prelude::*;
use crate::buffer::TerminalBuffer;
use crate::cell::Cell;
use crate::helpers::push_char;
use crate::model::BufferModel;
use crate::ssh_config::chars_of;

verus! {

/// The rows of the history: the scrollback, oldest first, then the screen.
pub open spec fn history(b: BufferModel) -> Seq<Seq<Cell>> {
    b.scrollback + b.screen
}

pub open spec fn row_chars(row: Seq<Cell>) -> Seq<char> {
    Seq::new(row.len(), |i: int| row[i].character)
}

/// What `str::to_lowercase` makes of a text.
pub uninterp spec fn lower_of(s: Seq<char>) -> Seq<char>;

/// Relies on `str::to_lowercase`: the lower-case form of the text, which
/// depends on its characters alone.
#[verifier::external_body]
fn lowercase(s: &str) -> (r: String)
    ensures
        r@ == lower_of(s@),
{
    s.to_lowercase()
}

/// The text as searched: lower-cased when the search ignores case.
pub open spec fn folded(s: Seq<char>, case_sensitive: bool) -> Seq<char> {
    if case_sensitive {
        s
    } else {
        lower_of(s)
    }
}

/// `pat` occurs in `text` starting at column `col`.
pub open spec fn match_at(text: Seq<char>, pat: Seq<char>, col: int) -> bool {
    &&& 0 <= col
    &&& col + pat.len() <= text.len()
    &&& text.subrange(col, col + pat.len()) == pat
}

/// The matches in row `r` at columns below `n`, left to right.
pub open spec fn row_matches(r: int, text: Seq<char>, pat: Seq<char>, n: int) -> Seq<(usize, usize)>
    decreases n,
{
    if n <= 0 {
        Seq::empty()
    } else {
        row_matches(r, text, pat, n - 1) + if match_at(text, pat, n - 1) {
            seq![(r as usize, (n - 1) as usize)]
        } else {
            Seq::empty()
        }
    }
}

/// The matches in the rows below `n`, top to bottom, each row searched as
/// `folded` makes it.
pub open spec fn all_matches(rows: Seq<Seq<Cell>>, pat: Seq<char>, case_sensitive: bool, n: int) -> Seq<(usize, usize)>
    decreases n,
{
    if n <= 0 {
        Seq::empty()
    } else {
        let text = folded(row_chars(rows[n - 1]), case_sensitive);
        all_matches(rows, pat, case_sensitive, n - 1) + row_matches(n - 1, text, pat, text.len() as int)
    }
}

fn matches_here(text: &Vec<char>, pat: &Vec<char>, col: usize) -> (m: bool)
    ensures
        m == match_at(text@, pat@, col as int),
{
    if pat.len() > text.len() || col > text.len() - pat.len() {
        return false;
    }
    let mut k: usize = 0;
    while k < pat.len()
        invariant
            k <= pat@.len(),
            col + pat@.len() <= text@.len(),
            forall|j: int| 0 <= j < k ==> #[trigger] text@[col + j] == pat@[j],
        decreases pat@.len() - k,
    {
        assert(col + k < text.len());
        if text[col + k] != pat[k] {
            assert(text@.subrange(col as int, col + pat@.len())[k as int] != pat@[k as int]);
            return false;
        }
        k += 1;
    }
    assert forall|j: int| 0 <= j < pat@.len() implies text@.subrange(col as int, col + pat@.len())[j] == pat@[j] by {
        assert(text@[col + j] == pat@[j]);
    }
    assert(text@.subrange(col as int, col + pat@.len()) =~= pat@);
    true
}

/// Every column, left to right, where `pat` occurs in `text`, paired with
/// the row number `row`.
pub fn find_in_text(row: usize, text: &Vec<char>, pat: &Vec<char>) -> (r: Vec<(usize, usize)>)
    ensures
        r@ == row_matches(row as int, text@, pat@, text@.len() as int),
{
    let mut out: Vec<(usize, usize)> = Vec::new();
    let mut x: usize = 0;
    while x < text.len()
        invariant
            x <= text@.len(),
            out@ == row_matches(row as int, text@, pat@, x as int),
        decreases text@.len() - x,
    {
        if matches_here(text, pat, x) {
            out.push((row, x));
        }
        x += 1;
        assert(out@ =~= row_matches(row as int, text@, pat@, x as int));
    }
    out
}

/// The characters of a row, as a string.
fn row_string(row: &Vec<Cell>) -> (s: String)
    ensures
        s@ == row_chars(row@),
{
    let mut s = String::new();
    let mut i: usize = 0;
    while i < row.len()
        invariant
            i <= row@.len(),
            s@ == row_chars(row@).take(i as int),
        decreases row@.len() - i,
    {
        push_char(&mut s, row[i].character);
        i += 1;
        assert(s@ =~= row_chars(row@).take(i as int));
    }
    assert(row_chars(row@).take(row@.len() as int) =~= row_chars(row@));
    s
}

/// The text of a row as searched.
fn folded_row(row: &Vec<Cell>, case_sensitive: bool) -> (v: Vec<char>)
    ensures
        v@ == folded(row_chars(row@), case_sensitive),
{
    let s = row_string(row);
    if case_sensitive {
        chars_of(s.as_str())
    } else {
        let l = lowercase(s.as_str());
        chars_of(l.as_str())
    }
}

/// Every position, as (row, column), where `pattern` occurs in the history
/// (scrollback rows first, then screen rows), top to bottom and left to
/// right. Unless `case_sensitive`, the pattern and each row are lower-cased
/// first and columns count characters of the lower-cased row. A pattern
/// that is empty as searched matches nowhere.
pub fn search(buffer: &TerminalBuffer, pattern: &str, case_sensitive: bool) -> (r: Vec<(usize, usize)>)
    requires
        buffer.wf(),
    ensures
        r@ == if folded(pattern@, case_sensitive).len() == 0 {
            Seq::empty()
        } else {
            all_matches(
                history(buffer@),
                folded(pattern@, case_sensitive),
                case_sensitive,
                history(buffer@).len() as int,
            )
        },
{
    let mut out: Vec<(usize, usize)> = Vec::new();
    let pat = if case_sensitive {
        chars_of(pattern)
    } else {
        let l = lowercase(pattern);
        chars_of(l.as_str())
    };
    if pat.len() == 0 {
        return out;
    }
    let ghost rows = history(buffer@);
    let sb = buffer.scrollback_len();
    let height = buffer.size().rows as usize;
    let total = sb + height;
    let mut y: usize = 0;
    while y < total
        invariant
            buffer.wf(),
            rows == history(buffer@),
            rows.len() == total,
            total == sb + buffer@.rows,
            sb == buffer@.scrollback.len(),
            pat@ == folded(pattern@, case_sensitive),
            y <= total,
            out@ == all_matches(rows, pat@, case_sensitive, y as int),
        decreases total - y,
    {
        let row = if y < sb {
            buffer.get_scrollback_row(y).unwrap()
        } else {
            buffer.get_row(y - sb).unwrap()
        };
        assert(row@ == rows[y as int]);
        let text = folded_row(row, case_sensitive);
        let found = find_in_text(y, &text, &pat);
        let ghost before = out@;
        let mut i: usize = 0;
        while i < found.len()
            invariant
                i <= found@.len(),
                out@ == before + found@.take(i as int),
            decreases found@.len() - i,
        {
            out.push(found[i]);
            i += 1;
            assert(out@ =~= before + found@.take(i as int));
        }
        assert(found@.take(found@.len() as int) =~= found@);
        y += 1;
    }
    out
}

} // verus!
