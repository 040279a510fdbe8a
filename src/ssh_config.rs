//! Pieces of SSH configuration syntax: host patterns with wildcards,
//! port numbers and port-forward specifications.

use vstd::prelude::*;
use crate::helpers::push_char;

verus! {

/// `text` matches `pattern`, where `*` stands for any run of characters
/// (also none) and `?` for exactly one.
pub open spec fn wild_match(pattern: Seq<char>, text: Seq<char>) -> bool
    decreases pattern.len() + text.len(),
{
    if pattern.len() == 0 {
        text.len() == 0
    } else if pattern[0] == '*' {
        wild_match(pattern.drop_first(), text) || (text.len() > 0 && wild_match(pattern, text.drop_first()))
    } else {
        text.len() > 0 && (pattern[0] == '?' || pattern[0] == text[0]) && wild_match(
            pattern.drop_first(),
            text.drop_first(),
        )
    }
}

pub(crate) fn chars_of(s: &str) -> (v: Vec<char>)
    ensures
        v@ == s@,
{
    let mut v: Vec<char> = Vec::new();
    for c in it: s.chars()
        invariant
            it.seq() == s@,
            v@ == s@.take(it.index() as int),
    {
        v.push(c);
        assert(v@ =~= s@.take(it.index() + 1));
    }
    assert(s@.take(s@.len() as int) =~= s@);
    v
}

pub(crate) fn match_from(pattern: &Vec<char>, text: &Vec<char>, pi: usize, ti: usize) -> (r: bool)
    requires
        pi <= pattern@.len(),
        ti <= text@.len(),
    ensures
        r == wild_match(pattern@.skip(pi as int), text@.skip(ti as int)),
    decreases pattern@.len() - pi + text@.len() - ti,
{
    let ghost p = pattern@.skip(pi as int);
    let ghost t = text@.skip(ti as int);
    proof {
        if pi < pattern@.len() {
            assert(p.drop_first() =~= pattern@.skip(pi + 1));
        }
        if ti < text@.len() {
            assert(t.drop_first() =~= text@.skip(ti + 1));
        }
    }
    if pi == pattern.len() {
        ti == text.len()
    } else if pattern[pi] == '*' {
        if match_from(pattern, text, pi + 1, ti) {
            true
        } else if ti < text.len() {
            match_from(pattern, text, pi, ti + 1)
        } else {
            false
        }
    } else if ti < text.len() && (pattern[pi] == '?' || pattern[pi] == text[ti]) {
        match_from(pattern, text, pi + 1, ti + 1)
    } else {
        false
    }
}

/// Simple wildcard matching of a host name against a pattern (`*` and `?`).
pub fn wildcard_match(pattern: &str, text: &str) -> (r: bool)
    ensures
        r == wild_match(pattern@, text@),
{
    let p = chars_of(pattern);
    let t = chars_of(text);
    proof {
        assert(p@.skip(0) =~= p@);
        assert(t@.skip(0) =~= t@);
    }
    match_from(&p, &t, 0, 0)
}

pub open spec fn is_digit(c: char) -> bool {
    '0' <= c && c <= '9'
}

/// The decimal value of a string of digits.
pub open spec fn digits_value(s: Seq<char>) -> int
    decreases s.len(),
{
    if s.len() == 0 {
        0
    } else {
        digits_value(s.drop_last()) * 10 + (s.last() as int - '0' as int)
    }
}

/// `s` without a leading `+`.
pub open spec fn unsigned_part(s: Seq<char>) -> Seq<char> {
    if s.len() > 0 && s[0] == '+' {
        s.drop_first()
    } else {
        s
    }
}

/// What `str::parse` gives for an unsigned type whose largest value is
/// `max`: an optional `+` and at least one digit, with a value that fits.
pub open spec fn parse_uint_spec(s: Seq<char>, max: int) -> Option<int> {
    let d = unsigned_part(s);
    if d.len() > 0 && (forall|i: int| 0 <= i < d.len() ==> is_digit(#[trigger] d[i])) && digits_value(d) <= max {
        Some(digits_value(d))
    } else {
        None
    }
}

proof fn lemma_digits_value_nonneg(d: Seq<char>)
    requires
        forall|i: int| 0 <= i < d.len() ==> is_digit(#[trigger] d[i]),
    ensures
        digits_value(d) >= 0,
    decreases d.len(),
{
    if d.len() > 0 {
        assert(is_digit(d[d.len() - 1]));
        lemma_digits_value_nonneg(d.drop_last());
    }
}

/// What `str::parse::<u16>` gives.
pub open spec fn parse_u16_spec(s: Seq<char>) -> Option<u16> {
    match parse_uint_spec(s, u16::MAX as int) {
        Some(v) => Some(v as u16),
        None => None,
    }
}

/// What `str::parse::<u32>` gives.
pub open spec fn parse_u32_spec(s: Seq<char>) -> Option<u32> {
    match parse_uint_spec(s, u32::MAX as int) {
        Some(v) => Some(v as u32),
        None => None,
    }
}

/// Index of the last `:` in `s`, or -1.
pub open spec fn last_colon(s: Seq<char>) -> int
    decreases s.len(),
{
    if s.len() == 0 {
        -1
    } else if s.last() == ':' {
        s.len() - 1
    } else {
        last_colon(s.drop_last())
    }
}

/// Index of the first `:` in `s`, or -1.
pub open spec fn first_colon(s: Seq<char>) -> int
    decreases s.len(),
{
    if s.len() == 0 {
        -1
    } else if s[0] == ':' {
        0
    } else if first_colon(s.drop_first()) < 0 {
        -1
    } else {
        first_colon(s.drop_first()) + 1
    }
}

/// A forward written as `port host:port` (two words).
pub open spec fn forward_two_words(a: Seq<char>, b: Seq<char>) -> Option<(u16, Seq<char>, u16)> {
    let c = last_colon(b);
    match (parse_u16_spec(a), if c >= 0 { parse_u16_spec(b.skip(c + 1)) } else { None }) {
        (Some(lp), Some(rp)) => Some((lp, b.take(c), rp)),
        _ => None,
    }
}

/// A forward written as `port:host:port` (one word with exactly two colons).
pub open spec fn forward_one_word(a: Seq<char>) -> Option<(u16, Seq<char>, u16)> {
    let f = first_colon(a);
    let l = last_colon(a);
    if 0 <= f < l && first_colon(a.subrange(f + 1, l)) < 0 {
        match (parse_u16_spec(a.take(f)), parse_u16_spec(a.skip(l + 1))) {
            (Some(lp), Some(rp)) => Some((lp, a.subrange(f + 1, l), rp)),
            _ => None,
        }
    } else {
        None
    }
}

/// A forward specification: `port host:port`, else `port:host:port` in the
/// first word.
pub open spec fn forward_spec(parts: Seq<Seq<char>>) -> Option<(u16, Seq<char>, u16)> {
    if parts.len() == 0 {
        None
    } else if parts.len() >= 2 && forward_two_words(parts[0], parts[1]) is Some {
        forward_two_words(parts[0], parts[1])
    } else {
        forward_one_word(parts[0])
    }
}

/// Parses `s[lo..hi]` as `str::parse` does for an unsigned type whose
/// largest value is `max`.
fn parse_uint(s: &Vec<char>, lo: usize, hi: usize, max: u64) -> (r: Option<u64>)
    requires
        lo <= hi <= s@.len(),
        max <= u32::MAX,
    ensures
        r matches Some(v) ==> v <= max,
        match parse_uint_spec(s@.subrange(lo as int, hi as int), max as int) {
            Some(v) => r == Some(v as u64),
            None => r is None,
        },
{
    let ghost full = s@.subrange(lo as int, hi as int);
    let start = if lo < hi && s[lo] == '+' { lo + 1 } else { lo };
    let ghost d = s@.subrange(start as int, hi as int);
    proof {
        assert(unsigned_part(full) =~= d);
    }
    if start == hi {
        return None;
    }
    let mut v: u64 = 0;
    let cap = max + 1;
    let mut i = start;
    while i < hi
        invariant
            start <= i <= hi <= s@.len(),
            d == s@.subrange(start as int, hi as int),
            full == s@.subrange(lo as int, hi as int),
            unsigned_part(full) == d,
            forall|k: int| 0 <= k < i - start ==> is_digit(#[trigger] d[k]),
            cap == max + 1,
            max <= u32::MAX,
            v as int == if digits_value(d.take(i - start)) < cap {
                digits_value(d.take(i - start))
            } else {
                cap as int
            },
        decreases hi - i,
    {
        let c = s[i];
        if !('0' <= c && c <= '9') {
            proof {
                assert(!is_digit(d[i - start]));
                assert(!(forall|k: int| 0 <= k < d.len() ==> is_digit(#[trigger] d[k])));
            }
            return None;
        }
        let ghost before = digits_value(d.take(i - start));
        proof {
            assert(d.take(i - start + 1).drop_last() =~= d.take(i - start));
            assert(d.take(i - start + 1).last() == c);
        }
        let dig = ((c as u32) - ('0' as u32)) as u64;
        if v >= cap {
            assert(before >= cap);
            assert(before * 10 + dig >= cap) by (nonlinear_arith)
                requires
                    before >= cap,
                    dig >= 0,
            ;
        } else {
            v = v * 10 + dig;
            if v > cap {
                v = cap;
            }
        }
        i += 1;
    }
    proof {
        assert(d.take(hi - start) =~= d);
    }
    if v > max {
        None
    } else {
        Some(v)
    }
}

/// Parses a port number as `str::parse::<u16>` does.
pub(crate) fn parse_u16(s: &Vec<char>, lo: usize, hi: usize) -> (r: Option<u16>)
    requires
        lo <= hi <= s@.len(),
    ensures
        r == parse_u16_spec(s@.subrange(lo as int, hi as int)),
{
    proof {
        let d = unsigned_part(s@.subrange(lo as int, hi as int));
        if forall|i: int| 0 <= i < d.len() ==> is_digit(#[trigger] d[i]) {
            lemma_digits_value_nonneg(d);
        }
    }
    match parse_uint(s, lo, hi, 65535) {
        Some(v) => Some(v as u16),
        None => None,
    }
}

/// Parses a number as `str::parse::<u32>` does.
pub(crate) fn parse_u32(s: &Vec<char>, lo: usize, hi: usize) -> (r: Option<u32>)
    requires
        lo <= hi <= s@.len(),
    ensures
        r == parse_u32_spec(s@.subrange(lo as int, hi as int)),
{
    proof {
        let d = unsigned_part(s@.subrange(lo as int, hi as int));
        if forall|i: int| 0 <= i < d.len() ==> is_digit(#[trigger] d[i]) {
            lemma_digits_value_nonneg(d);
        }
    }
    match parse_uint(s, lo, hi, 4294967295) {
        Some(v) => Some(v as u32),
        None => None,
    }
}

/// The string of `s[lo..hi]`.
pub(crate) fn substring(s: &Vec<char>, lo: usize, hi: usize) -> (r: String)
    requires
        lo <= hi <= s@.len(),
    ensures
        r@ == s@.subrange(lo as int, hi as int),
{
    let mut r = String::new();
    let mut i = lo;
    while i < hi
        invariant
            lo <= i <= hi <= s@.len(),
            r@ == s@.subrange(lo as int, i as int),
        decreases hi - i,
    {
        push_char(&mut r, s[i]);
        i += 1;
        assert(r@ =~= s@.subrange(lo as int, i as int));
    }
    r
}

/// Index of the last `:` in `s[lo..hi]`, relative to `lo`.
fn find_last_colon(s: &Vec<char>, lo: usize, hi: usize) -> (r: Option<usize>)
    requires
        lo <= hi <= s@.len(),
    ensures
        match r {
            Some(i) => last_colon(s@.subrange(lo as int, hi as int)) == i,
            None => last_colon(s@.subrange(lo as int, hi as int)) == -1,
        },
{
    let mut i = hi;
    while i > lo
        invariant
            lo <= i <= hi <= s@.len(),
            last_colon(s@.subrange(lo as int, hi as int)) == last_colon(s@.subrange(lo as int, i as int)),
        decreases i - lo,
    {
        let ghost t = s@.subrange(lo as int, i as int);
        assert(t.drop_last() =~= s@.subrange(lo as int, i - 1));
        if s[i - 1] == ':' {
            return Some(i - 1 - lo);
        }
        i -= 1;
    }
    None
}

/// Index of the first `:` in `s[lo..hi]`, relative to `lo`.
fn find_first_colon(s: &Vec<char>, lo: usize, hi: usize) -> (r: Option<usize>)
    requires
        lo <= hi <= s@.len(),
    ensures
        match r {
            Some(i) => first_colon(s@.subrange(lo as int, hi as int)) == i && i < hi - lo,
            None => first_colon(s@.subrange(lo as int, hi as int)) == -1,
        },
    decreases hi - lo,
{
    if lo == hi {
        return None;
    }
    let ghost t = s@.subrange(lo as int, hi as int);
    assert(t.drop_first() =~= s@.subrange(lo + 1, hi as int));
    if s[lo] == ':' {
        Some(0)
    } else {
        match find_first_colon(s, lo + 1, hi) {
            Some(r) => Some(r + 1),
            None => None,
        }
    }
}

/// The words of a forward specification, as character sequences.
pub open spec fn words(parts: Seq<&str>) -> Seq<Seq<char>> {
    Seq::new(parts.len(), |i: int| parts[i]@)
}

/// The abstract value of a vector of words.
pub open spec fn words_view(v: Seq<Vec<char>>) -> Seq<Seq<char>> {
    Seq::new(v.len(), |i: int| v[i]@)
}

fn two_words(a: &Vec<char>, b: &Vec<char>) -> (r: Option<(u16, String, u16)>)
    ensures
        match r {
            Some((lp, h, rp)) => forward_two_words(a@, b@) == Some((lp, h@, rp)),
            None => forward_two_words(a@, b@) is None,
        },
{
    proof {
        assert(a@.subrange(0, a@.len() as int) =~= a@);
    }
    let lp = parse_u16(a, 0, a.len());
    proof {
        assert(b@.subrange(0, b@.len() as int) =~= b@);
    }
    let c = match find_last_colon(b, 0, b.len()) {
        Some(c) => c,
        None => {
            return None;
        },
    };
    proof {
        lemma_last_colon_bound(b@);
        assert(b@.subrange(c + 1, b@.len() as int) =~= b@.skip(c + 1));
        assert(b@.subrange(0, c as int) =~= b@.take(c as int));
    }
    let rp = parse_u16(b, c + 1, b.len());
    match (lp, rp) {
        (Some(lp), Some(rp)) => Some((lp, substring(b, 0, c), rp)),
        _ => None,
    }
}

proof fn lemma_last_colon_bound(s: Seq<char>)
    ensures
        -1 <= last_colon(s) < s.len(),
        last_colon(s) >= 0 ==> s[last_colon(s)] == ':',
    decreases s.len(),
{
    if s.len() > 0 && s.last() != ':' {
        lemma_last_colon_bound(s.drop_last());
    }
}

fn one_word(a: &Vec<char>) -> (r: Option<(u16, String, u16)>)
    ensures
        match r {
            Some((lp, h, rp)) => forward_one_word(a@) == Some((lp, h@, rp)),
            None => forward_one_word(a@) is None,
        },
{
    proof {
        assert(a@.subrange(0, a@.len() as int) =~= a@);
        lemma_last_colon_bound(a@);
    }
    let (f, l) = match (find_first_colon(a, 0, a.len()), find_last_colon(a, 0, a.len())) {
        (Some(f), Some(l)) => (f, l),
        _ => {
            return None;
        },
    };
    if f >= l || find_first_colon(a, f + 1, l).is_some() {
        return None;
    }
    proof {
        assert(a@.subrange(0, f as int) =~= a@.take(f as int));
        assert(a@.subrange(l + 1, a@.len() as int) =~= a@.skip(l + 1));
    }
    let lp = parse_u16(a, 0, f);
    let rp = parse_u16(a, l + 1, a.len());
    match (lp, rp) {
        (Some(lp), Some(rp)) => Some((lp, substring(a, f + 1, l), rp)),
        _ => None,
    }
}

/// Parses the forward specification in the words from index `from` on.
pub(crate) fn parse_forward_words(w: &Vec<Vec<char>>, from: usize) -> (r: Option<(u16, String, u16)>)
    requires
        from <= w@.len(),
    ensures
        match r {
            Some((lp, h, rp)) => forward_spec(words_view(w@).skip(from as int)) == Some((lp, h@, rp)),
            None => forward_spec(words_view(w@).skip(from as int)) is None,
        },
{
    let ghost ws = words_view(w@).skip(from as int);
    if w.len() == from {
        return None;
    }
    assert(ws[0] == w@[from as int]@);
    if w.len() - from >= 2 {
        assert(ws[1] == w@[from + 1]@);
        let r = two_words(&w[from], &w[from + 1]);
        if r.is_some() {
            return r;
        }
    }
    one_word(&w[from])
}

/// Parses an SSH forward specification: `port host:port` as two words, or
/// `port:host:port` as one; `None` when neither form fits.
pub fn parse_forward(parts: &[&str]) -> (r: Option<(u16, String, u16)>)
    ensures
        match r {
            Some((lp, h, rp)) => forward_spec(words(parts@)) == Some((lp, h@, rp)),
            None => forward_spec(words(parts@)) is None,
        },
{
    let mut w: Vec<Vec<char>> = Vec::new();
    let mut i: usize = 0;
    while i < parts.len()
        invariant
            i <= parts@.len(),
            words_view(w@) == words(parts@).take(i as int),
        decreases parts@.len() - i,
    {
        let cv = chars_of(parts[i]);
        assert(cv@ == parts@[i as int]@);
        let ghost w0 = w@;
        w.push(cv);
        assert(words_view(w@) =~= words_view(w0).push(cv@));
        i += 1;
        assert(words_view(w@) =~= words(parts@).take(i as int));
    }
    assert(words_view(w@).skip(0) =~= words(parts@));
    parse_forward_words(&w, 0)
}

} // verus!
