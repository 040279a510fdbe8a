//! Small text helpers: permission strings and file names.

use vstd::prelude::*;

verus! {

/// Relies on `String::push`: appends one character.
#[verifier::external_body]
pub(crate) fn push_char(s: &mut String, c: char)
    ensures
        final(s)@ == old(s)@.push(c),
{
    s.push(c)
}

/// The `rwx` letter of permission bit `i` (0 = owner read .. 8 = others
/// execute), or `-` when the bit is clear.
pub open spec fn perm_char(mode: u32, i: int) -> char {
    if mode & (256u32 >> (i as u32)) != 0 {
        if i % 3 == 0 {
            'r'
        } else if i % 3 == 1 {
            'w'
        } else {
            'x'
        }
    } else {
        '-'
    }
}

/// Formats the low nine bits of a Unix mode as `rwxrwxrwx`, with `-` for
/// each clear bit.
pub fn format_permissions(mode: u32) -> (s: String)
    ensures
        s@ == Seq::new(9, |i: int| perm_char(mode, i)),
{
    let mut s = String::new();
    let mut i: u32 = 0;
    while i < 9
        invariant
            i <= 9,
            s@ == Seq::new(i as nat, |k: int| perm_char(mode, k)),
        decreases 9 - i,
    {
        let c = if mode & (256u32 >> i) != 0 {
            if i % 3 == 0 {
                'r'
            } else if i % 3 == 1 {
                'w'
            } else {
                'x'
            }
        } else {
            '-'
        };
        push_char(&mut s, c);
        i += 1;
        assert(s@ =~= Seq::new(i as nat, |k: int| perm_char(mode, k)));
    }
    s
}

/// Characters that are not safe in a file name.
pub open spec fn is_unsafe_filename_char(c: char) -> bool {
    c == '/' || c == '\\' || c == ':' || c == '*' || c == '?' || c == '"' || c == '<' || c == '>' || c == '|'
}

pub open spec fn sanitized_char(c: char) -> char {
    if is_unsafe_filename_char(c) {
        '_'
    } else {
        c
    }
}

/// Replaces each character that is not safe in a file name with `_`.
pub fn sanitize_filename(filename: &str) -> (s: String)
    ensures
        s@ == Seq::new(filename@.len(), |i: int| sanitized_char(filename@[i])),
{
    let mut s = String::new();
    for c in it: filename.chars()
        invariant
            it.seq() == filename@,
            s@ == Seq::new(it.index() as nat, |i: int| sanitized_char(filename@[i])),
    {
        let d = if c == '/' || c == '\\' || c == ':' || c == '*' || c == '?' || c == '"' || c == '<' || c
            == '>' || c == '|' {
            '_'
        } else {
            c
        };
        push_char(&mut s, d);
        assert(s@ =~= Seq::new(it.index() as nat + 1, |i: int| sanitized_char(filename@[i])));
    }
    assert(s@ =~= Seq::new(filename@.len(), |i: int| sanitized_char(filename@[i])));
    s
}

} // verus!
