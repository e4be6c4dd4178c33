//! Conversion of schema names into the identifiers of the output.
use vstd::prelude::*;
use crate::text::push_char;

verus! {

/// The upper-case form of an ASCII letter; other characters are kept.
pub open spec fn upper(c: char) -> char {
    if 'a' <= c && c <= 'z' {
        ((c as u8) - 32) as char
    } else {
        c
    }
}

/// The lower-case form of an ASCII letter; other characters are kept.
pub open spec fn lower(c: char) -> char {
    if 'A' <= c && c <= 'Z' {
        ((c as u8) + 32) as char
    } else {
        c
    }
}

pub open spec fn is_upper(c: char) -> bool {
    'A' <= c && c <= 'Z'
}

/// Characters that separate the words of a name.
pub open spec fn is_sep(c: char) -> bool {
    c == '_' || c == '-' || c == '.' || c == ' '
}

/// A name in upper camel case: separators are dropped and the first letter
/// of each word is upper-cased.
pub open spec fn pascal(s: Seq<char>) -> Seq<char>
    decreases s.len(),
{
    if s.len() == 0 {
        Seq::empty()
    } else {
        let c = s.last();
        let starts = s.len() == 1 || is_sep(s[s.len() - 2]);
        pascal(s.drop_last()) + if is_sep(c) {
            Seq::empty()
        } else if starts {
            seq![upper(c)]
        } else {
            seq![c]
        }
    }
}

/// A name in snake case: an upper-case letter after the first character
/// opens a new word, letters are lower-cased and separators become `_`.
pub open spec fn snake(s: Seq<char>) -> Seq<char>
    decreases s.len(),
{
    if s.len() == 0 {
        Seq::empty()
    } else {
        let c = s.last();
        snake(s.drop_last()) + if is_sep(c) {
            seq!['_']
        } else if is_upper(c) && s.len() > 1 {
            seq!['_', lower(c)]
        } else {
            seq![lower(c)]
        }
    }
}

fn upper_char(c: char) -> (r: char)
    ensures
        r == upper(c),
{
    if 'a' <= c && c <= 'z' {
        ((c as u8) - 32) as char
    } else {
        c
    }
}

fn lower_char(c: char) -> (r: char)
    ensures
        r == lower(c),
{
    if 'A' <= c && c <= 'Z' {
        ((c as u8) + 32) as char
    } else {
        c
    }
}

fn sep_char(c: char) -> (r: bool)
    ensures
        r == is_sep(c),
{
    c == '_' || c == '-' || c == '.' || c == ' '
}

/// The upper camel case form of a name.
pub fn to_pascal_case(s: &str) -> (r: String)
    ensures
        r@ == pascal(s@),
{
    let n = s.unicode_len();
    let mut out = String::new();
    let mut i: usize = 0;
    while i < n
        invariant
            n == s@.len(),
            i <= n,
            out@ == pascal(s@.subrange(0, i as int)),
        decreases n - i,
    {
        let ghost pre = s@.subrange(0, i + 1);
        assert(pre.drop_last() == s@.subrange(0, i as int));
        let c = s.get_char(i);
        let starts = i == 0 || sep_char(s.get_char(i - 1));
        if !sep_char(c) {
            if starts {
                push_char(&mut out, upper_char(c));
            } else {
                push_char(&mut out, c);
            }
        }
        assert(out@ =~= pascal(pre));
        i = i + 1;
    }
    assert(s@.subrange(0, n as int) == s@);
    out
}

/// The snake case form of a name.
pub fn to_snake_case(s: &str) -> (r: String)
    ensures
        r@ == snake(s@),
{
    let n = s.unicode_len();
    let mut out = String::new();
    let mut i: usize = 0;
    while i < n
        invariant
            n == s@.len(),
            i <= n,
            out@ == snake(s@.subrange(0, i as int)),
        decreases n - i,
    {
        let ghost pre = s@.subrange(0, i + 1);
        assert(pre.drop_last() == s@.subrange(0, i as int));
        let c = s.get_char(i);
        if sep_char(c) {
            push_char(&mut out, '_');
        } else if 'A' <= c && c <= 'Z' && i > 0 {
            push_char(&mut out, '_');
            push_char(&mut out, lower_char(c));
        } else {
            push_char(&mut out, lower_char(c));
        }
        assert(out@ =~= snake(pre));
        i = i + 1;
    }
    assert(s@.subrange(0, n as int) == s@);
    out
}

} // verus!
