//! Scanning of characters: runs of one sort, and the search for one.

use crate::preprocessor::line::indentation::{
    is_ascii_space, is_ascii_whitespace, whitespace_end,
};
use vstd::prelude::*;
use vstd::std_specs::iter::IteratorSpec;

verus! {

/// A stretch of text, from the index `start` up to and without `end`.
#[derive(Clone, Copy, Debug, PartialEq, Eq, Structural)]
pub struct Span {
    pub start: usize,
    pub end: usize,
}

/// The characters of names: the letters and digits of ASCII, `-` and `_`.
pub open spec fn is_name_char(c: char) -> bool {
    ||| 'a' <= c <= 'z'
    ||| 'A' <= c <= 'Z'
    ||| '0' <= c <= '9'
    ||| c == '-'
    ||| c == '_'
}

/// Where the run of name characters that covers `from` ends.
pub open spec fn name_end(s: Seq<char>, from: int) -> int
    decreases s.len() - from,
{
    if 0 <= from < s.len() && is_name_char(s[from]) {
        name_end(s, from + 1)
    } else {
        from
    }
}

/// The first index at or after `from` that holds `c`, or the length of `s`
/// if there is none.
pub open spec fn find(s: Seq<char>, c: char, from: int) -> int
    decreases s.len() - from,
{
    if 0 <= from < s.len() && s[from] != c {
        find(s, c, from + 1)
    } else {
        from
    }
}

/// Where the text between `from` and `to` ends once the whitespace at its
/// end is taken off.
pub open spec fn trimmed_end(s: Seq<char>, from: int, to: int) -> int
    decreases to - from,
{
    if from < to <= s.len() && is_ascii_whitespace(s[to - 1]) {
        trimmed_end(s, from, to - 1)
    } else {
        to
    }
}

/// A run of name characters stays within the text.
pub proof fn lemma_name_end_bounds(s: Seq<char>, from: int)
    requires
        0 <= from <= s.len(),
    ensures
        from <= name_end(s, from) <= s.len(),
        forall|i: int| from <= i < name_end(s, from) ==> is_name_char(#[trigger] s[i]),
        name_end(s, from) < s.len() ==> !is_name_char(s[name_end(s, from)]),
    decreases s.len() - from,
{
    if from < s.len() && is_name_char(s[from]) {
        lemma_name_end_bounds(s, from + 1);
    }
}

/// A search stays within the text, passes nothing that it looks for, and
/// stops at what it looks for.
pub proof fn lemma_find_bounds(s: Seq<char>, c: char, from: int)
    requires
        0 <= from <= s.len(),
    ensures
        from <= find(s, c, from) <= s.len(),
        forall|i: int| from <= i < find(s, c, from) ==> #[trigger] s[i] != c,
        find(s, c, from) < s.len() ==> s[find(s, c, from)] == c,
    decreases s.len() - from,
{
    if from < s.len() && s[from] != c {
        lemma_find_bounds(s, c, from + 1);
    }
}

/// Trimming leaves an end between the two bounds, with no whitespace before
/// it.
pub proof fn lemma_trimmed_end_bounds(s: Seq<char>, from: int, to: int)
    requires
        0 <= from <= to <= s.len(),
    ensures
        from <= trimmed_end(s, from, to) <= to,
        trimmed_end(s, from, to) > from ==> !is_ascii_whitespace(
            s[trimmed_end(s, from, to) - 1],
        ),
        forall|i: int|
            trimmed_end(s, from, to) <= i < to ==> is_ascii_whitespace(#[trigger] s[i]),
    decreases to - from,
{
    if from < to && is_ascii_whitespace(s[to - 1]) {
        lemma_trimmed_end_bounds(s, from, to - 1);
    }
}

/// Whether `c` may stand in a name.
pub fn is_name(c: char) -> (b: bool)
    ensures
        b == is_name_char(c),
{
    ('a' <= c && c <= 'z') || ('A' <= c && c <= 'Z') || ('0' <= c && c <= '9') || c == '-' || c
        == '_'
}

/// The characters of `input`, one by one.
pub fn chars_of(input: &str) -> (chars: Vec<char>)
    ensures
        chars@ == input@,
{
    let mut chars: Vec<char> = Vec::new();
    let mut rest = input.chars();
    loop
        invariant
            chars@.len() <= input@.len(),
            chars@ == input@.take(chars@.len() as int),
            rest.remaining() == input@.skip(chars@.len() as int),
        decreases input@.len() - chars@.len(),
    {
        match rest.next() {
            None => {
                return chars;
            },
            Some(c) => {
                chars.push(c);
            },
        }
    }
}

/// Passes the whitespace that starts at `from`.
pub fn skip_whitespace(s: &Vec<char>, from: usize) -> (end: usize)
    requires
        from <= s@.len(),
    ensures
        end == whitespace_end(s@, from as int),
        from <= end <= s@.len(),
{
    let mut i: usize = from;
    while i < s.len() && is_ascii_space(s[i])
        invariant
            from <= i <= s@.len(),
            whitespace_end(s@, i as int) == whitespace_end(s@, from as int),
        decreases s@.len() - i,
    {
        i += 1;
    }
    i
}

/// Passes the name characters that start at `from`.
pub fn skip_name(s: &Vec<char>, from: usize) -> (end: usize)
    requires
        from <= s@.len(),
    ensures
        end == name_end(s@, from as int),
        from <= end <= s@.len(),
{
    let mut i: usize = from;
    while i < s.len() && is_name(s[i])
        invariant
            from <= i <= s@.len(),
            name_end(s@, i as int) == name_end(s@, from as int),
        decreases s@.len() - i,
    {
        i += 1;
    }
    i
}

/// Looks for `c` from `from` on.
pub fn find_char(s: &Vec<char>, c: char, from: usize) -> (at: usize)
    requires
        from <= s@.len(),
    ensures
        at == find(s@, c, from as int),
        from <= at <= s@.len(),
{
    let mut i: usize = from;
    while i < s.len() && s[i] != c
        invariant
            from <= i <= s@.len(),
            find(s@, c, i as int) == find(s@, c, from as int),
        decreases s@.len() - i,
    {
        i += 1;
    }
    i
}

/// Takes the whitespace off the end of the text between `from` and `to`.
pub fn trim_end(s: &Vec<char>, from: usize, to: usize) -> (end: usize)
    requires
        from <= to <= s@.len(),
    ensures
        end == trimmed_end(s@, from as int, to as int),
        from <= end <= to,
{
    let mut i: usize = to;
    while i > from && is_ascii_space(s[i - 1])
        invariant
            from <= i <= to,
            to <= s@.len(),
            trimmed_end(s@, from as int, i as int) == trimmed_end(s@, from as int, to as int),
        decreases i - from,
    {
        i -= 1;
    }
    i
}

} // verus!
