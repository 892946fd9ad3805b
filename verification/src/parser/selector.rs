//! The grammar of selectors.
//!
//! A selector is one or more basic selectors with whitespace between them. A
//! basic selector is a tag name, terms, or a tag name followed by terms. A
//! term is `#` and a name, `.` and a name, or an attribute in brackets: a
//! name, an operator and a value, then perhaps whitespace and a case flag.
//!
//! The grammar is read as a parsing expression grammar: each part takes as
//! much of the text as it can, and a part that has matched is not tried
//! again in another way.

use super::scan::{
    chars_of, find, find_char, is_name_char, lemma_find_bounds, lemma_name_end_bounds, name_end,
    skip_name, skip_whitespace, Span,
};
use crate::preprocessor::line::indentation::{lemma_whitespace_end_bounds, whitespace_end};
use vstd::prelude::*;

verus! {

/// Recognises selectors.
pub struct SelectorParser;

/// The characters that stand before `=` in an operator of two characters.
pub open spec fn is_operator_mark(c: char) -> bool {
    c == '~' || c == '|' || c == '^' || c == '$' || c == '*'
}

/// The flags that say whether the case of a value matters.
pub open spec fn is_case_flag(c: char) -> bool {
    c == 'i' || c == 'I' || c == 's' || c == 'S'
}

/// The characters that open and close a quoted value.
pub open spec fn is_quote(c: char) -> bool {
    c == '"' || c == '\''
}

/// A name at `from`: one name character or more. Gives the index behind it.
pub open spec fn match_name(s: Seq<char>, from: int) -> Option<int> {
    if name_end(s, from) > from {
        Some(name_end(s, from))
    } else {
        None
    }
}

/// An operator at `from`: `=`, or one of `~ | ^ $ *` and `=`.
pub open spec fn match_operator(s: Seq<char>, from: int) -> Option<int> {
    if 0 <= from < s.len() && s[from] == '=' {
        Some(from + 1)
    } else if 0 <= from && from + 1 < s.len() && is_operator_mark(s[from]) && s[from + 1] == '=' {
        Some(from + 2)
    } else {
        None
    }
}

/// A quoted value at `from`: a quote, any characters but that quote, and
/// that quote again.
pub open spec fn match_quoted(s: Seq<char>, from: int) -> Option<int> {
    if 0 <= from < s.len() && is_quote(s[from]) && find(s, s[from], from + 1) < s.len() {
        Some(find(s, s[from], from + 1) + 1)
    } else {
        None
    }
}

/// A value at `from`: quoted, or a name.
pub open spec fn match_value(s: Seq<char>, from: int) -> Option<int> {
    match match_quoted(s, from) {
        Some(end) => Some(end),
        None => match_name(s, from),
    }
}

/// A case flag at `from`: whitespace, then the flag.
pub open spec fn match_flag(s: Seq<char>, from: int) -> Option<int> {
    let at = whitespace_end(s, from);
    if from < at < s.len() && is_case_flag(s[at]) {
        Some(at + 1)
    } else {
        None
    }
}

/// What follows the value of an attribute, from `from`: perhaps a case
/// flag, perhaps whitespace, and the closing bracket.
pub open spec fn match_attribute_end(s: Seq<char>, from: int) -> Option<int> {
    let flagged = match match_flag(s, from) {
        Some(end) => end,
        None => from,
    };
    let close = whitespace_end(s, flagged);
    if 0 <= close < s.len() && s[close] == ']' {
        Some(close + 1)
    } else {
        None
    }
}

/// An attribute at `from`: in brackets a name, an operator and a value,
/// perhaps a case flag. Whitespace may stand around each of them.
pub open spec fn match_attribute(s: Seq<char>, from: int) -> Option<int> {
    if 0 <= from < s.len() && s[from] == '[' {
        match match_name(s, whitespace_end(s, from + 1)) {
            None => None,
            Some(name) => match match_operator(s, whitespace_end(s, name)) {
                None => None,
                Some(operator) => match match_value(s, whitespace_end(s, operator)) {
                    None => None,
                    Some(value) => match_attribute_end(s, value),
                },
            },
        }
    } else {
        None
    }
}

/// A term at `from`: `#` and a name, `.` and a name, or an attribute.
pub open spec fn match_term(s: Seq<char>, from: int) -> Option<int> {
    if 0 <= from < s.len() && (s[from] == '#' || s[from] == '.') {
        match_name(s, from + 1)
    } else {
        match_attribute(s, from)
    }
}

/// Where the terms that start at `from` end: at `from` if there is none.
pub open spec fn terms_end(s: Seq<char>, from: int) -> int
    decreases s.len() - from,
{
    match match_term(s, from) {
        Some(end) => if from < end <= s.len() {
            terms_end(s, end)
        } else {
            from
        },
        None => from,
    }
}

/// A basic selector at `from`: a tag name, terms, or both.
pub open spec fn match_basic(s: Seq<char>, from: int) -> Option<int> {
    if terms_end(s, name_end(s, from)) > from {
        Some(terms_end(s, name_end(s, from)))
    } else {
        None
    }
}

/// The basic selectors of a selector that starts at `from` and goes to the
/// end of the text, each with its start and its end. Whitespace parts them
/// and may follow the last.
pub open spec fn spans_from(s: Seq<char>, from: int) -> Option<Seq<(int, int)>>
    decreases s.len() - from,
{
    match match_basic(s, from) {
        None => None,
        Some(end) => {
            let next = whitespace_end(s, end);
            if next >= s.len() {
                Some(seq![(from, end)])
            } else if from < end < next {
                match spans_from(s, next) {
                    None => None,
                    Some(rest) => Some(seq![(from, end)] + rest),
                }
            } else {
                None
            }
        },
    }
}

/// The basic selectors of the selector `s`, if `s` is one. Whitespace may
/// stand before the first.
pub open spec fn selector_spans(s: Seq<char>) -> Option<Seq<(int, int)>> {
    spans_from(s, whitespace_end(s, 0))
}

/// Spans as pairs of numbers.
pub open spec fn span_views(spans: Seq<Span>) -> Seq<(int, int)> {
    spans.map_values(|span: Span| (span.start as int, span.end as int))
}

/// A name at `from` is the longest stretch of name characters there, and is
/// not empty.
pub proof fn lemma_name_is_longest(s: Seq<char>, from: int)
    requires
        0 <= from <= s.len(),
    ensures
        match_name(s, from) is Some <==> from < s.len() && is_name_char(s[from]),
        match_name(s, from) matches Some(end) ==> {
            &&& from < end <= s.len()
            &&& forall|i: int| from <= i < end ==> is_name_char(#[trigger] s[i])
            &&& end < s.len() ==> !is_name_char(s[end])
        },
{
    lemma_name_end_bounds(s, from);
}

/// A quoted value at `from` goes from its quote to the next quote of the
/// same sort, whatever stands between them.
pub proof fn lemma_quoted_ends_at_next_quote(s: Seq<char>, from: int)
    requires
        0 <= from <= s.len(),
    ensures
        match_quoted(s, from) is Some <==> from < s.len() && is_quote(s[from]) && exists|i: int|
            from < i < s.len() && #[trigger] s[i] == s[from],
        match_quoted(s, from) matches Some(end) ==> {
            &&& from + 2 <= end <= s.len()
            &&& s[end - 1] == s[from]
            &&& forall|i: int| from < i < end - 1 ==> #[trigger] s[i] != s[from]
        },
{
    if from < s.len() && is_quote(s[from]) {
        lemma_find_bounds(s, s[from], from + 1);
        let close = find(s, s[from], from + 1);
        if close < s.len() {
            assert(s[close] == s[from]);
        } else {
            assert forall|i: int| from < i < s.len() implies #[trigger] s[i] != s[from] by {}
        }
    }
}

/// An attribute stands in brackets: it starts with `[`, ends with `]`, and
/// holds at least a name, an operator and a value between them.
pub proof fn lemma_attribute_is_bracketed(s: Seq<char>, from: int)
    requires
        match_attribute(s, from) is Some,
    ensures
        s[from] == '[',
        from + 4 < match_attribute(s, from)->0 <= s.len(),
        s[match_attribute(s, from)->0 - 1] == ']',
        exists|i: int| from < i < match_attribute(s, from)->0 - 1 && #[trigger] s[i] == '=',
{
    lemma_whitespace_end_bounds(s, from + 1);
    let name = match_name(s, whitespace_end(s, from + 1))->0;
    lemma_name_end_bounds(s, whitespace_end(s, from + 1));
    lemma_whitespace_end_bounds(s, name);
    let at = whitespace_end(s, name);
    let operator = match_operator(s, at)->0;
    lemma_whitespace_end_bounds(s, operator);
    let start = whitespace_end(s, operator);
    let value = match_value(s, start)->0;
    if match_quoted(s, start) is Some {
        lemma_find_bounds(s, s[start], start + 1);
    } else {
        lemma_name_end_bounds(s, start);
    }
    lemma_whitespace_end_bounds(s, value);
    let flagged = match match_flag(s, value) {
        Some(end) => end,
        None => value,
    };
    lemma_whitespace_end_bounds(s, flagged);
}

/// The terms that start within the text end within it.
pub proof fn lemma_terms_end_bounds(s: Seq<char>, from: int)
    requires
        0 <= from <= s.len(),
    ensures
        from <= terms_end(s, from) <= s.len(),
    decreases s.len() - from,
{
    match match_term(s, from) {
        Some(end) => {
            if from < end <= s.len() {
                lemma_terms_end_bounds(s, end);
            }
        },
        None => {},
    }
}

/// A basic selector is not empty and lies within the text.
pub proof fn lemma_basic_bounds(s: Seq<char>, from: int)
    requires
        0 <= from <= s.len(),
    ensures
        match_basic(s, from) matches Some(end) ==> from < end <= s.len(),
{
    lemma_name_end_bounds(s, from);
    lemma_terms_end_bounds(s, name_end(s, from));
}

/// The basic selectors of a selector part its text: the first starts where
/// the selector starts, each is a basic selector that is not empty,
/// whitespace and nothing else lies between one and the next, with at least
/// one character of it, and nothing but whitespace follows the last.
pub proof fn lemma_spans_part_the_text(s: Seq<char>, from: int)
    requires
        0 <= from <= s.len(),
        spans_from(s, from) is Some,
    ensures
        spans_from(s, from)->0.len() > 0,
        spans_from(s, from)->0[0].0 == from,
        forall|i: int|
            0 <= i < spans_from(s, from)->0.len() ==> {
                let span = #[trigger] spans_from(s, from)->0[i];
                &&& 0 <= span.0 < span.1 <= s.len()
                &&& match_basic(s, span.0) == Some(span.1)
                &&& i + 1 < spans_from(s, from)->0.len() ==> span.1 < whitespace_end(s, span.1)
                    == spans_from(s, from)->0[i + 1].0
                &&& i + 1 == spans_from(s, from)->0.len() ==> whitespace_end(s, span.1)
                    == s.len()
            },
    decreases s.len() - from,
{
    let spans = spans_from(s, from)->0;
    let end = match_basic(s, from)->0;
    let next = whitespace_end(s, end);
    lemma_basic_bounds(s, from);
    lemma_whitespace_end_bounds(s, end);
    if next < s.len() {
        lemma_spans_part_the_text(s, next);
        let rest = spans_from(s, next)->0;
        assert forall|i: int| 0 <= i < spans.len() implies {
            let span = #[trigger] spans[i];
            &&& 0 <= span.0 < span.1 <= s.len()
            &&& match_basic(s, span.0) == Some(span.1)
            &&& i + 1 < spans.len() ==> span.1 < whitespace_end(s, span.1) == spans[i + 1].0
            &&& i + 1 == spans.len() ==> whitespace_end(s, span.1) == s.len()
        } by {
            if i > 0 {
                if i + 1 < spans.len() {
                    assert(spans[i + 1] == rest[i]);
                }
            } else {
                assert(spans[1] == rest[0]);
            }
        }
    }
}

/// Whether `c` is a case flag.
fn is_flag(c: char) -> (b: bool)
    ensures
        b == is_case_flag(c),
{
    c == 'i' || c == 'I' || c == 's' || c == 'S'
}

/// Matches a name at `from`.
pub fn parse_name(s: &Vec<char>, from: usize) -> (res: Option<usize>)
    requires
        from <= s@.len(),
    ensures
        res matches Some(end) ==> match_name(s@, from as int) == Some(end as int) && from < end
            <= s@.len(),
        res is None ==> match_name(s@, from as int) is None,
{
    let end = skip_name(s, from);
    if end > from {
        Some(end)
    } else {
        None
    }
}

/// Matches an operator at `from`.
fn parse_operator(s: &Vec<char>, from: usize) -> (res: Option<usize>)
    requires
        from <= s@.len(),
    ensures
        res matches Some(end) ==> match_operator(s@, from as int) == Some(end as int) && from
            < end <= s@.len(),
        res is None ==> match_operator(s@, from as int) is None,
{
    if from >= s.len() {
        return None;
    }
    let c = s[from];
    if c == '=' {
        return Some(from + 1);
    }
    let marks = c == '~' || c == '|' || c == '^' || c == '$' || c == '*';
    if marks && s.len() - from > 1 && s[from + 1] == '=' {
        Some(from + 2)
    } else {
        None
    }
}

/// Matches a value at `from`.
fn parse_value(s: &Vec<char>, from: usize) -> (res: Option<usize>)
    requires
        from <= s@.len(),
    ensures
        res matches Some(end) ==> match_value(s@, from as int) == Some(end as int) && from < end
            <= s@.len(),
        res is None ==> match_value(s@, from as int) is None,
{
    if from < s.len() && (s[from] == '"' || s[from] == '\'') {
        let close = find_char(s, s[from], from + 1);
        if close < s.len() {
            return Some(close + 1);
        }
    }
    parse_name(s, from)
}

/// Matches what follows the value of an attribute.
fn parse_attribute_end(s: &Vec<char>, from: usize) -> (res: Option<usize>)
    requires
        from <= s@.len(),
    ensures
        res matches Some(end) ==> match_attribute_end(s@, from as int) == Some(end as int)
            && from < end <= s@.len(),
        res is None ==> match_attribute_end(s@, from as int) is None,
{
    let at = skip_whitespace(s, from);
    let flagged: usize = if from < at && at < s.len() && is_flag(s[at]) {
        at + 1
    } else {
        from
    };
    let close = skip_whitespace(s, flagged);
    if close < s.len() && s[close] == ']' {
        Some(close + 1)
    } else {
        None
    }
}

/// Matches an attribute at `from`.
fn parse_attribute(s: &Vec<char>, from: usize) -> (res: Option<usize>)
    requires
        from <= s@.len(),
    ensures
        res matches Some(end) ==> match_attribute(s@, from as int) == Some(end as int) && from
            < end <= s@.len(),
        res is None ==> match_attribute(s@, from as int) is None,
{
    if from >= s.len() || s[from] != '[' {
        return None;
    }
    let name = match parse_name(s, skip_whitespace(s, from + 1)) {
        Some(end) => end,
        None => {
            return None;
        },
    };
    let operator = match parse_operator(s, skip_whitespace(s, name)) {
        Some(end) => end,
        None => {
            return None;
        },
    };
    let value = match parse_value(s, skip_whitespace(s, operator)) {
        Some(end) => end,
        None => {
            return None;
        },
    };
    parse_attribute_end(s, value)
}

/// Matches a term at `from`.
fn parse_term(s: &Vec<char>, from: usize) -> (res: Option<usize>)
    requires
        from <= s@.len(),
    ensures
        res matches Some(end) ==> match_term(s@, from as int) == Some(end as int) && from < end
            <= s@.len(),
        res is None ==> match_term(s@, from as int) is None,
{
    if from < s.len() && (s[from] == '#' || s[from] == '.') {
        parse_name(s, from + 1)
    } else {
        parse_attribute(s, from)
    }
}

/// Matches a basic selector at `from`.
pub fn parse_basic(s: &Vec<char>, from: usize) -> (res: Option<usize>)
    requires
        from <= s@.len(),
    ensures
        res matches Some(end) ==> match_basic(s@, from as int) == Some(end as int) && from < end
            <= s@.len(),
        res is None ==> match_basic(s@, from as int) is None,
{
    let tag = skip_name(s, from);
    let mut end: usize = tag;
    loop
        invariant
            from <= tag <= end <= s@.len(),
            tag == name_end(s@, from as int),
            terms_end(s@, end as int) == terms_end(s@, tag as int),
        decreases s@.len() - end,
    {
        match parse_term(s, end) {
            Some(next) => {
                end = next;
            },
            None => {
                return if end > from {
                    Some(end)
                } else {
                    None
                };
            },
        }
    }
}

/// The spans `done` followed by what is still to come.
pub open spec fn followed_by(done: Seq<(int, int)>, rest: Option<Seq<(int, int)>>) -> Option<
    Seq<(int, int)>,
> {
    match rest {
        None => None,
        Some(rest) => Some(done + rest),
    }
}

impl SelectorParser {
    /// Reads `input` as a selector.
    ///
    /// Gives the basic selectors that `input` is made of, in order, each as
    /// the stretch of characters it covers; or nothing if `input` is no
    /// selector.
    pub fn parse(input: &str) -> (res: Option<Vec<Span>>)
        ensures
            res matches Some(spans) ==> selector_spans(input@) == Some(span_views(spans@)),
            res is None ==> selector_spans(input@) is None,
    {
        let s = chars_of(input);
        let first = skip_whitespace(&s, 0);
        let mut spans: Vec<Span> = Vec::new();
        let mut from: usize = first;
        loop
            invariant
                s@ == input@,
                from <= s@.len(),
                selector_spans(input@) == followed_by(
                    span_views(spans@),
                    spans_from(s@, from as int),
                ),
            decreases s@.len() - from,
        {
            let end = match parse_basic(&s, from) {
                Some(end) => end,
                None => {
                    return None;
                },
            };
            let next = skip_whitespace(&s, end);
            let ghost done = span_views(spans@);
            spans.push(Span { start: from, end });
            if next >= s.len() {
                return Some(spans);
            }
            if next == end {
                return None;
            }
            proof {
                let rest = spans_from(s@, next as int);
                if rest is Some {
                    assert(done + (seq![(from as int, end as int)] + rest->0) =~= span_views(
                        spans@,
                    ) + rest->0);
                }
            }
            from = next;
        }
    }
}

} // verus!
