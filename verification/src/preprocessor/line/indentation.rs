//! The indentation of a single line.

use super::position::Col;
use vstd::prelude::*;
use vstd::std_specs::iter::IteratorSpec;

verus! {

/// The character a line is indented with.
#[derive(Clone, Copy, Debug, PartialEq, Eq, Structural)]
pub enum IndentationKind {
    Absent,
    Space,
    Tab,
}

/// Leading whitespace of a line: what it is made of and how long it is.
///
/// A line that starts with content has kind `Absent` and depth 0.
#[derive(Clone, Copy, Debug, PartialEq, Eq, Structural)]
pub struct Indentation {
    pub kind: IndentationKind,
    pub depth: usize,
}

/// The whitespace of ASCII: space, tab, line feed, form feed, carriage return.
pub open spec fn is_ascii_whitespace(c: char) -> bool {
    c == ' ' || c == '\t' || c == '\n' || c == '\x0C' || c == '\r'
}

/// The kind of indentation that starts with `c`.
pub open spec fn kind_of_char(c: char) -> IndentationKind {
    if c == ' ' {
        IndentationKind::Space
    } else if c == '\t' {
        IndentationKind::Tab
    } else {
        IndentationKind::Absent
    }
}

/// Where the run of `c` that covers `from` ends: the least index at or after
/// `from` that is past the line or holds another character.
pub open spec fn run_end(s: Seq<char>, c: char, from: int) -> int
    decreases s.len() - from,
{
    if 0 <= from < s.len() && s[from] == c {
        run_end(s, c, from + 1)
    } else {
        from
    }
}

/// The kind of a line's indentation, told by its first character.
pub open spec fn indent_kind(s: Seq<char>) -> IndentationKind {
    if s.len() == 0 {
        IndentationKind::Absent
    } else {
        kind_of_char(s[0])
    }
}

/// Length of the leading run of the indentation character; 0 for a line
/// that starts with content.
pub open spec fn indent_depth(s: Seq<char>) -> int {
    if indent_kind(s) == IndentationKind::Absent {
        0
    } else {
        run_end(s, s[0], 0)
    }
}

/// A line mixes its indentation when the run of its indentation character is
/// followed by whitespace of another sort.
pub open spec fn indent_is_mixed(s: Seq<char>) -> bool {
    &&& indent_kind(s) != IndentationKind::Absent
    &&& indent_depth(s) < s.len()
    &&& is_ascii_whitespace(s[indent_depth(s)])
}

/// Where the run of ASCII whitespace that covers `from` ends.
pub open spec fn whitespace_end(s: Seq<char>, from: int) -> int
    decreases s.len() - from,
{
    if 0 <= from < s.len() && is_ascii_whitespace(s[from]) {
        whitespace_end(s, from + 1)
    } else {
        from
    }
}

/// Number of whitespace characters a line starts with; the whole length of
/// a line that holds nothing else.
pub open spec fn leading_whitespace(s: Seq<char>) -> int {
    whitespace_end(s, 0)
}

/// The leading whitespace of a line is one character repeated.
pub open spec fn leading_whitespace_is_uniform(s: Seq<char>) -> bool {
    forall|i: int, j: int| 0 <= i < j < leading_whitespace(s) ==> s[i] == s[j]
}

/// The leading whitespace of a line holds both a space and a tab.
pub open spec fn leading_whitespace_is_mixed(s: Seq<char>) -> bool {
    exists|i: int, j: int|
        0 <= i < leading_whitespace(s) && 0 <= j < leading_whitespace(s) && s[i] == ' ' && s[j]
            == '\t'
}

/// A line that starts with whitespace which is neither space nor tab: a
/// line feed, a form feed or a carriage return. Such a line takes part in no
/// indentation, whatever follows its first character.
pub open spec fn starts_with_stray_whitespace(s: Seq<char>) -> bool {
    s.len() > 0 && is_ascii_whitespace(s[0]) && kind_of_char(s[0]) == IndentationKind::Absent
}

/// A run from `from` holds `c` up to `to`, and ends there.
pub proof fn lemma_run_end(s: Seq<char>, c: char, from: int, to: int)
    requires
        0 <= from <= to <= s.len(),
        forall|i: int| from <= i < to ==> s[i] == c,
        to < s.len() ==> s[to] != c,
    ensures
        run_end(s, c, from) == to,
    decreases to - from,
{
    if from < to {
        lemma_run_end(s, c, from + 1, to);
    }
}

/// The run of `c` from `from` stays within the line, holds nothing but `c`,
/// and is not followed by `c`.
pub proof fn lemma_run_end_bounds(s: Seq<char>, c: char, from: int)
    requires
        0 <= from <= s.len(),
    ensures
        from <= run_end(s, c, from) <= s.len(),
        forall|i: int| from <= i < run_end(s, c, from) ==> s[i] == c,
        run_end(s, c, from) < s.len() ==> s[run_end(s, c, from)] != c,
    decreases s.len() - from,
{
    if from < s.len() && s[from] == c {
        lemma_run_end_bounds(s, c, from + 1);
    }
}

/// The run of whitespace from `from` stays within the line, holds nothing
/// but whitespace, and is not followed by whitespace.
pub proof fn lemma_whitespace_end_bounds(s: Seq<char>, from: int)
    requires
        0 <= from <= s.len(),
    ensures
        from <= whitespace_end(s, from) <= s.len(),
        forall|i: int| from <= i < whitespace_end(s, from) ==> is_ascii_whitespace(s[i]),
        whitespace_end(s, from) < s.len() ==> !is_ascii_whitespace(s[whitespace_end(s, from)]),
    decreases s.len() - from,
{
    if from < s.len() && is_ascii_whitespace(s[from]) {
        lemma_whitespace_end_bounds(s, from + 1);
    }
}

/// A line whose leading whitespace is one character repeated is never
/// mixed, and its depth is the length of that whitespace. Lines that start
/// with stray whitespace are left out: their depth is 0.
pub proof fn lemma_uniform_whitespace_is_depth(s: Seq<char>)
    requires
        leading_whitespace_is_uniform(s),
        !starts_with_stray_whitespace(s),
    ensures
        !indent_is_mixed(s),
        indent_depth(s) == leading_whitespace(s),
{
    lemma_whitespace_end_bounds(s, 0);
    if indent_kind(s) != IndentationKind::Absent {
        let w = leading_whitespace(s);
        assert forall|i: int| 0 <= i < w implies #[trigger] s[i] == s[0] by {
            if i > 0 {
                assert(s[0] == s[i]);
            }
        }
        lemma_run_end(s, s[0], 0, w);
    }
}

/// A line that starts with a space or a tab and holds both in its leading
/// whitespace is mixed; its depth is then the column of the first character
/// that differs from the first one.
pub proof fn lemma_mixed_whitespace_is_error(s: Seq<char>)
    requires
        leading_whitespace_is_mixed(s),
        !starts_with_stray_whitespace(s),
    ensures
        indent_is_mixed(s),
        0 < indent_depth(s) < leading_whitespace(s),
        s[indent_depth(s)] != s[0],
        forall|i: int| 0 <= i < indent_depth(s) ==> #[trigger] s[i] == s[0],
{
    lemma_whitespace_end_bounds(s, 0);
    let w = leading_whitespace(s);
    let (i, j) = choose|i: int, j: int|
        0 <= i < w && 0 <= j < w && s[i] == ' ' && s[j] == '\t';
    lemma_run_end_bounds(s, s[0], 0);
    let d = run_end(s, s[0], 0);
    if s[0] == ' ' {
        assert(d <= j);
    } else {
        assert(d <= i);
    }
}

/// Whether `c` is whitespace of ASCII.
pub fn is_ascii_space(c: char) -> (b: bool)
    ensures
        b == is_ascii_whitespace(c),
{
    c == ' ' || c == '\t' || c == '\n' || c == '\x0C' || c == '\r'
}

impl Indentation {
    /// What holds of every indentation that is measured: it has depth 0
    /// exactly if it has no character.
    pub open spec fn wf(self) -> bool {
        self.kind == IndentationKind::Absent <==> self.depth == 0
    }

    /// No indentation at all.
    pub fn none() -> (indent: Self)
        ensures
            indent == (Indentation { kind: IndentationKind::Absent, depth: 0 }),
            indent.wf(),
    {
        Self { kind: IndentationKind::Absent, depth: 0 }
    }

    /// Measures the indentation of `line`.
    ///
    /// Fails with the column of the first whitespace character that differs
    /// from the one the line started with.
    #[verifier::loop_isolation(false)]
    pub fn of_line(line: &str) -> (res: Result<Indentation, Col>)
        ensures
            match res {
                Ok(indent) => {
                    &&& !indent_is_mixed(line@)
                    &&& indent.kind == indent_kind(line@)
                    &&& indent.depth == indent_depth(line@)
                    &&& indent.depth <= line@.len()
                    &&& indent.wf()
                },
                Err(col) => indent_is_mixed(line@) && col == indent_depth(line@),
            },
            leading_whitespace_is_uniform(line@) && !starts_with_stray_whitespace(line@) ==> (
            res matches Ok(indent) && indent.depth == leading_whitespace(line@)),
            leading_whitespace_is_mixed(line@) && !starts_with_stray_whitespace(line@) ==> (
            res matches Err(col) && line@[col as int] != line@[0] && forall|i: int|
                0 <= i < col ==> #[trigger] line@[i] == line@[0]),
    {
        proof {
            if !starts_with_stray_whitespace(line@) {
                if leading_whitespace_is_uniform(line@) {
                    lemma_uniform_whitespace_is_depth(line@);
                }
                if leading_whitespace_is_mixed(line@) {
                    lemma_mixed_whitespace_is_error(line@);
                }
            }
        }
        let len: usize = line.unicode_len();
        let mut chars = line.chars();
        let kind = match chars.next() {
            Some(' ') => IndentationKind::Space,
            Some('\t') => IndentationKind::Tab,
            _ => { return Ok(Indentation::none()); },
        };
        let ghost first: char = line@[0];
        let mut i: usize = 1;
        loop
            invariant
                1 <= i <= len,
                len == line@.len(),
                first == line@[0],
                kind == kind_of_char(first),
                kind != IndentationKind::Absent,
                chars.remaining() == line@.skip(i as int),
                forall|j: int| 0 <= j < i ==> line@[j] == first,
            decreases len - i,
        {
            match chars.next() {
                None => {
                    proof {
                        lemma_run_end(line@, first, 0, i as int);
                    }
                    return Ok(Indentation { kind, depth: i });
                },
                Some(c) => {
                    let consistent = (kind == IndentationKind::Space && c == ' ') || (kind
                        == IndentationKind::Tab && c == '\t');
                    if !consistent {
                        proof {
                            lemma_run_end(line@, first, 0, i as int);
                        }
                        if is_ascii_space(c) {
                            return Err(i);
                        }
                        return Ok(Indentation { kind, depth: i });
                    }
                    i += 1;
                },
            }
        }
    }
}

} // verus!
