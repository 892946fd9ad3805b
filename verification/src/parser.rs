//! The text of a line: the indentation it starts with, and the selector or
//! the declaration that it holds.

use crate::preprocessor::line::indentation::{
    indent_depth, indent_is_mixed, indent_kind, is_ascii_whitespace, lemma_whitespace_end_bounds,
    whitespace_end, Indentation as LineIndentation, IndentationKind,
};
use crate::preprocessor::line::CssLineKind;
use scan::{
    chars_of, find, find_char, is_name_char, lemma_find_bounds, lemma_name_end_bounds,
    lemma_trimmed_end_bounds, name_end, skip_whitespace, trim_end, trimmed_end, Span,
};
use selector::{match_name, parse_name, selector_spans, span_views, SelectorParser};
use vstd::prelude::*;

pub mod scan;
pub mod selector;

verus! {

/// Column of the first character that breaks the indentation of a line.
pub type IndentationErrorPos = usize;

/// The character a line is indented with, if it is indented.
pub type IndentationMode = Option<Indentation>;

/// The character a line is indented with.
#[derive(Clone, Copy, Debug, PartialEq, Eq, Structural)]
pub enum Indentation {
    Space,
    Tab,
}

impl Indentation {
    /// The same character, as a kind of line indentation.
    pub open spec fn kind(self) -> IndentationKind {
        match self {
            Indentation::Space => IndentationKind::Space,
            Indentation::Tab => IndentationKind::Tab,
        }
    }

    /// Finds the character that `line` is indented with.
    ///
    /// Fails with the column of the first whitespace character that differs
    /// from the one the line started with.
    pub fn check_mode(line: &str) -> (res: Result<IndentationMode, IndentationErrorPos>)
        ensures
            match res {
                Ok(None) => indent_kind(line@) == IndentationKind::Absent,
                Ok(Some(mode)) => !indent_is_mixed(line@) && mode.kind() == indent_kind(line@),
                Err(col) => indent_is_mixed(line@) && col == indent_depth(line@),
            },
    {
        match LineIndentation::of_line(line) {
            Err(col) => Err(col),
            Ok(indent) => match indent.kind {
                IndentationKind::Absent => Ok(None),
                IndentationKind::Space => Ok(Some(Indentation::Space)),
                IndentationKind::Tab => Ok(Some(Indentation::Tab)),
            },
        }
    }
}

/// Recognises the text of the lines of a Smiley source: selectors on the
/// lines that open a block, declarations on the others.
pub struct SmileyParser;

/// A declaration: the stretch of its property name, the stretch of its
/// value, and whether it is marked as important.
#[derive(Clone, Copy, Debug, PartialEq, Eq, Structural)]
pub struct Declaration {
    pub property: Span,
    pub value: Span,
    pub important: bool,
}

/// What a line says.
#[derive(Clone, Debug, PartialEq, Eq)]
pub enum Statement {
    /// A selector, as its basic selectors.
    Selector(Vec<Span>),
    /// A declaration.
    Declaration(Declaration),
}

/// A declaration as plain values.
pub struct DeclarationView {
    pub property: (int, int),
    pub value: (int, int),
    pub important: bool,
}

impl View for Declaration {
    type V = DeclarationView;

    open spec fn view(&self) -> DeclarationView {
        DeclarationView {
            property: (self.property.start as int, self.property.end as int),
            value: (self.value.start as int, self.value.end as int),
            important: self.important,
        }
    }
}

/// The word `word` stands at `at`.
pub open spec fn has_word(s: Seq<char>, at: int, word: Seq<char>) -> bool {
    0 <= at && at + word.len() <= s.len() && s.subrange(at, at + word.len()) == word
}

/// What follows the `!` of a declaration, from `from` to the end of the
/// text: the word `important`, with whitespace around it at will.
pub open spec fn is_important(s: Seq<char>, from: int) -> bool {
    let at = whitespace_end(s, from);
    has_word(s, at, "important"@) && whitespace_end(s, at + "important"@.len()) >= s.len()
}

/// The parts of the declaration `s`, if `s` is one: a property name, a
/// colon, a value, and perhaps `!` and `important`. Whitespace may stand
/// around each of them. The value goes up to the first `!` or to the end of
/// the text, without the whitespace at its end, and is not empty.
pub open spec fn declaration_parts(s: Seq<char>) -> Option<DeclarationView> {
    let start = whitespace_end(s, 0);
    match match_name(s, start) {
        None => None,
        Some(name) => {
            let colon = whitespace_end(s, name);
            let value = whitespace_end(s, colon + 1);
            let bang = find(s, '!', value);
            let end = trimmed_end(s, value, bang);
            if !(0 <= colon < s.len() && s[colon] == ':') {
                None
            } else if end <= value {
                None
            } else if bang >= s.len() {
                Some(
                    DeclarationView {
                        property: (start, name),
                        value: (value, end),
                        important: false,
                    },
                )
            } else if is_important(s, bang + 1) {
                Some(
                    DeclarationView {
                        property: (start, name),
                        value: (value, end),
                        important: true,
                    },
                )
            } else {
                None
            }
        },
    }
}

/// The parts of a declaration lie in the text in the order in which they
/// are written. Only whitespace stands before the property, which is a
/// name; whitespace and one colon stand between the property and the value;
/// the value starts and ends with something other than whitespace and holds
/// no `!`; and the declaration is important exactly if a `!` follows.
pub proof fn lemma_declaration_parts_are_ordered(s: Seq<char>)
    requires
        declaration_parts(s) is Some,
    ensures
        ({
            let parts = declaration_parts(s)->0;
            let colon = whitespace_end(s, parts.property.1);
            &&& 0 <= parts.property.0 < parts.property.1 <= colon < parts.value.0
                < parts.value.1 <= s.len()
            &&& forall|i: int| 0 <= i < parts.property.0 ==> is_ascii_whitespace(#[trigger] s[i])
            &&& forall|i: int|
                parts.property.0 <= i < parts.property.1 ==> is_name_char(#[trigger] s[i])
            &&& s[colon] == ':'
            &&& forall|i: int| colon < i < parts.value.0 ==> is_ascii_whitespace(#[trigger] s[i])
            &&& !is_ascii_whitespace(s[parts.value.0])
            &&& !is_ascii_whitespace(s[parts.value.1 - 1])
            &&& forall|i: int| parts.value.0 <= i < parts.value.1 ==> #[trigger] s[i] != '!'
            &&& parts.important <==> exists|i: int|
                parts.value.1 <= i < s.len() && #[trigger] s[i] == '!'
        }),
{
    let parts = declaration_parts(s)->0;
    let start = whitespace_end(s, 0);
    lemma_whitespace_end_bounds(s, 0);
    lemma_name_end_bounds(s, start);
    let name = name_end(s, start);
    lemma_whitespace_end_bounds(s, name);
    let colon = whitespace_end(s, name);
    lemma_whitespace_end_bounds(s, colon + 1);
    let value = whitespace_end(s, colon + 1);
    lemma_find_bounds(s, '!', value);
    let bang = find(s, '!', value);
    lemma_trimmed_end_bounds(s, value, bang);
    if parts.important {
        assert(s[bang] == '!');
    } else {
        assert forall|i: int| parts.value.1 <= i < s.len() implies #[trigger] s[i] != '!' by {
            if i >= value {
                assert(s[i] != '!');
            }
        }
    }
}

/// Whether the word `word` stands at `at`.
pub fn starts_with_word(s: &Vec<char>, at: usize, word: &Vec<char>) -> (b: bool)
    requires
        at <= s@.len(),
    ensures
        b == has_word(s@, at as int, word@),
{
    if word.len() > s.len() - at {
        return false;
    }
    let mut i: usize = 0;
    while i < word.len()
        invariant
            i <= word@.len(),
            at + word@.len() <= s@.len() <= usize::MAX,
            forall|j: int| 0 <= j < i ==> s@[at + j] == #[trigger] word@[j],
        decreases word@.len() - i,
    {
        if s[at + i] != word[i] {
            return false;
        }
        i += 1;
    }
    assert(s@.subrange(at as int, at + word@.len()) =~= word@);
    true
}

/// Whether the text from `from` on marks a declaration as important.
fn parse_important(s: &Vec<char>, from: usize) -> (b: bool)
    requires
        from <= s@.len(),
    ensures
        b == is_important(s@, from as int),
{
    let at = skip_whitespace(s, from);
    let word = chars_of("important");
    if !starts_with_word(s, at, &word) {
        return false;
    }
    let len: usize = s.len();
    let end = skip_whitespace(s, at + word.len());
    end >= len
}

impl SmileyParser {
    /// Reads `input` as a selector.
    ///
    /// Gives the basic selectors that `input` is made of, or nothing if
    /// `input` is no selector.
    pub fn parse_selector(input: &str) -> (res: Option<Vec<Span>>)
        ensures
            res matches Some(spans) ==> selector_spans(input@) == Some(span_views(spans@)),
            res is None ==> selector_spans(input@) is None,
    {
        SelectorParser::parse(input)
    }

    /// Reads `input` as a declaration.
    ///
    /// Gives the parts of the declaration, or nothing if `input` is no
    /// declaration.
    pub fn parse_declaration(input: &str) -> (res: Option<Declaration>)
        ensures
            res matches Some(declaration) ==> declaration_parts(input@) == Some(declaration@),
            res is None ==> declaration_parts(input@) is None,
    {
        let s = chars_of(input);
        let start = skip_whitespace(&s, 0);
        let name = match parse_name(&s, start) {
            Some(end) => end,
            None => {
                return None;
            },
        };
        let colon = skip_whitespace(&s, name);
        if colon >= s.len() || s[colon] != ':' {
            return None;
        }
        let value = skip_whitespace(&s, colon + 1);
        let bang = find_char(&s, '!', value);
        let end = trim_end(&s, value, bang);
        if end <= value {
            return None;
        }
        let important = bang < s.len();
        if important && !parse_important(&s, bang + 1) {
            return None;
        }
        Some(
            Declaration {
                property: Span { start, end: name },
                value: Span { start: value, end },
                important,
            },
        )
    }

    /// Reads the text of a line of kind `kind`: a selector on a line that
    /// opens a block, a declaration on a leaf.
    pub fn parse(kind: CssLineKind, input: &str) -> (res: Option<Statement>)
        ensures
            match res {
                Some(Statement::Selector(spans)) => kind == CssLineKind::Selector
                    && selector_spans(input@) == Some(span_views(spans@)),
                Some(Statement::Declaration(declaration)) => kind == CssLineKind::Property
                    && declaration_parts(input@) == Some(declaration@),
                None => match kind {
                    CssLineKind::Selector => selector_spans(input@) is None,
                    CssLineKind::Property => declaration_parts(input@) is None,
                },
            },
    {
        match kind {
            CssLineKind::Selector => match SmileyParser::parse_selector(input) {
                Some(spans) => Some(Statement::Selector(spans)),
                None => None,
            },
            CssLineKind::Property => match SmileyParser::parse_declaration(input) {
                Some(declaration) => Some(Statement::Declaration(declaration)),
                None => None,
            },
        }
    }
}

} // verus!
