//! One line of a source file.

use indentation::Indentation;
use position::Row;
use vstd::prelude::*;

pub mod builder;
pub mod error;
pub mod indentation;
pub mod nesting;
pub mod position;

verus! {

/// What a line holds.
#[derive(Clone, Debug)]
pub enum Content {
    /// The end of the file: the line after the last one.
    Eof,
    /// The text of a line, without its indentation.
    Value(String),
}

/// A line with content, and how far it is indented.
#[derive(Clone, Debug)]
pub struct Line {
    pub content: Content,
    pub indentation: Indentation,
}

/// A line together with its row in the file.
pub type NumberedLine = (Row, Line);

/// The part a line plays in a stylesheet.
#[derive(Clone, Copy, Debug, PartialEq, Eq, Structural)]
pub enum CssLineKind {
    /// The line opens a block: the next line lies deeper.
    Selector,
    /// The line is a leaf of the block it stands in.
    Property,
}

/// A line as plain values: its text, or nothing for the end of the file,
/// and its indentation.
pub struct LineView {
    pub content: Option<Seq<char>>,
    pub indentation: Indentation,
}

impl View for Content {
    type V = Option<Seq<char>>;

    open spec fn view(&self) -> Option<Seq<char>> {
        match self {
            Content::Eof => None,
            Content::Value(text) => Some(text@),
        }
    }
}

impl View for Line {
    type V = LineView;

    open spec fn view(&self) -> LineView {
        LineView { content: self.content@, indentation: self.indentation }
    }
}

impl LineView {
    /// The end of the file as plain values.
    pub open spec fn eof() -> LineView {
        LineView {
            content: None,
            indentation: Indentation { kind: indentation::IndentationKind::Absent, depth: 0 },
        }
    }

    /// The depth at which a line takes part in nesting. Nothing lies deeper
    /// than the end of the file: its depth counts as 0.
    pub open spec fn depth(self) -> nat {
        if self.content is None {
            0
        } else {
            self.indentation.depth as nat
        }
    }
}

/// The kind of a line at depth `depth` that is followed by one at depth
/// `next_depth`.
pub open spec fn kind_between(depth: nat, next_depth: nat) -> CssLineKind {
    if depth < next_depth {
        CssLineKind::Selector
    } else {
        CssLineKind::Property
    }
}

impl Line {
    /// Tells whether `line` opens a block, by the line that follows it.
    pub fn determine_kind(line: &Line, next_line: &Line) -> (kind: CssLineKind)
        ensures
            kind == kind_between(line@.depth(), next_line@.depth()),
            kind == CssLineKind::Selector <==> line@.depth() < next_line@.depth(),
            kind == CssLineKind::Property <==> line@.depth() >= next_line@.depth(),
    {
        let level = line.nesting_depth();
        let next_level = next_line.nesting_depth();

        if level < next_level {
            CssLineKind::Selector
        } else {
            CssLineKind::Property
        }
    }

    /// The line that follows the last line of every file.
    pub fn eof() -> (line: Self)
        ensures
            line@ == LineView::eof(),
    {
        Self { content: Content::Eof, indentation: Indentation::none() }
    }

    /// The depth at which the line takes part in nesting.
    pub fn nesting_depth(&self) -> (depth: usize)
        ensures
            depth == self@.depth(),
    {
        match self.content {
            Content::Eof => 0,
            Content::Value(_) => self.indentation.depth,
        }
    }
}

} // verus!
