//! Builds the lines of a file, one raw line at a time.

use super::error::{Error as LineError, ErrorKind as LineErrorKind};
use super::indentation::{indent_depth, indent_is_mixed, indent_kind, Indentation, IndentationKind};
use super::nesting::{depth_fault, next_state, stack_after, unwind, verdict, NestingState};
use super::position::{Col, Position, Row};
use super::{Content as LineContent, Line, LineView, NumberedLine};
use vstd::prelude::*;
use vstd::std_specs::iter::IteratorSpec;

verus! {

/// The whitespace of Unicode: the characters with the property White_Space.
pub open spec fn is_whitespace(c: char) -> bool {
    let n = c as u32;
    ||| 0x09 <= n <= 0x0D
    ||| n == 0x20
    ||| n == 0x85
    ||| n == 0xA0
    ||| n == 0x1680
    ||| 0x2000 <= n <= 0x200A
    ||| n == 0x2028
    ||| n == 0x2029
    ||| n == 0x202F
    ||| n == 0x205F
    ||| n == 0x3000
}

/// A blank line holds nothing but whitespace.
pub open spec fn is_blank(s: Seq<char>) -> bool {
    forall|i: int| 0 <= i < s.len() ==> is_whitespace(#[trigger] s[i])
}

/// Whether `c` is whitespace of Unicode.
pub fn is_space(c: char) -> (b: bool)
    ensures
        b == is_whitespace(c),
{
    let n: u32 = c as u32;
    (0x09 <= n && n <= 0x0D) || n == 0x20 || n == 0x85 || n == 0xA0 || n == 0x1680 || (0x2000 <= n
        && n <= 0x200A) || n == 0x2028 || n == 0x2029 || n == 0x202F || n == 0x205F || n == 0x3000
}

/// Whether `line` is blank.
pub fn is_blank_line(line: &str) -> (b: bool)
    ensures
        b == is_blank(line@),
{
    let mut chars = line.chars();
    let ghost mut seen: int = 0;
    loop
        invariant
            0 <= seen <= line@.len(),
            chars.remaining() == line@.skip(seen),
            forall|i: int| 0 <= i < seen ==> is_whitespace(#[trigger] line@[i]),
        decreases line@.len() - seen,
    {
        match chars.next() {
            None => {
                return true;
            },
            Some(c) => {
                if !is_space(c) {
                    return false;
                }
                proof {
                    seen = seen + 1;
                }
            },
        }
    }
}

/// What a line builder remembers between lines.
pub struct BuilderState {
    /// Number of raw lines taken so far, blank ones too.
    pub row: nat,
    /// What the lines with content have made of the nesting.
    pub nesting: NestingState,
}

impl BuilderState {
    /// The state before any line.
    pub open spec fn initial() -> Self {
        BuilderState { row: 0, nesting: NestingState::initial() }
    }
}

/// What is wrong with the raw line `raw` after the lines that led to
/// `nesting`, and at which column. A blank line is never at fault; mixed
/// indentation is found before the nesting is looked at.
pub open spec fn line_fault(nesting: NestingState, raw: Seq<char>) -> Option<(LineErrorKind, nat)> {
    if is_blank(raw) {
        None
    } else if indent_is_mixed(raw) {
        Some((LineErrorKind::InconsistentIndentation, indent_depth(raw) as nat))
    } else {
        match verdict(nesting, indent_kind(raw), indent_depth(raw) as nat) {
            Ok(_) => None,
            Err(fault) => Some(fault),
        }
    }
}

/// The nesting after the raw line `raw`. Blank lines and lines of mixed
/// indentation leave it as it is.
pub open spec fn nesting_after_line(nesting: NestingState, raw: Seq<char>) -> NestingState {
    if is_blank(raw) || indent_is_mixed(raw) {
        nesting
    } else {
        next_state(nesting, indent_kind(raw), indent_depth(raw) as nat)
    }
}

/// The state of a builder after the raw line `raw`.
pub open spec fn state_after_line(state: BuilderState, raw: Seq<char>) -> BuilderState {
    BuilderState { row: state.row + 1, nesting: nesting_after_line(state.nesting, raw) }
}

/// The line that is built from the raw line `raw`: its text is what follows
/// the indentation, up to the end of the line.
pub open spec fn line_of(raw: Seq<char>) -> LineView {
    LineView {
        content: Some(raw.skip(indent_depth(raw))),
        indentation: Indentation { kind: indent_kind(raw), depth: indent_depth(raw) as usize },
    }
}

/// The depths of a stack as plain numbers.
pub open spec fn depths(stack: Seq<usize>) -> Seq<nat> {
    stack.map_values(|d: usize| d as nat)
}

/// Keeps the indentation character of a file and the depths of its open
/// blocks, and judges each line against them.
pub struct IndentationHandler {
    used_kind: Option<IndentationKind>,
    stack: Vec<usize>,
}

impl View for IndentationHandler {
    type V = NestingState;

    closed spec fn view(&self) -> NestingState {
        NestingState { used_kind: self.used_kind, stack: depths(self.stack@) }
    }
}

impl IndentationHandler {
    /// A handler that has seen no line.
    pub fn new() -> (handler: Self)
        ensures
            handler@ == NestingState::initial(),
    {
        let handler = IndentationHandler { used_kind: None, stack: Vec::new() };
        assert(depths(handler.stack@) =~= Seq::empty());
        handler
    }

    /// Judges a line by its indentation, and takes note of it.
    ///
    /// A fault comes with the column at which it is reported.
    pub fn handle(&mut self, indent: Indentation) -> (res: Result<(), (LineErrorKind, Col)>)
        ensures
            final(self)@ == next_state(old(self)@, indent.kind, indent.depth as nat),
            match res {
                Ok(_) => verdict(old(self)@, indent.kind, indent.depth as nat) is Ok,
                Err((kind, col)) => verdict(old(self)@, indent.kind, indent.depth as nat) == Err::<
                    (),
                    (LineErrorKind, nat),
                >((kind, col as nat)),
            },
    {
        let kind = if indent.depth == 0 {
            IndentationKind::Absent
        } else {
            indent.kind
        };
        match self.handle_kind(kind) {
            Err(kind) => {
                return Err((kind, 0));
            },
            Ok(_) => {},
        }
        // an indented line before any content is reported at its start
        let col: usize = if self.stack.len() == 0 {
            0
        } else {
            indent.depth
        };
        match self.handle_depth(indent.depth) {
            Err(kind) => Err((kind, col)),
            Ok(_) => Ok(()),
        }
    }

    /// Holds the indentation character of a line against that of the file;
    /// the first one seen becomes that of the file.
    fn handle_kind(&mut self, indent_kind: IndentationKind) -> (res: Result<(), LineErrorKind>)
        ensures
            final(self).stack == old(self).stack,
            res is Ok <==> !(indent_kind != IndentationKind::Absent && old(self).used_kind is Some
                && old(self).used_kind != Some(indent_kind)),
            res is Err ==> res == Err::<(), LineErrorKind>(LineErrorKind::InconsistentIndentation)
                && final(self).used_kind == old(self).used_kind,
            res is Ok ==> final(self).used_kind == if old(self).used_kind is None && indent_kind
                != IndentationKind::Absent {
                Some(indent_kind)
            } else {
                old(self).used_kind
            },
    {
        match self.used_kind {
            None => {
                if indent_kind != IndentationKind::Absent {
                    self.set_used_indentation_kind(indent_kind);
                }
                Ok(())
            },
            Some(used) => {
                if indent_kind != IndentationKind::Absent && indent_kind != used {
                    Err(LineErrorKind::InconsistentIndentation)
                } else {
                    Ok(())
                }
            },
        }
    }

    /// Holds the depth of a line against the open blocks: opens a block for
    /// a deeper line, and closes the blocks that a shallower line leaves.
    fn handle_depth(&mut self, depth: usize) -> (res: Result<(), LineErrorKind>)
        ensures
            final(self).used_kind == old(self).used_kind,
            depths(final(self).stack@) == stack_after(depths(old(self).stack@), depth as nat),
            res is Ok <==> depth_fault(depths(old(self).stack@), depth as nat) is None,
            res is Err ==> res == Err::<(), LineErrorKind>(LineErrorKind::UnexpectedIndentation),
    {
        if depth == 0 {
            self.stack.clear();
            self.stack.push(0);
            return Ok(());
        }
        let ghost before = depths(self.stack@);
        if self.stack.len() == 0 {
            // the first line with content must not be indented
            return Err(LineErrorKind::UnexpectedIndentation);
        }
        let deepest: usize = self.stack[self.stack.len() - 1];
        if depth > deepest {
            self.stack.push(depth);
            return Ok(());
        }
        loop
            invariant
                depth > 0,
                self.used_kind == old(self).used_kind,
                before == depths(old(self).stack@),
                before.len() > 0,
                depth <= before.last(),
                unwind(depths(self.stack@), depth as nat) == unwind(before, depth as nat),
            decreases self.stack.len(),
        {
            if self.stack.len() == 0 {
                return Err(LineErrorKind::UnexpectedIndentation);
            }
            let deepest: usize = self.stack[self.stack.len() - 1];
            if depth < deepest {
                let ghost full = depths(self.stack@);
                self.stack.pop();
                assert(depths(self.stack@) =~= full.drop_last());
                continue ;
            }
            if depth > deepest {
                return Err(LineErrorKind::UnexpectedIndentation);
            }
            return Ok(());
        }
    }

    /// Settles the indentation character of the file.
    fn set_used_indentation_kind(&mut self, indent_kind: IndentationKind)
        requires
            indent_kind != IndentationKind::Absent,
        ensures
            final(self).used_kind == Some(indent_kind),
            final(self).stack == old(self).stack,
    {
        self.used_kind = Some(indent_kind);
    }
}

/// Turns the raw lines of a file into lines, in the order of the file.
pub struct Builder {
    row_count: Row,
    indentation_handler: IndentationHandler,
}

impl View for Builder {
    type V = BuilderState;

    closed spec fn view(&self) -> BuilderState {
        BuilderState { row: self.row_count as nat, nesting: self.indentation_handler@ }
    }
}

impl Default for Builder {
    /// A builder at the start of a file.
    fn default() -> (builder: Self)
        ensures
            builder@ == BuilderState::initial(),
    {
        Builder { row_count: 0, indentation_handler: IndentationHandler::new() }
    }
}

impl Builder {
    /// Takes the next raw line of the file.
    ///
    /// Every raw line counts as a row. A blank line gives no line. A line
    /// with content gives its row and the line, or the first fault found in
    /// its indentation.
    pub fn build_line_from(&mut self, raw_line: &str) -> (res: Result<
        Option<NumberedLine>,
        LineError,
    >)
        requires
            old(self)@.row < usize::MAX,
        ensures
            final(self)@ == state_after_line(old(self)@, raw_line@),
            match res {
                Ok(None) => is_blank(raw_line@),
                Ok(Some((row, line))) => {
                    &&& !is_blank(raw_line@)
                    &&& line_fault(old(self)@.nesting, raw_line@) is None
                    &&& row == old(self)@.row + 1
                    &&& line@ == line_of(raw_line@)
                },
                Err(error) => {
                    &&& line_fault(old(self)@.nesting, raw_line@) == Some(
                        (error.kind, error.pos.col as nat),
                    )
                    &&& error.pos.row == old(self)@.row + 1
                },
            },
    {
        self.row_count += 1;

        if is_blank_line(raw_line) {
            return Ok(None);
        }
        let indent = match Indentation::of_line(raw_line) {
            Ok(indent) => indent,
            Err(col) => {
                return Err(
                    LineError {
                        kind: LineErrorKind::InconsistentIndentation,
                        pos: Position::at(self.row_count, col),
                    },
                );
            },
        };

        match self.indentation_handler.handle(indent) {
            Ok(_) => {},
            Err((kind, col)) => {
                return Err(LineError { kind, pos: Position::at(self.row_count, col) });
            },
        }

        // the indentation is kept as a number, the text goes without it
        let text = raw_line.substring_char(indent.depth, raw_line.unicode_len());
        Ok(
            Some(
                (
                    self.row_count,
                    Line { content: LineContent::Value(String::from_str(text)), indentation: indent },
                ),
            ),
        )
    }
}

} // verus!
