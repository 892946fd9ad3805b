//! Indentation of a whole file: the mode of each line, and a validator that
//! reports faults with their place.

use super::line::error::ErrorKind as LineErrorKind;
use super::line::indentation::{
    indent_depth, indent_is_mixed, indent_kind, Indentation as LineIndentation, IndentationKind,
};
use super::line::nesting::{
    depth_fault, next_state, stack_after, unwind, verdict, NestingState,
};
use super::line::position::{Col, Row};
use vstd::prelude::*;

verus! {

/// How many characters a line is indented by.
pub type IndentationLevel = usize;

/// The indentation of a line: nothing, or its character and level.
pub type IndentationMode = Option<(Indentation, IndentationLevel)>;

/// A fault with the row and column where it was found.
pub type Error = (ErrorKind, (Row, Col));

/// The character a line is indented with.
#[derive(Clone, Copy, Debug, PartialEq, Eq, Structural)]
pub enum Indentation {
    Space,
    Tab,
}

/// What is wrong with the indentation of a line.
#[derive(Clone, Copy, Debug, PartialEq, Eq, Structural)]
pub enum ErrorKind {
    /// Spaces and tabs are both used to indent.
    InconsistentIndentation,
    /// The line is indented to a level that no open block has.
    UnexpectedIndentation,
}

impl ErrorKind {
    /// The same fault, as the line builder names it.
    pub open spec fn of_line(self) -> LineErrorKind {
        match self {
            ErrorKind::InconsistentIndentation => LineErrorKind::InconsistentIndentation,
            ErrorKind::UnexpectedIndentation => LineErrorKind::UnexpectedIndentation,
        }
    }
}

impl Indentation {
    /// The same character, as a kind of line indentation.
    pub open spec fn kind(self) -> IndentationKind {
        match self {
            Indentation::Space => IndentationKind::Space,
            Indentation::Tab => IndentationKind::Tab,
        }
    }

    /// Finds the indentation mode of `line`.
    ///
    /// Fails with the column of the first whitespace character that differs
    /// from the one the line started with.
    pub fn check_mode(line: &str) -> (res: Result<IndentationMode, Col>)
        ensures
            match res {
                Ok(None) => indent_kind(line@) == IndentationKind::Absent,
                Ok(Some((mode, level))) => {
                    &&& !indent_is_mixed(line@)
                    &&& mode.kind() == indent_kind(line@)
                    &&& level == indent_depth(line@)
                },
                Err(col) => indent_is_mixed(line@) && col == indent_depth(line@),
            },
    {
        match LineIndentation::of_line(line) {
            Err(col) => Err(col),
            Ok(indent) => match indent.kind {
                IndentationKind::Absent => Ok(None),
                IndentationKind::Space => Ok(Some((Indentation::Space, indent.depth))),
                IndentationKind::Tab => Ok(Some((Indentation::Tab, indent.depth))),
            },
        }
    }
}

/// The kind of line indentation that a mode stands for.
pub open spec fn mode_kind(mode: IndentationMode) -> IndentationKind {
    match mode {
        None => IndentationKind::Absent,
        Some((indent, _)) => indent.kind(),
    }
}

/// The depth that a mode stands for.
pub open spec fn mode_depth(mode: IndentationMode) -> nat {
    match mode {
        None => 0,
        Some((_, level)) => level as nat,
    }
}

/// The levels of a stack as plain numbers.
pub open spec fn levels(stack: Seq<IndentationLevel>) -> Seq<nat> {
    stack.map_values(|level: IndentationLevel| level as nat)
}

/// Checks line after line that a file is indented with one character and
/// that its levels nest.
pub struct Validator {
    indentation_type: Option<Indentation>,
    indentation_level_stack: Vec<IndentationLevel>,
}

impl View for Validator {
    type V = NestingState;

    closed spec fn view(&self) -> NestingState {
        NestingState {
            used_kind: match self.indentation_type {
                None => None,
                Some(indent) => Some(indent.kind()),
            },
            stack: levels(self.indentation_level_stack@),
        }
    }
}

impl Default for Validator {
    /// A validator at the start of a file.
    fn default() -> (validator: Self)
        ensures
            validator@ == NestingState::initial(),
    {
        let validator = Validator { indentation_type: None, indentation_level_stack: Vec::new() };
        assert(levels(validator.indentation_level_stack@) =~= Seq::empty());
        validator
    }
}

impl Validator {
    /// Judges the line at row `row` by its indentation mode, and takes note
    /// of it. To be called for each line with content, in the order of the
    /// file.
    ///
    /// A line without indentation is always accepted and closes every block.
    /// Of an indented line the character is judged first, the level second.
    pub fn validate(&mut self, indentation_mode: IndentationMode, row: Row) -> (res: Result<
        (),
        Error,
    >)
        ensures
            final(self)@ == next_state(
                old(self)@,
                mode_kind(indentation_mode),
                mode_depth(indentation_mode),
            ),
            match res {
                Ok(_) => verdict(
                    old(self)@,
                    mode_kind(indentation_mode),
                    mode_depth(indentation_mode),
                ) is Ok,
                Err((kind, (at_row, at_col))) => {
                    &&& at_row == row
                    &&& verdict(
                        old(self)@,
                        mode_kind(indentation_mode),
                        mode_depth(indentation_mode),
                    ) == Err::<(), (LineErrorKind, nat)>((kind.of_line(), at_col as nat))
                },
            },
    {
        let (indent, level) = match indentation_mode {
            None => {
                self.set_stack_level_to_zero();
                return Ok(());
            },
            Some(mode) => mode,
        };
        if level == 0 {
            self.set_stack_level_to_zero();
            return Ok(());
        }
        match self.validate_indentation_type(indent, row) {
            Err(error) => {
                return Err(error);
            },
            Ok(_) => {},
        }
        self.validate_indentation_level(level, row)
    }

    /// Holds the character of an indented line against that of the file; the
    /// first one seen becomes that of the file.
    fn validate_indentation_type(&mut self, indent: Indentation, row: Row) -> (res: Result<
        (),
        Error,
    >)
        ensures
            final(self).indentation_level_stack == old(self).indentation_level_stack,
            res is Ok <==> old(self).indentation_type is None || old(self).indentation_type
                == Some(indent),
            res is Ok ==> final(self).indentation_type == Some(indent),
            res is Err ==> final(self).indentation_type == old(self).indentation_type && res
                == Err::<(), Error>((ErrorKind::InconsistentIndentation, (row, 0))),
    {
        match self.indentation_type {
            None => {
                self.set_indentation_type(indent);
                Ok(())
            },
            Some(used) => {
                if indent != used {
                    Err((ErrorKind::InconsistentIndentation, (row, 0)))
                } else {
                    Ok(())
                }
            },
        }
    }

    /// Settles the indentation character of the file.
    fn set_indentation_type(&mut self, indent: Indentation)
        ensures
            final(self).indentation_type == Some(indent),
            final(self).indentation_level_stack == old(self).indentation_level_stack,
    {
        self.indentation_type = Some(indent);
    }

    /// Holds the level of an indented line against the open blocks.
    fn validate_indentation_level(&mut self, level: IndentationLevel, row: Row) -> (res: Result<
        (),
        Error,
    >)
        requires
            level > 0,
        ensures
            final(self).indentation_type == old(self).indentation_type,
            levels(final(self).indentation_level_stack@) == stack_after(
                levels(old(self).indentation_level_stack@),
                level as nat,
            ),
            match res {
                Ok(_) => depth_fault(levels(old(self).indentation_level_stack@), level as nat)
                    is None,
                Err((kind, (at_row, at_col))) => {
                    &&& kind == ErrorKind::UnexpectedIndentation
                    &&& at_row == row
                    &&& depth_fault(levels(old(self).indentation_level_stack@), level as nat)
                        == Some(at_col as nat)
                },
            },
    {
        // an indented line must not come before all content
        if self.indentation_level_stack.len() == 0 {
            return Err((ErrorKind::UnexpectedIndentation, (row, 0)));
        }
        let top_level: IndentationLevel =
            self.indentation_level_stack[self.indentation_level_stack.len() - 1];

        if level > top_level {
            self.indentation_level_stack.push(level);
            return Ok(());
        }
        match self.pop_stack(level) {
            Ok(_) => Ok(()),
            Err(_) => Err((ErrorKind::UnexpectedIndentation, (row, level))),
        }
    }

    /// Closes the blocks that lie deeper than `new_level`. Succeeds if the
    /// innermost block left open lies at `new_level`.
    fn pop_stack(&mut self, new_level: IndentationLevel) -> (res: Result<(), ()>)
        ensures
            final(self).indentation_type == old(self).indentation_type,
            levels(final(self).indentation_level_stack@) == unwind(
                levels(old(self).indentation_level_stack@),
                new_level as nat,
            ),
            res is Ok <==> final(self).indentation_level_stack@.len() > 0 && levels(
                final(self).indentation_level_stack@,
            ).last() == new_level,
    {
        loop
            invariant
                self.indentation_type == old(self).indentation_type,
                unwind(levels(self.indentation_level_stack@), new_level as nat) == unwind(
                    levels(old(self).indentation_level_stack@),
                    new_level as nat,
                ),
            decreases self.indentation_level_stack.len(),
        {
            if self.indentation_level_stack.len() == 0 {
                return Err(());
            }
            let top: IndentationLevel =
                self.indentation_level_stack[self.indentation_level_stack.len() - 1];
            if new_level == top {
                return Ok(());
            }
            if new_level > top {
                return Err(());
            }
            let ghost full = levels(self.indentation_level_stack@);
            self.indentation_level_stack.pop();
            assert(levels(self.indentation_level_stack@) =~= full.drop_last());
        }
    }

    /// Closes every block: the file is back at its outermost level.
    fn set_stack_level_to_zero(&mut self)
        ensures
            final(self).indentation_type == old(self).indentation_type,
            levels(final(self).indentation_level_stack@) == seq![0nat],
    {
        self.indentation_level_stack.clear();
        self.indentation_level_stack.push(0);
    }
}

} // verus!
