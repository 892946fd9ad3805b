//! The faults that the preprocessor reports to its caller.

use crate::preprocessor::line::error::{Error as LineError, ErrorKind as LineErrorKind};
use crate::preprocessor::line::position::Position;
use vstd::prelude::*;
use vstd::std_specs::convert::FromSpecImpl;

verus! {

/// A fault in a source file and the place where it was found.
#[derive(Clone, Copy, Debug, PartialEq, Eq, Structural)]
pub struct Error {
    pub kind: ErrorKind,
    pub pos: Position,
}

/// What is wrong with a source file.
#[derive(Clone, Copy, Debug, PartialEq, Eq, Structural)]
pub enum ErrorKind {
    /// Spaces and tabs are both used to indent.
    InconsistentIndentation,
    /// A line is indented to a depth that no open block has.
    UnexpectedIndentation,
}

impl ErrorKind {
    /// The text of the message for a fault of this kind.
    pub open spec fn message(self) -> Seq<char> {
        match self {
            ErrorKind::InconsistentIndentation => "Inconsistent indentation\n\nSmiley files should only use either space or tab as\nindentation character, but never both\n"@,
            ErrorKind::UnexpectedIndentation => "Unexpected indentation\n"@,
        }
    }

    /// The same fault, as the line builder names it.
    pub open spec fn of_line(kind: LineErrorKind) -> ErrorKind {
        match kind {
            LineErrorKind::InconsistentIndentation => ErrorKind::InconsistentIndentation,
            LineErrorKind::UnexpectedIndentation => ErrorKind::UnexpectedIndentation,
        }
    }

    /// The message for a fault of this kind: a headline and, where there is
    /// more to say, an explanation after an empty line.
    pub fn get_message(&self) -> (msg: String)
        ensures
            msg@ == self.message(),
    {
        let msg = match self {
            ErrorKind::InconsistentIndentation => "Inconsistent indentation\n\nSmiley files should only use either space or tab as\nindentation character, but never both\n",
            ErrorKind::UnexpectedIndentation => "Unexpected indentation\n",
        };

        String::from_str(msg)
    }
}

impl From<LineError> for Error {
    /// The fault of a line, as the caller of the preprocessor sees it.
    fn from(error: LineError) -> (res: Error) {
        let kind = match error.kind {
            LineErrorKind::InconsistentIndentation => ErrorKind::InconsistentIndentation,
            LineErrorKind::UnexpectedIndentation => ErrorKind::UnexpectedIndentation,
        };
        Error { kind, pos: error.pos }
    }
}

impl FromSpecImpl<LineError> for Error {
    open spec fn obeys_from_spec() -> bool {
        true
    }

    open spec fn from_spec(error: LineError) -> Error {
        Error { kind: ErrorKind::of_line(error.kind), pos: error.pos }
    }
}

} // verus!
