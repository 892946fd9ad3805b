//! Faults in the structure of a source file.

use super::position::Position;
use vstd::prelude::*;

verus! {

/// What is wrong with the indentation of a line.
#[derive(Clone, Copy, Debug, PartialEq, Eq, Structural)]
pub enum ErrorKind {
    /// Spaces and tabs are both used to indent.
    InconsistentIndentation,
    /// The line is indented to a depth that no open block has.
    UnexpectedIndentation,
}

/// A fault and the place where it was found.
#[derive(Clone, Copy, Debug, PartialEq, Eq, Structural)]
pub struct Error {
    pub kind: ErrorKind,
    pub pos: Position,
}

} // verus!
