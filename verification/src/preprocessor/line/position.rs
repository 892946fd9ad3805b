//! Places in a source file.

use vstd::prelude::*;

verus! {

/// Number of a physical line; the first line of a file is row 1.
pub type Row = usize;

/// Index of a character within its line; the first character is column 0.
pub type Col = usize;

/// A place in a source file.
#[derive(Clone, Copy, Debug, PartialEq, Eq, Structural)]
pub struct Position {
    pub row: Row,
    pub col: Col,
}

impl Position {
    /// The place at row `row` and column `col`.
    pub fn at(row: Row, col: Col) -> (pos: Self)
        ensures
            pos == (Position { row, col }),
    {
        Self { row, col }
    }
}

} // verus!
