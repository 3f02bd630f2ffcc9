//! A zero-based column and row pair.

use vstd::prelude::*;

verus! {

/// A position on a grid. Used both for the cursor, relative to the screen
/// region, and for the scroll offset, relative to the content.
#[derive(Clone, Copy, Debug, PartialEq, Eq, Structural)]
pub struct Location {
    /// Zero-based column; column 0 is the left-most.
    pub column_ix: u16,
    /// Zero-based row; row 0 is the top-most.
    pub row_ix: u16,
}

impl Location {
    /// The origin: column 0, row 0.
    pub fn default() -> (l: Location)
        ensures
            l.column_ix == 0,
            l.row_ix == 0,
    {
        Location { column_ix: 0, row_ix: 0 }
    }

    /// The location at column `column_ix` and row `row_ix`.
    pub fn new(column_ix: u16, row_ix: u16) -> (l: Location)
        ensures
            l.column_ix == column_ix,
            l.row_ix == row_ix,
    {
        Location { column_ix, row_ix }
    }

    /// A copy of `location`.
    pub fn from(location: &Location) -> (l: Location)
        ensures
            l == *location,
    {
        Location { column_ix: location.column_ix, row_ix: location.row_ix }
    }
}

} // verus!
