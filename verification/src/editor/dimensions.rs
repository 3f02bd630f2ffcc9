//! Size of a rectangular display region.

use vstd::prelude::*;

verus! {

/// The number of columns and rows that a region of the screen offers.
#[derive(Clone, Copy, Debug, PartialEq, Eq, Structural)]
pub struct Dimensions {
    pub columns: u16,
    pub rows: u16,
}

impl Dimensions {
    /// A region is sized once it offers at least one column and one row.
    pub open spec fn is_sized(self) -> bool {
        self.columns >= 1 && self.rows >= 1
    }

    /// The size of a classic terminal: 80 columns by 24 rows.
    pub fn default() -> (d: Dimensions)
        ensures
            d.columns == 80,
            d.rows == 24,
    {
        Dimensions { columns: 80, rows: 24 }
    }

    /// A region of `columns` by `rows`. Zero is accepted for either; such a
    /// region shows nothing.
    pub fn new(columns: u16, rows: u16) -> (d: Dimensions)
        ensures
            d.columns == columns,
            d.rows == rows,
    {
        Dimensions { columns, rows }
    }

    /// A copy of `dimensions`.
    pub fn from(dimensions: &Dimensions) -> (d: Dimensions)
        ensures
            d == *dimensions,
    {
        Dimensions { columns: dimensions.columns, rows: dimensions.rows }
    }
}

} // verus!
