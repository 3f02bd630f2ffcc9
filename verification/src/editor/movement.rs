//! Where a cursor lands when it is moved inside a sized region.

use vstd::prelude::*;
use super::dimensions::Dimensions;
use super::location::Location;

verus! {

/// One cursor command: a direction and a number of cells.
pub enum Move {
    Left(u16),
    Right(u16),
    Up(u16),
    Down(u16),
}

impl Location {
    /// The location lies inside a region of size `d`.
    pub open spec fn inside(self, d: Dimensions) -> bool {
        self.column_ix < d.columns && self.row_ix < d.rows
    }

    /// `n` columns to the left, stopping at column 0.
    pub open spec fn shifted_left(self, n: u16) -> Location {
        Location {
            column_ix: if n > self.column_ix {
                0
            } else {
                (self.column_ix - n) as u16
            },
            row_ix: self.row_ix,
        }
    }

    /// `n` columns to the right, stopping at the last column of `d`.
    pub open spec fn shifted_right(self, n: u16, d: Dimensions) -> Location {
        Location {
            column_ix: if self.column_ix + n > d.columns - 1 {
                (d.columns - 1) as u16
            } else {
                (self.column_ix + n) as u16
            },
            row_ix: self.row_ix,
        }
    }

    /// `n` rows up, stopping at row 0.
    pub open spec fn shifted_up(self, n: u16) -> Location {
        Location {
            column_ix: self.column_ix,
            row_ix: if n > self.row_ix {
                0
            } else {
                (self.row_ix - n) as u16
            },
        }
    }

    /// `n` rows down, stopping at the last row of `d`.
    pub open spec fn shifted_down(self, n: u16, d: Dimensions) -> Location {
        Location {
            column_ix: self.column_ix,
            row_ix: if self.row_ix + n >= d.rows {
                (d.rows - 1) as u16
            } else {
                (self.row_ix + n) as u16
            },
        }
    }

    /// The location after one command in a region of size `d`.
    pub open spec fn moved(self, m: Move, d: Dimensions) -> Location {
        match m {
            Move::Left(n) => self.shifted_left(n),
            Move::Right(n) => self.shifted_right(n, d),
            Move::Up(n) => self.shifted_up(n),
            Move::Down(n) => self.shifted_down(n, d),
        }
    }

    /// The location after the commands of `ms`, taken in order.
    pub open spec fn moved_all(self, ms: Seq<Move>, d: Dimensions) -> Location
        decreases ms.len(),
    {
        if ms.len() == 0 {
            self
        } else {
            self.moved(ms[0], d).moved_all(ms.drop_first(), d)
        }
    }
}

/// A cursor inside a sized region is still inside it after any one command.
pub proof fn lemma_move_stays_inside(at: Location, m: Move, d: Dimensions)
    requires
        d.is_sized(),
        at.inside(d),
    ensures
        at.moved(m, d).inside(d),
{
}

/// A cursor inside a sized region is still inside it after any sequence of
/// commands, and so after every command of the sequence.
pub proof fn lemma_moves_stay_inside(at: Location, ms: Seq<Move>, d: Dimensions)
    requires
        d.is_sized(),
        at.inside(d),
    ensures
        at.moved_all(ms, d).inside(d),
        forall|k: int| 0 <= k <= ms.len() ==> (#[trigger] at.moved_all(ms.take(k), d)).inside(d),
{
    lemma_all_moved_inside(at, ms, d);
    assert forall|k: int| 0 <= k <= ms.len() implies (#[trigger] at.moved_all(
        ms.take(k),
        d,
    )).inside(d) by {
        lemma_all_moved_inside(at, ms.take(k), d);
    }
}

/// The induction behind `lemma_moves_stay_inside`.
proof fn lemma_all_moved_inside(at: Location, ms: Seq<Move>, d: Dimensions)
    requires
        d.is_sized(),
        at.inside(d),
    ensures
        at.moved_all(ms, d).inside(d),
    decreases ms.len(),
{
    if ms.len() > 0 {
        lemma_move_stays_inside(at, ms[0], d);
        lemma_all_moved_inside(at.moved(ms[0], d), ms.drop_first(), d);
    }
}

/// Moving left by `n` and then right by `n` brings the cursor back to its
/// column, provided the cursor was inside the region and at least `n` columns
/// from its left edge.
pub proof fn lemma_shift_left_then_right_restores(at: Location, n: u16, d: Dimensions)
    requires
        at.inside(d),
        n <= at.column_ix,
    ensures
        at.shifted_left(n).shifted_right(n, d) == at,
        at.shifted_left(n).column_ix + n <= d.columns - 1,
{
}

/// A move by zero cells leaves a cursor inside the region where it is.
pub proof fn lemma_move_by_zero(at: Location, d: Dimensions)
    requires
        at.inside(d),
    ensures
        at.shifted_left(0) == at,
        at.shifted_right(0, d) == at,
        at.shifted_up(0) == at,
        at.shifted_down(0, d) == at,
{
}

} // verus!
