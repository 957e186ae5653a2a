//! The internal board snapshot: an 8-by-8 grid of squares in the engine's
//! export order, row 0 being the first rank of the export.

use vstd::prelude::*;
use crate::pieces::Square;

verus! {

/// An 8-by-8 grid has exactly 8 rows of 8 entries.
pub open spec fn grid_well_formed<T>(g: Seq<Seq<T>>) -> bool {
    &&& g.len() == 8
    &&& forall|r: int| 0 <= r < 8 ==> g[r].len() == 8
}

/// A grid with its row order reversed: row `r` of the result is row
/// `len - 1 - r` of the argument.
pub open spec fn row_flip<T>(g: Seq<Seq<T>>) -> Seq<Seq<T>> {
    Seq::new(g.len(), |r: int| g[g.len() - 1 - r])
}

/// Reversing the row order twice gives back the original grid: the flip is
/// an involution.
pub proof fn lemma_row_flip_involution<T>(g: Seq<Seq<T>>)
    ensures
        row_flip(row_flip(g)) == g,
{
    assert(row_flip(row_flip(g)) =~= g);
}

/// The internal board snapshot, derived from the authoritative engine's
/// exported position string.  Grid indices are zero-based; row 0 is the
/// engine's first rank in its export order, independent of the wire
/// convention.
#[derive(Clone, PartialEq, Eq, Debug)]
pub struct Board {
    pub rows: Vec<Vec<Square>>,
}

impl View for Board {
    type V = Seq<Seq<Square>>;

    open spec fn view(&self) -> Seq<Seq<Square>> {
        Seq::new(self.rows@.len(), |i: int| self.rows@[i]@)
    }
}

impl Board {
    /// The grid is exactly 8 rows of 8 squares.
    pub open spec fn well_formed(&self) -> bool {
        grid_well_formed(self@)
    }

    /// The square at a grid position.
    pub fn at(&self, row: usize, col: usize) -> (r: Square)
        requires
            self.well_formed(),
            row < 8,
            col < 8,
        ensures
            r == self@[row as int][col as int],
    {
        self.rows[row][col]
    }
}

} // verus!
