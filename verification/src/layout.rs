//! Initial placement of particles, laid out row by row in a rectangular
//! block so that the starting configuration has little overlap.

use vstd::prelude::*;

verus! {

/// The column and row at which the particle with the given index starts,
/// filling each row of `cols` columns completely before starting the next.
pub fn grid_slot(index: usize, cols: usize) -> (slot: (usize, usize))
    requires
        cols > 0,
    ensures
        slot.0 == index % cols,
        slot.1 == index / cols,
        slot.0 < cols,
{
    (index % cols, index / cols)
}

} // verus!
