//! Uniform-grid spatial index over integer cell coordinates.
//!
//! The grid files particle indices under the cell that contains the particle,
//! and answers neighborhood queries with the union of the 3×3 block of cells
//! around a queried cell. The caller maps a position to its cell coordinates
//! by floor-dividing each component by its chosen cell size; with a cell size
//! at least the largest particle diameter, two overlapping particles always
//! land in the same cell or in adjacent cells, so the query never misses an
//! overlapping pair.

use vstd::prelude::*;
use std::collections::HashMap;

verus! {

broadcast use vstd::std_specs::hash::group_hash_axioms;

/// The packed 64-bit key of one grid cell: the high 32 bits hold the x
/// coordinate and the low 32 bits hold the masked y coordinate. The packing
/// is a bijection on pairs of 32-bit coordinates, so distinct cells never
/// share a key.
pub open spec fn spec_cell_key(cell_x: i32, cell_y: i32) -> i64 {
    ((cell_x as i64) << 32) | ((cell_y as i64) & 0xFFFFFFFF)
}

/// Distinct cell coordinates always pack to distinct keys.
pub proof fn lemma_cell_key_injective(x1: i32, y1: i32, x2: i32, y2: i32)
    requires
        spec_cell_key(x1, y1) == spec_cell_key(x2, y2),
    ensures
        x1 == x2 && y1 == y2,
{
    assert(
        (((x1 as i64) << 32) | ((y1 as i64) & 0xFFFFFFFF))
            == (((x2 as i64) << 32) | ((y2 as i64) & 0xFFFFFFFF))
            ==> x1 == x2 && y1 == y2
    ) by (bit_vector);
}

/// A hash table from packed cell keys to the list of particle indices filed
/// in that cell.
pub struct SpatialHash {
    cells: HashMap<i64, Vec<usize>>,
}

impl SpatialHash {
    /// The indices filed under one cell, oldest insertion first. A cell with
    /// no entry in the table is empty.
    pub closed spec fn cell(self, cell_x: i32, cell_y: i32) -> Seq<usize> {
        let key = spec_cell_key(cell_x, cell_y);
        if self.cells@.contains_key(key) {
            self.cells@[key]@
        } else {
            Seq::<usize>::empty()
        }
    }

    /// Constructs a grid with every cell empty.
    pub fn new() -> (grid: Self)
        ensures
            forall|cx: i32, cy: i32| #[trigger] grid.cell(cx, cy) == Seq::<usize>::empty(),
    {
        SpatialHash { cells: HashMap::new() }
    }

    /// Computes the packed key of the cell at the given coordinates.
    fn get_cell_key(&self, cell_x: i32, cell_y: i32) -> (key: i64)
        ensures
            key == spec_cell_key(cell_x, cell_y),
    {
        ((cell_x as i64) << 32) | ((cell_y as i64) & 0xFFFFFFFF)
    }

    /// Empties every cell. The backing table may keep its capacity; only the
    /// logical contents are gone.
    pub fn clear(&mut self)
        ensures
            forall|cx: i32, cy: i32| #[trigger] final(self).cell(cx, cy) == Seq::<usize>::empty(),
    {
        self.cells.clear();
    }

    /// Files `index` under the cell at the given coordinates, after whatever
    /// the cell already holds. Every other cell is left untouched, so one
    /// insert call never files an index under more than one cell.
    pub fn insert(&mut self, index: usize, cell_x: i32, cell_y: i32)
        ensures
            final(self).cell(cell_x, cell_y) == old(self).cell(cell_x, cell_y).push(index),
            forall|cx: i32, cy: i32|
                !(cx == cell_x && cy == cell_y) ==> #[trigger] final(self).cell(cx, cy) == old(
                self).cell(cx, cy),
    {
        let key = self.get_cell_key(cell_x, cell_y);
        let mut list = match self.cells.remove(&key) {
            Some(list) => list,
            None => Vec::new(),
        };
        list.push(index);
        self.cells.insert(key, list);
        proof {
            assert forall|cx: i32, cy: i32|
                !(cx == cell_x && cy == cell_y) implies #[trigger] final(self).cell(cx, cy) == old(
                self).cell(cx, cy) by {
                if spec_cell_key(cx, cy) == spec_cell_key(cell_x, cell_y) {
                    lemma_cell_key_injective(cx, cy, cell_x, cell_y);
                }
            }
        }
    }

    /// Appends to `result` the contents of the cell at the given coordinates.
    fn append_cell(&self, cell_x: i32, cell_y: i32, result: &mut Vec<usize>)
        ensures
            final(result)@ == old(result)@ + self.cell(cell_x, cell_y),
    {
        let ghost result_entry = result@;
        let key = self.get_cell_key(cell_x, cell_y);
        match self.cells.get(&key) {
            Some(indices) => {
                let mut i: usize = 0;
                while i < indices.len()
                    invariant
                        i <= indices.len(),
                        result@ == result_entry + indices@.subrange(0, i as int),
                        indices@ == self.cell(cell_x, cell_y),
                    decreases indices.len() - i,
                {
                    result.push(indices[i]);
                    proof {
                        assert(indices@.subrange(0, i as int).push(indices@[i as int]) =~= indices@
                            .subrange(0, i as int + 1));
                    }
                    i = i + 1;
                }
                proof {
                    assert(indices@.subrange(0, indices@.len() as int) =~= indices@);
                }
            },
            None => {
                proof {
                    assert(result@ =~= result_entry + Seq::<usize>::empty());
                }
            },
        }
    }

    /// The union of the 3×3 block of cells centered on the given cell, in
    /// query order: columns left to right, and within a column rows top to
    /// bottom. Only membership in the result is meant to carry significance.
    pub open spec fn nearby(self, cell_x: i32, cell_y: i32) -> Seq<usize>
        recommends
            i32::MIN < cell_x < i32::MAX,
            i32::MIN < cell_y < i32::MAX,
    {
        self.cell((cell_x - 1) as i32, (cell_y - 1) as i32) + self.cell(
            (cell_x - 1) as i32,
            cell_y,
        ) + self.cell((cell_x - 1) as i32, (cell_y + 1) as i32) + self.cell(
            cell_x,
            (cell_y - 1) as i32,
        ) + self.cell(cell_x, cell_y) + self.cell(cell_x, (cell_y + 1) as i32) + self.cell(
            (cell_x + 1) as i32,
            (cell_y - 1) as i32,
        ) + self.cell((cell_x + 1) as i32, cell_y) + self.cell(
            (cell_x + 1) as i32,
            (cell_y + 1) as i32,
        )
    }

    /// Appends to `result` every index filed in the 3×3 neighborhood of the
    /// cell at the given coordinates. Indices from cells outside that block
    /// are never returned; the caller filters the candidates with an exact
    /// distance check and excludes its own index.
    pub fn get_nearby(&self, cell_x: i32, cell_y: i32, result: &mut Vec<usize>)
        requires
            i32::MIN < cell_x < i32::MAX,
            i32::MIN < cell_y < i32::MAX,
        ensures
            final(result)@ == old(result)@ + self.nearby(cell_x, cell_y),
    {
        let left = cell_x - 1;
        let right = cell_x + 1;
        let above = cell_y - 1;
        let below = cell_y + 1;
        self.append_cell(left, above, result);
        self.append_cell(left, cell_y, result);
        self.append_cell(left, below, result);
        self.append_cell(cell_x, above, result);
        self.append_cell(cell_x, cell_y, result);
        self.append_cell(cell_x, below, result);
        self.append_cell(right, above, result);
        self.append_cell(right, cell_y, result);
        self.append_cell(right, below, result);
        proof {
            assert(result@ =~= old(result)@ + self.nearby(cell_x, cell_y));
        }
    }
}

/// Grid completeness: an index filed in any cell at Chebyshev distance at
/// most one from the queried cell — the queried cell itself or any of its
/// eight neighbors — is among the indices a neighborhood query at that cell
/// returns. No candidate pair filed in the same or adjacent cells is ever
/// missed.
pub proof fn lemma_nearby_complete(
    grid: SpatialHash,
    query_x: i32,
    query_y: i32,
    cell_x: i32,
    cell_y: i32,
    index: usize,
)
    requires
        i32::MIN < query_x < i32::MAX,
        i32::MIN < query_y < i32::MAX,
        -1 <= cell_x - query_x <= 1,
        -1 <= cell_y - query_y <= 1,
        grid.cell(cell_x, cell_y).contains(index),
    ensures
        grid.nearby(query_x, query_y).contains(index),
{
    // The query result is a concatenation of the nine cells of the block,
    // and a concatenation contains whatever any of its parts contains.
    broadcast use vstd::seq_lib::lemma_seq_concat_contains_all_elements;

}

} // verus!
