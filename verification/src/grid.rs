//! Host-side model of the scalar field textures and of the extraction pass.
//!
//! The device holds each field as a square texture of 32-bit floats; the
//! model holds the same cells row-major as fixed-point micro-units. The
//! extraction pass samples the water and terrain fields at a caller-supplied
//! list of grid points, one output per list entry, `result[i]` for
//! `queries[i]`.

use vstd::prelude::*;

verus! {

/// Integer grid coordinates of one extraction probe, each in `[0, side)`
/// of the sampled grids.
#[derive(Clone, Copy, Debug, PartialEq, Eq, Structural)]
pub struct QueryPosition {
    pub x: u32,
    pub y: u32,
}

impl QueryPosition {
    /// Both coordinates address a cell of a grid with the given side.
    pub open spec fn in_bounds(&self, side: int) -> bool {
        self.x < side && self.y < side
    }
}

/// One square scalar field, cells row-major, values in fixed-point
/// micro-units.
#[derive(Clone, Debug)]
pub struct ScalarGrid {
    pub side: usize,
    pub data: Vec<i64>,
}

impl ScalarGrid {
    /// The cell vector covers the whole square.
    pub open spec fn wf(&self) -> bool {
        self.data.len() == self.side * self.side
    }

    /// The value of the cell at column `x`, row `y`.
    pub open spec fn spec_at(&self, x: int, y: int) -> i64 {
        self.data[y * self.side + x]
    }

    /// A field with every cell holding the same value.
    pub fn new_fill(side: usize, value: i64) -> (g: ScalarGrid)
        requires
            side * side <= usize::MAX,
        ensures
            g.wf(),
            g.side == side,
            forall|x: int, y: int|
                0 <= x < side && 0 <= y < side ==> g.spec_at(x, y) == value,
    {
        let mut data: Vec<i64> = Vec::new();
        let total: usize = side * side;
        let mut i: usize = 0;
        while i < total
            invariant
                total == side * side,
                i <= total,
                data.len() == i,
                forall|k: int| 0 <= k < i ==> data[k] == value,
            decreases total - i,
        {
            data.push(value);
            i = i + 1;
        }
        let g = ScalarGrid { side, data };
        proof {
            assert forall|x: int, y: int|
                0 <= x < side && 0 <= y < side implies g.spec_at(x, y) == value by {
                lemma_cell_index_in_range(side as int, x, y);
            }
        }
        g
    }

    /// Read one cell.
    pub fn at(&self, x: u32, y: u32) -> (v: i64)
        requires
            self.wf(),
            x < self.side,
            y < self.side,
        ensures
            v == self.spec_at(x as int, y as int),
    {
        proof {
            lemma_cell_index_in_range(self.side as int, x as int, y as int);
        }
        self.data[y as usize * self.side + x as usize]
    }

    /// Write one cell.
    pub fn set(&mut self, x: u32, y: u32, value: i64)
        requires
            old(self).wf(),
            x < old(self).side,
            y < old(self).side,
        ensures
            final(self).wf(),
            final(self).side == old(self).side,
            final(self).spec_at(x as int, y as int) == value,
            forall|a: int, b: int|
                0 <= a < final(self).side && 0 <= b < final(self).side && !(a == x && b == y)
                    ==> final(self).spec_at(a, b) == old(self).spec_at(a, b),
    {
        proof {
            lemma_cell_index_in_range(self.side as int, x as int, y as int);
        }
        let idx: usize = y as usize * self.side + x as usize;
        self.data.set(idx, value);
        proof {
            assert forall|a: int, b: int|
                0 <= a < self.side && 0 <= b < self.side && !(a == x && b == y)
                    implies self.spec_at(a, b) == old(self).spec_at(a, b) by {
                lemma_cell_index_in_range(self.side as int, a, b);
                lemma_cell_index_injective(self.side as int, a, b, x as int, y as int);
            }
        }
    }
}

/// A row-major cell index lies inside the square.
proof fn lemma_cell_index_in_range(side: int, x: int, y: int)
    requires
        0 <= x < side,
        0 <= y < side,
    ensures
        0 <= y * side + x < side * side,
{
    assert(0 <= y * side + x < side * side) by (nonlinear_arith)
        requires
            0 <= x < side,
            0 <= y < side,
    ;
}

/// Distinct cells have distinct row-major indices.
proof fn lemma_cell_index_injective(side: int, a: int, b: int, x: int, y: int)
    requires
        0 <= a < side,
        0 <= b < side,
        0 <= x < side,
        0 <= y < side,
        !(a == x && b == y),
    ensures
        b * side + a != y * side + x,
{
    assert(b * side + a != y * side + x) by (nonlinear_arith)
        requires
            0 <= a < side,
            0 <= b < side,
            0 <= x < side,
            0 <= y < side,
            !(a == x && b == y),
    ;
}

/// The extraction pass over the host-side model: sample the water and the
/// terrain field at every query point. The result vectors are exactly as
/// long as the query list and `result[i]` is the sampled value for
/// `queries[i]`.
pub fn extract_heights(water: &ScalarGrid, terrain: &ScalarGrid, queries: &Vec<QueryPosition>) -> (out: (
    Vec<i64>,
    Vec<i64>,
))
    requires
        water.wf(),
        terrain.wf(),
        terrain.side == water.side,
        forall|i: int| 0 <= i < queries@.len() ==> (#[trigger] queries@[i]).in_bounds(
            water.side as int,
        ),
    ensures
        out.0@.len() == queries@.len(),
        out.1@.len() == queries@.len(),
        forall|i: int|
            0 <= i < queries@.len() ==> out.0@[i] == water.spec_at(
                #[trigger] queries@[i].x as int,
                queries@[i].y as int,
            ),
        forall|i: int|
            0 <= i < queries@.len() ==> out.1@[i] == terrain.spec_at(
                #[trigger] queries@[i].x as int,
                queries@[i].y as int,
            ),
{
    let mut water_out: Vec<i64> = Vec::new();
    let mut terrain_out: Vec<i64> = Vec::new();
    let mut i: usize = 0;
    while i < queries.len()
        invariant
            i <= queries@.len(),
            water.wf(),
            terrain.wf(),
            terrain.side == water.side,
            forall|k: int| 0 <= k < queries@.len() ==> (#[trigger] queries@[k]).in_bounds(
                water.side as int,
            ),
            water_out@.len() == i,
            terrain_out@.len() == i,
            forall|k: int|
                0 <= k < i ==> water_out@[k] == water.spec_at(
                    #[trigger] queries@[k].x as int,
                    queries@[k].y as int,
                ),
            forall|k: int|
                0 <= k < i ==> terrain_out@[k] == terrain.spec_at(
                    #[trigger] queries@[k].x as int,
                    queries@[k].y as int,
                ),
        decreases queries@.len() - i,
    {
        let q = queries[i];
        water_out.push(water.at(q.x, q.y));
        terrain_out.push(terrain.at(q.x, q.y));
        i = i + 1;
    }
    (water_out, terrain_out)
}

} // verus!
