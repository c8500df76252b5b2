//! Building the per-frame extraction query list.
//!
//! Slot 0 of the list carries the player's probe; slots `1..1+k` carry one
//! probe per live occupant, in row-major cell order; the remaining slots
//! carry one candidate probe per empty cell that passes the spawn test.
//! Every cell contributes at most one slot, so occupants plus candidates
//! never exceed `OCCUPANCY_CELLS` and the list never exceeds the buffer
//! capacity `EXTRACT_BUFFER_SIZE`.
//!
//! World positions are measured in cell space, fifty cell-space units to
//! one world unit, held as micro-units (millionths), so that a
//! candidate's position inside its cell is an exact integer.

use vstd::prelude::*;

use crate::curve::SCALE;
use crate::grid::QueryPosition;
use crate::growth::spec_should_spawn;
use crate::growth::should_spawn_based_on_distance;
use crate::growth::Plant;
use crate::growth::PlantGrid;
use crate::growth::COORD_BOUND;
use crate::EXTRACT_BUFFER_SIZE;
use crate::GRID_CELLS;
use crate::OCCUPANCY_CELLS;
use crate::SIZE;

verus! {

/// Width of one occupancy cell in cell-space micro-units.
pub const CELL_SPAN: i64 = 32_000_000;

/// Offset of the grid's left edge in cell-space micro-units
/// (half of `SIZE` cells).
pub const HALF_SPAN: i64 = 128_000_000;

/// The radius around the player inside which empty cells may spawn a
/// candidate, in cell-space micro-units.
pub const SPAWN_RADIUS: i64 = 10_000_000;

/// A world coordinate mapped to a grid coordinate: the cell-space value
/// is scaled onto `[0, SIZE)` with the grid's centre at the middle, and
/// clamped into range.
pub open spec fn spec_grid_point(c: int) -> int {
    let m = c * 512 + 64_000_000_000;
    if m < 0 {
        0
    } else if m / 500_000_000 > 255 {
        255
    } else {
        m / 500_000_000
    }
}

/// The probe for a world position: both coordinates mapped to the grid.
pub open spec fn spec_probe(cx: int, cz: int) -> QueryPosition {
    QueryPosition { x: spec_grid_point(cx) as u32, y: spec_grid_point(cz) as u32 }
}

/// Map one world coordinate to a grid coordinate.
pub fn grid_point_of(c: i64) -> (g: u32)
    ensures
        g as int == spec_grid_point(c as int),
        g < SIZE,
{
    let m: i128 = c as i128 * 512 + 64_000_000_000;
    if m < 0 {
        0
    } else {
        let q: u128 = (m as u128) / 500_000_000;
        if q > 255 {
            255
        } else {
            q as u32
        }
    }
}

/// Build the probe for a world position.
pub fn probe_of(cx: i64, cz: i64) -> (q: QueryPosition)
    ensures
        q == spec_probe(cx as int, cz as int),
        q.in_bounds(SIZE as int),
{
    QueryPosition { x: grid_point_of(cx), y: grid_point_of(cz) }
}

/// A candidate's world position along x, for cell column `i` with this
/// frame's random offset into the cell.
pub open spec fn spec_candidate_x(i: int, off: int) -> int {
    i * CELL_SPAN + off - HALF_SPAN
}

/// A candidate's world position along z, for cell row `j` with this
/// frame's random offset into the cell.
pub open spec fn spec_candidate_z(j: int, off: int) -> int {
    j * CELL_SPAN + off - HALF_SPAN
}

/// Whether the cell at flat index `k` yields a candidate this frame: it
/// must be empty and its randomized point must pass the spawn test
/// against the player's position.
pub open spec fn spec_candidate_at(
    g: PlantGrid,
    player_x: int,
    player_z: int,
    offsets: Seq<(i64, i64)>,
    draws: Seq<i64>,
    k: int,
) -> bool {
    &&& g.grid[k] is None
    &&& spec_should_spawn(
        player_x,
        player_z,
        spec_candidate_x(k / (GRID_CELLS as int), offsets[k].0 as int),
        spec_candidate_z(k % (GRID_CELLS as int), offsets[k].1 as int),
        SPAWN_RADIUS as int,
        draws[k] as int,
    )
}

/// How many of the first `k` cells are occupied.
pub open spec fn count_occupied_prefix(s: Seq<Option<Plant>>, k: int) -> int
    decreases k,
{
    if k <= 0 {
        0
    } else {
        count_occupied_prefix(s, k - 1) + if s[k - 1] is Some {
            1int
        } else {
            0int
        }
    }
}

/// How many of the first `k` cells yield a candidate this frame.
pub open spec fn count_candidates_prefix(
    g: PlantGrid,
    player_x: int,
    player_z: int,
    offsets: Seq<(i64, i64)>,
    draws: Seq<i64>,
    k: int,
) -> int
    decreases k,
{
    if k <= 0 {
        0
    } else {
        count_candidates_prefix(g, player_x, player_z, offsets, draws, k - 1) + if
            spec_candidate_at(g, player_x, player_z, offsets, draws, k - 1) {
            1int
        } else {
            0int
        }
    }
}

/// Capacity bound: every cell is either occupied or empty, and only empty
/// cells yield candidates, so over any prefix the occupants and the
/// candidates together never outnumber the cells scanned.
pub proof fn lemma_counts_bounded(
    g: PlantGrid,
    player_x: int,
    player_z: int,
    offsets: Seq<(i64, i64)>,
    draws: Seq<i64>,
    k: int,
)
    requires
        0 <= k,
    ensures
        0 <= count_occupied_prefix(g.grid@, k),
        0 <= count_candidates_prefix(g, player_x, player_z, offsets, draws, k),
        count_occupied_prefix(g.grid@, k) + count_candidates_prefix(
            g,
            player_x,
            player_z,
            offsets,
            draws,
            k,
        ) <= k,
    decreases k,
{
    if k > 0 {
        lemma_counts_bounded(g, player_x, player_z, offsets, draws, k - 1);
    }
}

/// The flat row-major index of an occupancy cell.
pub open spec fn flat_cell(c: (usize, usize)) -> int {
    c.0 * GRID_CELLS + c.1
}

/// One frame's extraction query list with the bookkeeping needed to
/// consume its results: which cells the occupant slots and the candidate
/// slots stand for, and where each candidate's randomized point lies.
pub struct QueryPlan {
    /// The probes, slot 0 the player's.
    pub points: Vec<QueryPosition>,
    /// The cell of each occupant slot, in slot order.
    pub occupant_cells: Vec<(usize, usize)>,
    /// The cell of each candidate slot, in slot order.
    pub candidate_cells: Vec<(usize, usize)>,
    /// Each candidate's world position, in slot order.
    pub candidate_positions: Vec<(i64, i64)>,
}

impl QueryPlan {
    /// The slots line up: one player probe, then the occupant probes,
    /// then the candidate probes, all within the buffer capacity and all
    /// addressing the grid.
    pub open spec fn wf(&self) -> bool {
        &&& self.points.len() == 1 + self.occupant_cells.len() + self.candidate_cells.len()
        &&& self.candidate_positions.len() == self.candidate_cells.len()
        &&& self.points.len() <= EXTRACT_BUFFER_SIZE
        &&& forall|i: int|
            0 <= i < self.points.len() ==> (#[trigger] self.points[i]).in_bounds(SIZE as int)
    }
}

/// Size in bytes of the device buffer holding the query points: two
/// 32-bit coordinates per slot, for the full capacity.
pub fn query_buffer_bytes() -> (n: u64)
    ensures
        n == 8 * EXTRACT_BUFFER_SIZE,
{
    8 * EXTRACT_BUFFER_SIZE as u64
}

/// Size in bytes of each extraction output buffer and of each staging
/// buffer: one 32-bit float per slot, for the full capacity.
pub fn result_buffer_bytes() -> (n: u64)
    ensures
        n == 4 * EXTRACT_BUFFER_SIZE,
{
    4 * EXTRACT_BUFFER_SIZE as u64
}

/// The query buffer holds `EXTRACT_BUFFER_SIZE` slots and the extraction
/// kernel reads them all, so the unused tail must still hold valid
/// points: pad the plan's list with copies of the player's probe, whose
/// extracted values the consumer ignores.
pub fn padded_points(plan: &QueryPlan) -> (v: Vec<QueryPosition>)
    requires
        plan.wf(),
    ensures
        v@.len() == EXTRACT_BUFFER_SIZE,
        forall|i: int| 0 <= i < plan.points@.len() ==> v@[i] == plan.points@[i],
        forall|i: int|
            plan.points@.len() <= i < EXTRACT_BUFFER_SIZE ==> v@[i] == plan.points@[0],
        forall|i: int| 0 <= i < v@.len() ==> (#[trigger] v@[i]).in_bounds(SIZE as int),
{
    let mut v: Vec<QueryPosition> = Vec::new();
    let n: usize = plan.points.len();
    let mut i: usize = 0;
    while i < n
        invariant
            n == plan.points@.len(),
            plan.wf(),
            i <= n,
            v@.len() == i,
            forall|j: int| 0 <= j < i ==> v@[j] == plan.points@[j],
        decreases n - i,
    {
        v.push(plan.points[i]);
        i = i + 1;
    }
    let filler = plan.points[0];
    while i < EXTRACT_BUFFER_SIZE as usize
        invariant
            n == plan.points@.len(),
            plan.wf(),
            n <= i <= EXTRACT_BUFFER_SIZE,
            filler == plan.points@[0],
            v@.len() == i,
            forall|j: int| 0 <= j < n ==> v@[j] == plan.points@[j],
            forall|j: int| n <= j < i ==> v@[j] == plan.points@[0],
        decreases EXTRACT_BUFFER_SIZE - i,
    {
        v.push(filler);
        i = i + 1;
    }
    v
}

/// The plan addresses the grid it was built from: occupant slots name
/// occupied cells and candidate slots name empty cells, each list in
/// strictly increasing row-major order (so no cell is named twice).
pub open spec fn plan_covers(plan: QueryPlan, g: PlantGrid) -> bool {
    &&& plan.wf()
    &&& forall|m: int|
        0 <= m < plan.occupant_cells@.len() ==> {
            let c = #[trigger] plan.occupant_cells@[m];
            &&& 0 <= flat_cell(c) < g.grid.len()
            &&& c.0 < GRID_CELLS
            &&& c.1 < GRID_CELLS
            &&& g.grid@[flat_cell(c)] is Some
        }
    &&& forall|m: int|
        0 <= m < plan.candidate_cells@.len() ==> {
            let c = #[trigger] plan.candidate_cells@[m];
            &&& 0 <= flat_cell(c) < g.grid.len()
            &&& c.0 < GRID_CELLS
            &&& c.1 < GRID_CELLS
            &&& g.grid@[flat_cell(c)] is None
        }
    &&& forall|m1: int, m2: int|
        0 <= m1 < m2 < plan.occupant_cells@.len() ==> flat_cell(#[trigger] plan.occupant_cells@[m1])
            < flat_cell(#[trigger] plan.occupant_cells@[m2])
    &&& forall|m1: int, m2: int|
        0 <= m1 < m2 < plan.candidate_cells@.len() ==> flat_cell(
            #[trigger] plan.candidate_cells@[m1],
        ) < flat_cell(#[trigger] plan.candidate_cells@[m2])
}

/// Whether the plan's occupant or candidate slots name the cell at flat
/// index `k`.
pub open spec fn plan_touches(plan: QueryPlan, k: int) -> bool {
    ||| exists|m: int|
        0 <= m < plan.occupant_cells@.len() && flat_cell(#[trigger] plan.occupant_cells@[m]) == k
    ||| exists|m: int|
        0 <= m < plan.candidate_cells@.len() && flat_cell(#[trigger] plan.candidate_cells@[m]) == k
}

/// Build the frame's query list from the occupancy grid, the player's
/// position, and the frame's random offsets and draws (one pair and one
/// draw per cell, row-major). Slot 0 probes the player; the occupied
/// cells follow in row-major order, each probing its occupant's seeded
/// position; the empty cells that pass the spawn test follow, each
/// probing its randomized candidate point.
pub fn build_query_plan(
    grid: &PlantGrid,
    player_x: i64,
    player_z: i64,
    offsets: &Vec<(i64, i64)>,
    draws: &Vec<i64>,
) -> (plan: QueryPlan)
    requires
        grid.wf(),
        -COORD_BOUND <= player_x <= COORD_BOUND,
        -COORD_BOUND <= player_z <= COORD_BOUND,
        offsets@.len() == OCCUPANCY_CELLS,
        draws@.len() == OCCUPANCY_CELLS,
        forall|k: int|
            0 <= k < OCCUPANCY_CELLS ==> 0 <= (#[trigger] offsets@[k]).0 <= CELL_SPAN && 0
                <= offsets@[k].1 <= CELL_SPAN,
        forall|k: int| 0 <= k < OCCUPANCY_CELLS ==> 0 <= #[trigger] draws@[k] <= SCALE,
    ensures
        plan.wf(),
        plan.points@[0] == spec_probe(player_x as int, player_z as int),
        plan.occupant_cells@.len() == count_occupied_prefix(grid.grid@, OCCUPANCY_CELLS as int),
        plan.candidate_cells@.len() == count_candidates_prefix(
            *grid,
            player_x as int,
            player_z as int,
            offsets@,
            draws@,
            OCCUPANCY_CELLS as int,
        ),
        plan.occupant_cells@.len() + plan.candidate_cells@.len() <= OCCUPANCY_CELLS,
        forall|m: int|
            0 <= m < plan.occupant_cells@.len() ==> {
                let c = #[trigger] plan.occupant_cells@[m];
                &&& 0 <= flat_cell(c) < OCCUPANCY_CELLS
                &&& c.0 < GRID_CELLS
                &&& c.1 < GRID_CELLS
                &&& grid.grid@[flat_cell(c)] is Some
                &&& plan.points@[1 + m] == spec_probe(
                    grid.grid@[flat_cell(c)]->Some_0.pos_x as int,
                    grid.grid@[flat_cell(c)]->Some_0.pos_z as int,
                )
            },
        forall|m1: int, m2: int|
            0 <= m1 < m2 < plan.occupant_cells@.len() ==> flat_cell(#[trigger] plan.occupant_cells@[m1])
                < flat_cell(#[trigger] plan.occupant_cells@[m2]),
        forall|m: int|
            0 <= m < plan.candidate_cells@.len() ==> {
                let c = #[trigger] plan.candidate_cells@[m];
                &&& 0 <= flat_cell(c) < OCCUPANCY_CELLS
                &&& c.0 < GRID_CELLS
                &&& c.1 < GRID_CELLS
                &&& spec_candidate_at(
                    *grid,
                    player_x as int,
                    player_z as int,
                    offsets@,
                    draws@,
                    flat_cell(c),
                )
                &&& plan.candidate_positions@[m].0 == spec_candidate_x(
                    c.0 as int,
                    offsets@[flat_cell(c)].0 as int,
                )
                &&& plan.candidate_positions@[m].1 == spec_candidate_z(
                    c.1 as int,
                    offsets@[flat_cell(c)].1 as int,
                )
                &&& plan.points@[1 + plan.occupant_cells@.len() + m] == spec_probe(
                    plan.candidate_positions@[m].0 as int,
                    plan.candidate_positions@[m].1 as int,
                )
            },
        forall|m1: int, m2: int|
            0 <= m1 < m2 < plan.candidate_cells@.len() ==> flat_cell(
                #[trigger] plan.candidate_cells@[m1],
            ) < flat_cell(#[trigger] plan.candidate_cells@[m2]),
        plan_covers(plan, *grid),
{
    let mut points: Vec<QueryPosition> = Vec::new();
    let mut occupant_cells: Vec<(usize, usize)> = Vec::new();
    let mut candidate_cells: Vec<(usize, usize)> = Vec::new();
    let mut candidate_positions: Vec<(i64, i64)> = Vec::new();

    points.push(probe_of(player_x, player_z));

    let mut k: usize = 0;
    while k < OCCUPANCY_CELLS as usize
        invariant
            grid.wf(),
            k <= OCCUPANCY_CELLS,
            occupant_cells@.len() == count_occupied_prefix(grid.grid@, k as int),
            points@.len() == 1 + occupant_cells@.len(),
            points@[0] == spec_probe(player_x as int, player_z as int),
            forall|i: int|
                0 <= i < points@.len() ==> (#[trigger] points@[i]).in_bounds(SIZE as int),
            forall|m: int|
                0 <= m < occupant_cells@.len() ==> {
                    let c = #[trigger] occupant_cells@[m];
                    &&& 0 <= flat_cell(c) < k
                    &&& c.0 < GRID_CELLS
                    &&& c.1 < GRID_CELLS
                    &&& grid.grid@[flat_cell(c)] is Some
                    &&& points@[1 + m] == spec_probe(
                        grid.grid@[flat_cell(c)]->Some_0.pos_x as int,
                        grid.grid@[flat_cell(c)]->Some_0.pos_z as int,
                    )
                },
            forall|m1: int, m2: int|
                0 <= m1 < m2 < occupant_cells@.len() ==> flat_cell(
                    #[trigger] occupant_cells@[m1],
                ) < flat_cell(#[trigger] occupant_cells@[m2]),
        decreases OCCUPANCY_CELLS - k,
    {
        proof {
            lemma_counts_bounded(
                *grid,
                player_x as int,
                player_z as int,
                offsets@,
                draws@,
                k as int,
            );
        }
        let i: usize = k / GRID_CELLS as usize;
        let j: usize = k % GRID_CELLS as usize;
        match grid.grid[k] {
            Some(p) => {
                points.push(probe_of(p.pos_x, p.pos_z));
                occupant_cells.push((i, j));
                proof {
                    assert(flat_cell((i, j)) == k as int);
                }
            },
            None => {},
        }
        k = k + 1;
    }

    let occupant_len: usize = occupant_cells.len();

    let mut k2: usize = 0;
    while k2 < OCCUPANCY_CELLS as usize
        invariant
            grid.wf(),
            k2 <= OCCUPANCY_CELLS,
            -COORD_BOUND <= player_x <= COORD_BOUND,
            -COORD_BOUND <= player_z <= COORD_BOUND,
            offsets@.len() == OCCUPANCY_CELLS,
            draws@.len() == OCCUPANCY_CELLS,
            forall|t: int|
                0 <= t < OCCUPANCY_CELLS ==> 0 <= (#[trigger] offsets@[t]).0 <= CELL_SPAN && 0
                    <= offsets@[t].1 <= CELL_SPAN,
            forall|t: int| 0 <= t < OCCUPANCY_CELLS ==> 0 <= #[trigger] draws@[t] <= SCALE,
            occupant_len == occupant_cells@.len(),
            occupant_cells@.len() == count_occupied_prefix(grid.grid@, OCCUPANCY_CELLS as int),
            candidate_cells@.len() == count_candidates_prefix(
                *grid,
                player_x as int,
                player_z as int,
                offsets@,
                draws@,
                k2 as int,
            ),
            candidate_positions@.len() == candidate_cells@.len(),
            points@.len() == 1 + occupant_cells@.len() + candidate_cells@.len(),
            points@[0] == spec_probe(player_x as int, player_z as int),
            forall|i: int|
                0 <= i < points@.len() ==> (#[trigger] points@[i]).in_bounds(SIZE as int),
            forall|m: int|
                0 <= m < occupant_cells@.len() ==> {
                    let c = #[trigger] occupant_cells@[m];
                    &&& 0 <= flat_cell(c) < OCCUPANCY_CELLS
                    &&& c.0 < GRID_CELLS
                    &&& c.1 < GRID_CELLS
                    &&& grid.grid@[flat_cell(c)] is Some
                    &&& points@[1 + m] == spec_probe(
                        grid.grid@[flat_cell(c)]->Some_0.pos_x as int,
                        grid.grid@[flat_cell(c)]->Some_0.pos_z as int,
                    )
                },
            forall|m1: int, m2: int|
                0 <= m1 < m2 < occupant_cells@.len() ==> flat_cell(
                    #[trigger] occupant_cells@[m1],
                ) < flat_cell(#[trigger] occupant_cells@[m2]),
            forall|m: int|
                0 <= m < candidate_cells@.len() ==> {
                    let c = #[trigger] candidate_cells@[m];
                    &&& 0 <= flat_cell(c) < k2
                    &&& c.0 < GRID_CELLS
                    &&& c.1 < GRID_CELLS
                    &&& spec_candidate_at(
                        *grid,
                        player_x as int,
                        player_z as int,
                        offsets@,
                        draws@,
                        flat_cell(c),
                    )
                    &&& candidate_positions@[m].0 == spec_candidate_x(
                        c.0 as int,
                        offsets@[flat_cell(c)].0 as int,
                    )
                    &&& candidate_positions@[m].1 == spec_candidate_z(
                        c.1 as int,
                        offsets@[flat_cell(c)].1 as int,
                    )
                    &&& points@[1 + occupant_cells@.len() + m] == spec_probe(
                        candidate_positions@[m].0 as int,
                        candidate_positions@[m].1 as int,
                    )
                },
            forall|m1: int, m2: int|
                0 <= m1 < m2 < candidate_cells@.len() ==> flat_cell(
                    #[trigger] candidate_cells@[m1],
                ) < flat_cell(#[trigger] candidate_cells@[m2]),
        decreases OCCUPANCY_CELLS - k2,
    {
        let i: usize = k2 / GRID_CELLS as usize;
        let j: usize = k2 % GRID_CELLS as usize;
        let empty: bool = match grid.grid[k2] {
            Some(_) => false,
            None => true,
        };
        if empty {
            let off = offsets[k2];
            let draw = draws[k2];
            let cand_x: i64 = i as i64 * CELL_SPAN + off.0 - HALF_SPAN;
            let cand_z: i64 = j as i64 * CELL_SPAN + off.1 - HALF_SPAN;
            proof {
                assert(cand_x as int == spec_candidate_x(k2 as int / (GRID_CELLS as int), off.0 as int));
                assert(cand_z as int == spec_candidate_z(k2 as int % (GRID_CELLS as int), off.1 as int));
                assert(-COORD_BOUND <= cand_x <= COORD_BOUND);
                assert(-COORD_BOUND <= cand_z <= COORD_BOUND);
            }
            if should_spawn_based_on_distance(player_x, player_z, cand_x, cand_z, SPAWN_RADIUS, draw) {
                points.push(probe_of(cand_x, cand_z));
                candidate_cells.push((i, j));
                candidate_positions.push((cand_x, cand_z));
                proof {
                    assert(flat_cell((i, j)) == k2 as int);
                }
            }
        }
        k2 = k2 + 1;
    }

    proof {
        lemma_counts_bounded(
            *grid,
            player_x as int,
            player_z as int,
            offsets@,
            draws@,
            OCCUPANCY_CELLS as int,
        );
    }

    QueryPlan { points, occupant_cells, candidate_cells, candidate_positions }
}

} // verus!
