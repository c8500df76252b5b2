//! The growth controller: plant occupants on a fixed occupancy grid.
//!
//! Each occupant lives in one cell of the `GRID_CELLS x GRID_CELLS`
//! occupancy grid, carries a health value driven by the extracted water
//! height through the health curve, matures the first time its health
//! rises above zero, and is hidden for good once it is mature and its
//! health falls back to zero or below. Occupants are never removed from
//! the grid. The player's vertical position is updated from the extracted
//! heights with outliers rejected.

use vstd::prelude::*;

use crate::curve::health_curve;
use crate::curve::is_curve_value;
use crate::curve::HEALTH_OFFSET;
use crate::curve::SCALE;
use crate::GRID_CELLS;
use crate::OCCUPANCY_CELLS;

verus! {

/// Initial health of a freshly seeded occupant, in micro-units: slightly
/// negative, meaning not yet germinated.
pub const PLANT_SEED_HEALTH: i64 = -1337;

/// Offset added to an occupant's health before clamping it into the
/// visual scale range, in micro-units.
pub const SCALE_EPSILON: i64 = 1337;

/// Largest visual scale of an occupant, in micro-units.
pub const SCALE_MAX_VISUAL: i64 = 50_000;

/// An extracted water height above this, at the player's probe, lets
/// candidate cells germinate. Micro-units.
pub const GERMINATION_THRESHOLD: i64 = 20_000;

/// Clearance added to the player's vertical position above the combined
/// water and terrain height, in micro-units.
pub const PLAYER_CLEARANCE: i64 = 133_700;

/// A combined height whose magnitude reaches this bound is rejected as a
/// numerical outlier when placing the player. Micro-units (10 grid units).
pub const PLAYER_HEIGHT_LIMIT: i64 = 10_000_000;

/// Extracted heights handed to an occupant update are clamped into this
/// magnitude, in micro-units, which keeps the curve input within
/// `CURVE_INPUT_BOUND`.
pub const HEIGHT_CLAMP: i64 = 20_000_000;

/// Largest world-coordinate magnitude the spawn-distance test accepts,
/// in micro-units.
pub const COORD_BOUND: i64 = 1_000_000_000_000;

/// One plant occupant.
#[derive(Clone, Copy, Debug, PartialEq, Eq, Structural)]
pub struct Plant {
    /// Health in micro-units; negative means not yet germinated.
    pub health: i64,
    /// Sticky maturity latch: set the first time health rises above zero,
    /// never reset.
    pub is_no_longer_baby: bool,
    /// Sticky visibility latch: set once the occupant is mature and its
    /// health falls to zero or below, never reset.
    pub hidden: bool,
    /// Visual scale in micro-units, within `[0, SCALE_MAX_VISUAL]`.
    pub scale: i64,
    /// Vertical position in micro-units, following the occupant's terrain
    /// height.
    pub y: i64,
    /// World position along x where this occupant was seeded, in
    /// cell-space micro-units; fixed for life.
    pub pos_x: i64,
    /// World position along z where this occupant was seeded, in
    /// cell-space micro-units; fixed for life.
    pub pos_z: i64,
    /// Column of the occupancy cell this occupant holds.
    pub cell_x: usize,
    /// Row of the occupancy cell this occupant holds.
    pub cell_y: usize,
}

/// The visual scale for a health value: `health + SCALE_EPSILON` clamped
/// into `[0, SCALE_MAX_VISUAL]`.
pub open spec fn spec_visual_scale(health: int) -> int {
    if health + SCALE_EPSILON < 0 {
        0
    } else if health + SCALE_EPSILON > SCALE_MAX_VISUAL {
        SCALE_MAX_VISUAL as int
    } else {
        health + SCALE_EPSILON
    }
}

impl Plant {
    /// A freshly germinated occupant for one cell: slightly negative
    /// health, not mature, visible, zero visual scale, resting on the
    /// extracted terrain height.
    pub fn seed(cell_x: usize, cell_y: usize, pos_x: i64, pos_z: i64, terrain_height: i64) -> (p:
        Plant)
        ensures
            p.health == PLANT_SEED_HEALTH,
            !p.is_no_longer_baby,
            !p.hidden,
            p.scale == 0,
            p.y == terrain_height,
            p.pos_x == pos_x,
            p.pos_z == pos_z,
            p.cell_x == cell_x,
            p.cell_y == cell_y,
    {
        Plant {
            health: PLANT_SEED_HEALTH,
            is_no_longer_baby: false,
            hidden: false,
            scale: 0,
            y: terrain_height,
            pos_x,
            pos_z,
            cell_x,
            cell_y,
        }
    }

    /// One frame of lifecycle from this occupant's extracted heights: the
    /// health follows the curve of five times the water height, the
    /// visual scale follows the health, the vertical position follows the
    /// terrain height, maturity latches on the first positive health, and
    /// a mature occupant whose health is no longer positive is hidden for
    /// good.
    pub fn grow(&mut self, water_height: i64, terrain_height: i64)
        requires
            -HEIGHT_CLAMP <= water_height <= HEIGHT_CLAMP,
        ensures
            is_curve_value(5 * water_height, final(self).health as int),
            -HEALTH_OFFSET <= final(self).health <= SCALE - HEALTH_OFFSET,
            final(self).is_no_longer_baby == (old(self).is_no_longer_baby
                || final(self).health > 0),
            final(self).hidden == (old(self).hidden
                || (old(self).is_no_longer_baby && final(self).health <= 0)),
            final(self).scale == spec_visual_scale(final(self).health as int),
            final(self).y == terrain_height,
            final(self).pos_x == old(self).pos_x,
            final(self).pos_z == old(self).pos_z,
            final(self).cell_x == old(self).cell_x,
            final(self).cell_y == old(self).cell_y,
    {
        let h: i64 = health_curve(5 * water_height);
        self.health = h;
        self.y = terrain_height;
        let mut s: i64 = h + SCALE_EPSILON;
        if s < 0 {
            s = 0;
        }
        if s > SCALE_MAX_VISUAL {
            s = SCALE_MAX_VISUAL;
        }
        self.scale = s;
        if self.is_no_longer_baby && self.health <= 0 {
            self.hidden = true;
        } else if !self.is_no_longer_baby && self.health > 0 {
            self.is_no_longer_baby = true;
        }
    }
}

/// The player's vertical position after consuming slot 0 of the extracted
/// heights: the combined water and terrain height plus a clearance, unless
/// either sample is missing (a non-finite float at the boundary) or the
/// combined magnitude reaches `PLAYER_HEIGHT_LIMIT`, in which case the
/// position is left unchanged.
pub open spec fn spec_update_player_height(
    current: i64,
    water: Option<i64>,
    terrain: Option<i64>,
) -> int {
    match (water, terrain) {
        (Some(w), Some(t)) => if -(PLAYER_HEIGHT_LIMIT as int) < w + t < PLAYER_HEIGHT_LIMIT as int {
            w + t + PLAYER_CLEARANCE
        } else {
            current as int
        },
        _ => current as int,
    }
}

/// Update the player's vertical position from the extracted water and
/// terrain heights of the player's probe, rejecting outliers.
pub fn update_player_height(current: i64, water: Option<i64>, terrain: Option<i64>) -> (y: i64)
    ensures
        y as int == spec_update_player_height(current, water, terrain),
{
    match (water, terrain) {
        (Some(w), Some(t)) => {
            let sum: i128 = w as i128 + t as i128;
            if -(PLAYER_HEIGHT_LIMIT as i128) < sum && sum < PLAYER_HEIGHT_LIMIT as i128 {
                (sum as i64) + PLAYER_CLEARANCE
            } else {
                current
            }
        },
        _ => current,
    }
}

/// The spawn-probability test: a candidate within the radius spawns when
/// the unit draw lies under `1 - distance / radius`. Written over squares,
/// so no square root is needed: with `d2` the squared distance,
/// `d2 <= radius^2` and `d2 * SCALE^2 < radius^2 * (SCALE - draw)^2`.
pub open spec fn spec_should_spawn(
    player_x: int,
    player_z: int,
    spawn_x: int,
    spawn_z: int,
    max_radius: int,
    draw: int,
) -> bool {
    let d2 = (spawn_x - player_x) * (spawn_x - player_x) + (spawn_z - player_z) * (spawn_z
        - player_z);
    &&& d2 <= max_radius * max_radius
    &&& d2 * (SCALE as int) * (SCALE as int) < max_radius * max_radius * (SCALE - draw) * (SCALE
        - draw)
}

/// Whether an empty cell's candidate point near the player spawns a new
/// occupant this frame: it must lie within the radius, and a unit random
/// draw must fall under a probability that rises as the candidate nears
/// the player. Positions in world micro-units; `draw` in `[0, SCALE]`.
pub fn should_spawn_based_on_distance(
    player_x: i64,
    player_z: i64,
    spawn_x: i64,
    spawn_z: i64,
    max_radius: i64,
    draw: i64,
) -> (b: bool)
    requires
        -COORD_BOUND <= player_x <= COORD_BOUND,
        -COORD_BOUND <= player_z <= COORD_BOUND,
        -COORD_BOUND <= spawn_x <= COORD_BOUND,
        -COORD_BOUND <= spawn_z <= COORD_BOUND,
        0 < max_radius <= COORD_BOUND,
        0 <= draw <= SCALE,
    ensures
        b == spec_should_spawn(
            player_x as int,
            player_z as int,
            spawn_x as int,
            spawn_z as int,
            max_radius as int,
            draw as int,
        ),
{
    let dx: i128 = spawn_x as i128 - player_x as i128;
    let dz: i128 = spawn_z as i128 - player_z as i128;
    proof {
        assert(0 <= dx as int * (dx as int) <= 4_000_000_000_000_000_000_000_000int
            && 0 <= dz as int * (dz as int) <= 4_000_000_000_000_000_000_000_000int)
            by (nonlinear_arith)
            requires
                -2_000_000_000_000 <= dx as int <= 2_000_000_000_000,
                -2_000_000_000_000 <= dz as int <= 2_000_000_000_000,
        ;
    }
    let d2: i128 = dx * dx + dz * dz;
    proof {
        assert(0 <= (max_radius as int) * (max_radius as int)
            <= 1_000_000_000_000_000_000_000_000int) by (nonlinear_arith)
            requires
                0 < max_radius as int <= 1_000_000_000_000int,
        ;
    }
    let r2: i128 = (max_radius as i128) * (max_radius as i128);
    if d2 > r2 {
        return false;
    }
    let unit: i128 = (SCALE - draw) as i128;
    proof {
        assert(d2 as int * 1_000_000int * 1_000_000int
            <= 8_000_000_000_000_000_000_000_000_000_000_000_000int) by (nonlinear_arith)
            requires
                0 <= d2 as int <= 8_000_000_000_000_000_000_000_000int,
        ;
        assert(0 <= r2 as int * (unit as int) <= 1_000_000_000_000_000_000_000_000_000_000int)
            by (nonlinear_arith)
            requires
                0 <= r2 as int <= 1_000_000_000_000_000_000_000_000int,
                0 <= unit as int <= 1_000_000int,
        ;
        assert(0 <= r2 as int * (unit as int) * (unit as int)
            <= 1_000_000_000_000_000_000_000_000_000_000_000_000int) by (nonlinear_arith)
            requires
                0 <= r2 as int * (unit as int) <= 1_000_000_000_000_000_000_000_000_000_000int,
                0 <= unit as int <= 1_000_000int,
        ;
    }
    let lhs: i128 = d2 * 1_000_000 * 1_000_000;
    let rhs: i128 = r2 * unit * unit;
    lhs < rhs
}

/// The occupancy grid: one optional occupant per cell, row-major with
/// `GRID_CELLS` cells to a row; the cell at column `x`, row `y` sits at
/// index `x * GRID_CELLS + y`. An occupant's stored coordinates point back
/// at its own cell.
#[derive(Clone, Debug)]
pub struct PlantGrid {
    pub grid: Vec<Option<Plant>>,
}

impl PlantGrid {
    /// The grid covers every occupancy cell, and each occupant's
    /// back-reference names the cell that holds it.
    pub open spec fn wf(&self) -> bool {
        &&& self.grid.len() == OCCUPANCY_CELLS
        &&& forall|k: int|
            0 <= k < self.grid.len() && (#[trigger] self.grid[k]) is Some ==> {
                let p = self.grid[k]->Some_0;
                &&& p.cell_x < GRID_CELLS
                &&& p.cell_y < GRID_CELLS
                &&& p.cell_x * GRID_CELLS + p.cell_y == k
            }
    }

    /// The occupant, if any, of the cell at column `x`, row `y`.
    pub open spec fn spec_cell(&self, x: int, y: int) -> Option<Plant> {
        self.grid[x * GRID_CELLS + y]
    }

    /// An empty grid: every cell unoccupied.
    pub fn new() -> (g: PlantGrid)
        ensures
            g.wf(),
            forall|k: int| 0 <= k < OCCUPANCY_CELLS ==> (#[trigger] g.grid[k]) is None,
    {
        let mut grid: Vec<Option<Plant>> = Vec::new();
        let mut i: usize = 0;
        while i < OCCUPANCY_CELLS as usize
            invariant
                i <= OCCUPANCY_CELLS,
                grid.len() == i,
                forall|k: int| 0 <= k < i ==> (#[trigger] grid[k]) is None,
            decreases OCCUPANCY_CELLS - i,
        {
            grid.push(None);
            i = i + 1;
        }
        PlantGrid { grid }
    }

    /// Read the cell at column `x`, row `y`.
    pub fn cell(&self, x: usize, y: usize) -> (c: Option<Plant>)
        requires
            self.wf(),
            x < GRID_CELLS,
            y < GRID_CELLS,
        ensures
            c == self.spec_cell(x as int, y as int),
    {
        proof {
            lemma_occupancy_index_in_range(x as int, y as int);
        }
        self.grid[x * GRID_CELLS as usize + y]
    }

    /// Put an occupant into its own cell.
    pub fn set_cell(&mut self, x: usize, y: usize, p: Plant)
        requires
            old(self).wf(),
            x < GRID_CELLS,
            y < GRID_CELLS,
            p.cell_x == x,
            p.cell_y == y,
        ensures
            final(self).wf(),
            final(self).spec_cell(x as int, y as int) == Some(p),
            final(self).grid@[x * GRID_CELLS + y] == Some(p),
            forall|k: int|
                0 <= k < old(self).grid.len() && k != x * GRID_CELLS + y ==> final(self).grid@[k]
                    == old(self).grid@[k],
            final(self).grid.len() == old(self).grid.len(),
    {
        proof {
            lemma_occupancy_index_in_range(x as int, y as int);
        }
        let idx: usize = x * GRID_CELLS as usize + y;
        self.grid.set(idx, Some(p));
    }
}

/// A row-major occupancy index lies inside the grid.
proof fn lemma_occupancy_index_in_range(x: int, y: int)
    requires
        0 <= x < GRID_CELLS,
        0 <= y < GRID_CELLS,
    ensures
        0 <= x * GRID_CELLS + y < OCCUPANCY_CELLS,
{
    assert(0 <= x * (GRID_CELLS as int) + y < OCCUPANCY_CELLS as int) by (nonlinear_arith)
        requires
            0 <= x < GRID_CELLS as int,
            0 <= y < GRID_CELLS as int,
            GRID_CELLS == 8u32,
            OCCUPANCY_CELLS == 64u32,
    ;
}

} // verus!
