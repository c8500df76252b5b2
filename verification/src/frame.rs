//! The per-frame driver.
//!
//! Each frame walks a fixed sequence: unmap last frame's staging buffers
//! and advance both pipeline state machines while swapping the height
//! roles; write the uniforms and the query list; record the copy of the
//! extraction outputs into the staging buffers; request their map; block
//! until the device is idle; consume the mapped results. The driver's
//! phase makes the order mandatory, and the staging typestate rides along
//! with it. The application performs the device work each step asks for
//! and feeds back plain values.

use vstd::prelude::*;

use crate::curve::is_curve_value;
use crate::curve::SCALE;
use crate::growth::spec_update_player_height;
use crate::growth::spec_visual_scale;
use crate::growth::update_player_height;
use crate::growth::Plant;
use crate::growth::PlantGrid;
use crate::growth::COORD_BOUND;
use crate::growth::GERMINATION_THRESHOLD;
use crate::growth::HEIGHT_CLAMP;
use crate::growth::PLANT_SEED_HEALTH;
use crate::pipeline::extract_stage_index;
use crate::pipeline::sim_stage_index;
use crate::pipeline::spec_extract_advance;
use crate::pipeline::spec_sim_advance;
use crate::pipeline::spec_sim_dispatch;
use crate::pipeline::DispatchKind;
use crate::pipeline::ExtractionState;
use crate::pipeline::SimulationState;
use crate::query::build_query_plan;
use crate::query::flat_cell;
use crate::query::plan_covers;
use crate::query::plan_touches;
use crate::query::QueryPlan;
use crate::query::CELL_SPAN;
use crate::roles::spec_swapped;
use crate::roles::HeightRoles;
use crate::staging::QueryStaging;
use crate::GRID_CELLS;
use crate::OCCUPANCY_CELLS;

verus! {

/// The uniform block written once per frame before the simulation
/// dispatch that consumes it.
#[derive(Clone, Copy, Debug, PartialEq, Eq, Structural)]
pub struct SimulationUniforms {
    /// The player's position along x, normalized into `[0, SCALE]`.
    pub player_x: i64,
    /// The player's position along z, normalized into `[0, SCALE]`.
    pub player_z: i64,
    /// The input flag as an integer: 1 while the button is held.
    pub click: u32,
}

/// A cell-space coordinate normalized into `[0, SCALE]` grid space: the
/// grid spans `[-HALF, HALF]` in cell space, mapped onto `[0, 1]` and
/// clamped.
pub open spec fn spec_normalized(c: int) -> int {
    let m = c + 125_000_000;
    if m < 0 {
        0
    } else if m / 250 > SCALE {
        SCALE as int
    } else {
        m / 250
    }
}

/// Normalize one cell-space coordinate into `[0, SCALE]` grid space.
pub fn normalized_of(c: i64) -> (u: i64)
    ensures
        u as int == spec_normalized(c as int),
        0 <= u <= SCALE,
{
    let m: i128 = c as i128 + 125_000_000;
    if m < 0 {
        0
    } else {
        let q: u128 = (m as u128) / 250;
        if q > 1_000_000 {
            SCALE
        } else {
            q as i64
        }
    }
}

/// An extracted height usable for an occupant update: present (the float
/// at the boundary was finite) and within the clamp bound.
pub open spec fn acceptable_height(h: Option<i64>) -> bool {
    match h {
        Some(v) => -HEIGHT_CLAMP <= v <= HEIGHT_CLAMP,
        None => false,
    }
}

/// Whether the player's extracted water height lets this frame's
/// candidates germinate.
pub open spec fn spec_germinates(w: Option<i64>) -> bool {
    match w {
        Some(v) => v > GERMINATION_THRESHOLD,
        None => false,
    }
}

/// How one occupant changes when its slot's results are consumed: with
/// acceptable heights it grows (health from the curve, scale from the
/// health, position from the terrain, the maturity and hidden latches
/// advancing); with a missing or out-of-range height it is left untouched
/// for the frame.
pub open spec fn spec_occupant_updated(
    before: Plant,
    after: Plant,
    water: Option<i64>,
    terrain: Option<i64>,
) -> bool {
    if acceptable_height(water) && acceptable_height(terrain) {
        &&& is_curve_value(5 * (water->Some_0 as int), after.health as int)
        &&& after.is_no_longer_baby == (before.is_no_longer_baby || after.health > 0)
        &&& after.hidden == (before.hidden || (before.is_no_longer_baby && after.health <= 0))
        &&& after.scale == spec_visual_scale(after.health as int)
        &&& after.y == terrain->Some_0
        &&& after.pos_x == before.pos_x
        &&& after.pos_z == before.pos_z
        &&& after.cell_x == before.cell_x
        &&& after.cell_y == before.cell_y
    } else {
        after == before
    }
}

/// The occupant seeded into a candidate cell when the frame germinates.
pub open spec fn spec_seeded(cell: (usize, usize), pos: (i64, i64), terrain: i64) -> Plant {
    Plant {
        health: PLANT_SEED_HEALTH,
        is_no_longer_baby: false,
        hidden: false,
        scale: 0,
        y: terrain,
        pos_x: pos.0,
        pos_z: pos.1,
        cell_x: cell.0,
        cell_y: cell.1,
    }
}

/// What a candidate cell holds after the frame: a seeded occupant when
/// the player's water height germinates and the cell's terrain sample is
/// present, else still nothing.
pub open spec fn spec_candidate_outcome(
    cell: (usize, usize),
    pos: (i64, i64),
    after: Option<Plant>,
    player_water: Option<i64>,
    terrain: Option<i64>,
) -> bool {
    if spec_germinates(player_water) && terrain is Some {
        after == Some(spec_seeded(cell, pos, terrain->Some_0))
    } else {
        after is None
    }
}

/// Where the frame stands in its fixed sequence of steps.
#[derive(Clone, Copy, Debug, PartialEq, Eq, Structural)]
pub enum FramePhase {
    /// Between frames.
    Idle,
    /// States advanced, roles swapped, staging unmapped.
    Begun,
    /// Uniforms and query list written.
    Queried,
    /// Copy into the staging buffers recorded and submitted.
    Copied,
    /// Asynchronous map requested.
    MapPending,
    /// Device idle, staging mapped: results may be consumed.
    Readable,
}

/// The device work a frame asks of the application once its uniforms and
/// queries are written.
#[derive(Clone, Copy, Debug, PartialEq, Eq, Structural)]
pub struct FrameActions {
    /// Which simulation kernel to dispatch, if any.
    pub sim_dispatch: DispatchKind,
    /// Whether to dispatch the extraction kernel.
    pub extract_dispatch: bool,
    /// The height texture to bind for reading this tick.
    pub read_index: usize,
    /// The height texture to bind for writing this tick.
    pub write_index: usize,
}

/// The per-frame driver: both pipelines' readiness, the height roles, the
/// staging lifecycle, the frame phase, and the player's vertical position.
pub struct FrameDriver {
    /// Readiness of the simulation pipeline.
    pub sim_state: SimulationState,
    /// Readiness of the extraction pipeline.
    pub extract_state: ExtractionState,
    /// Read/write roles of the two height textures.
    pub roles: HeightRoles,
    /// Lifecycle of the staging buffers.
    pub staging: QueryStaging,
    /// Where the frame stands.
    pub phase: FramePhase,
    /// The player's vertical position in micro-units.
    pub player_y: i64,
    /// The query plan of the frame under way.
    pub current_plan: Ghost<QueryPlan>,
    /// The occupancy grid the frame's plan was built from.
    pub current_grid: Ghost<PlantGrid>,
}

impl FrameDriver {
    /// The staging state matches the phase, and from the query step on
    /// the recorded plan addresses the recorded grid.
    pub open spec fn wf(&self) -> bool {
        &&& self.roles.wf()
        &&& match self.phase {
            FramePhase::Idle => self.staging.state is Mapped || self.staging.state is Unmapped,
            FramePhase::Begun => self.staging.state is Unmapped,
            FramePhase::Queried => self.staging.state is Unmapped && plan_covers(
                self.current_plan@,
                self.current_grid@,
            ),
            FramePhase::Copied => self.staging.state is CopyQueued && plan_covers(
                self.current_plan@,
                self.current_grid@,
            ),
            FramePhase::MapPending => self.staging.state is MapRequested && plan_covers(
                self.current_plan@,
                self.current_grid@,
            ),
            FramePhase::Readable => self.staging.state is Mapped && plan_covers(
                self.current_plan@,
                self.current_grid@,
            ),
        }
    }

    /// A fresh driver: both pipelines loading, texture 0 read first, the
    /// staging buffers mapped as created, between frames.
    pub fn new(initial_player_y: i64) -> (d: FrameDriver)
        ensures
            d.wf(),
            d.phase is Idle,
            d.sim_state is Loading,
            d.extract_state is Loading,
            d.roles.read_index == 0,
            d.staging.state is Mapped,
            d.player_y == initial_player_y,
    {
        FrameDriver {
            sim_state: SimulationState::Loading,
            extract_state: ExtractionState::Loading,
            roles: HeightRoles::new(),
            staging: QueryStaging::new_mapped(),
            phase: FramePhase::Idle,
            player_y: initial_player_y,
            current_plan: Ghost(arbitrary()),
            current_grid: Ghost(arbitrary()),
        }
    }

    /// Start a frame: unmap last frame's staging buffers, advance both
    /// readiness machines from the device's compilation reports, and swap
    /// the height roles.
    pub fn begin_frame(
        &mut self,
        init_compiled: bool,
        update_compiled: bool,
        extract_compiled: bool,
    )
        requires
            old(self).wf(),
            old(self).phase is Idle,
        ensures
            final(self).wf(),
            final(self).phase is Begun,
            final(self).staging.state is Unmapped,
            final(self).sim_state == spec_sim_advance(
                old(self).sim_state,
                init_compiled,
                update_compiled,
            ),
            final(self).extract_state == spec_extract_advance(
                old(self).extract_state,
                extract_compiled,
            ),
            sim_stage_index(final(self).sim_state) >= sim_stage_index(old(self).sim_state),
            extract_stage_index(final(self).extract_state) >= extract_stage_index(
                old(self).extract_state,
            ),
            final(self).roles == spec_swapped(old(self).roles),
            final(self).player_y == old(self).player_y,
    {
        self.staging.unmap();
        self.sim_state.advance(init_compiled, update_compiled);
        self.extract_state.advance(extract_compiled);
        self.roles.swap();
        self.phase = FramePhase::Begun;
    }

    /// Write the frame's uniforms and query list — the normalized player
    /// position with the click flag, and the capacity-bounded probe list
    /// built from the occupancy grid and this frame's random offsets and
    /// draws — and say which passes to dispatch with which textures. The
    /// uniforms and queries exist before any dispatch they feed.
    pub fn set_queries(
        &mut self,
        grid: &PlantGrid,
        player_x: i64,
        player_z: i64,
        click: bool,
        offsets: &Vec<(i64, i64)>,
        draws: &Vec<i64>,
    ) -> (out: (SimulationUniforms, QueryPlan, FrameActions))
        requires
            old(self).wf(),
            old(self).phase is Begun,
            grid.wf(),
            -COORD_BOUND <= player_x <= COORD_BOUND,
            -COORD_BOUND <= player_z <= COORD_BOUND,
            offsets@.len() == OCCUPANCY_CELLS,
            draws@.len() == OCCUPANCY_CELLS,
            forall|k: int|
                0 <= k < OCCUPANCY_CELLS ==> 0 <= (#[trigger] offsets@[k]).0 <= CELL_SPAN && 0
                    <= offsets@[k].1 <= CELL_SPAN,
            forall|k: int| 0 <= k < OCCUPANCY_CELLS ==> 0 <= #[trigger] draws@[k] <= SCALE,
        ensures
            final(self).wf(),
            final(self).phase is Queried,
            final(self).staging.state is Unmapped,
            final(self).sim_state == old(self).sim_state,
            final(self).extract_state == old(self).extract_state,
            final(self).roles == old(self).roles,
            final(self).player_y == old(self).player_y,
            final(self).current_plan@ == out.1,
            final(self).current_grid@ == *grid,
            plan_covers(out.1, *grid),
            out.0.player_x as int == spec_normalized(player_x as int),
            out.0.player_z as int == spec_normalized(player_z as int),
            out.0.click == (if click {
                1u32
            } else {
                0u32
            }),
            out.2.sim_dispatch == spec_sim_dispatch(old(self).sim_state),
            out.2.extract_dispatch == (old(self).extract_state is Update),
            out.2.read_index == old(self).roles.read_index,
            out.2.write_index == old(self).roles.spec_write_index(),
            out.2.read_index != out.2.write_index,
            out.1.points@[0] == crate::query::spec_probe(player_x as int, player_z as int),
            out.1.occupant_cells@.len() == crate::query::count_occupied_prefix(
                grid.grid@,
                OCCUPANCY_CELLS as int,
            ),
            forall|m: int|
                0 <= m < out.1.occupant_cells@.len() ==> {
                    let c = #[trigger] out.1.occupant_cells@[m];
                    out.1.points@[1 + m] == crate::query::spec_probe(
                        grid.grid@[flat_cell(c)]->Some_0.pos_x as int,
                        grid.grid@[flat_cell(c)]->Some_0.pos_z as int,
                    )
                },
            forall|m: int|
                0 <= m < out.1.candidate_cells@.len() ==> {
                    let c = #[trigger] out.1.candidate_cells@[m];
                    crate::query::spec_candidate_at(
                        *grid,
                        player_x as int,
                        player_z as int,
                        offsets@,
                        draws@,
                        flat_cell(c),
                    )
                },
    {
        let uniforms = SimulationUniforms {
            player_x: normalized_of(player_x),
            player_z: normalized_of(player_z),
            click: if click {
                1
            } else {
                0
            },
        };
        let plan = build_query_plan(grid, player_x, player_z, offsets, draws);
        let actions = FrameActions {
            sim_dispatch: self.sim_state.dispatch(),
            extract_dispatch: self.extract_state.dispatches(),
            read_index: self.roles.read_index,
            write_index: self.roles.write_index(),
        };
        self.current_plan = Ghost(plan);
        self.current_grid = Ghost(*grid);
        self.phase = FramePhase::Queried;
        (uniforms, plan, actions)
    }

    /// Record and submit the copy of the extraction outputs into the
    /// staging buffers.
    pub fn record_copy(&mut self)
        requires
            old(self).wf(),
            old(self).phase is Queried,
        ensures
            final(self).wf(),
            final(self).phase is Copied,
            final(self).staging.state is CopyQueued,
            final(self).sim_state == old(self).sim_state,
            final(self).extract_state == old(self).extract_state,
            final(self).roles == old(self).roles,
            final(self).player_y == old(self).player_y,
            final(self).current_plan == old(self).current_plan,
            final(self).current_grid == old(self).current_grid,
    {
        self.staging.queue_copy();
        self.phase = FramePhase::Copied;
    }

    /// Request the asynchronous map of the staging buffers for read.
    pub fn record_map_request(&mut self)
        requires
            old(self).wf(),
            old(self).phase is Copied,
        ensures
            final(self).wf(),
            final(self).phase is MapPending,
            final(self).staging.state is MapRequested,
            final(self).sim_state == old(self).sim_state,
            final(self).extract_state == old(self).extract_state,
            final(self).roles == old(self).roles,
            final(self).player_y == old(self).player_y,
            final(self).current_plan == old(self).current_plan,
            final(self).current_grid == old(self).current_grid,
    {
        self.staging.request_map();
        self.phase = FramePhase::MapPending;
    }

    /// The host has blocked until the device went idle: the map is
    /// complete and the staging bytes are valid for this frame.
    pub fn record_wait(&mut self)
        requires
            old(self).wf(),
            old(self).phase is MapPending,
        ensures
            final(self).wf(),
            final(self).phase is Readable,
            final(self).staging.state is Mapped,
            final(self).sim_state == old(self).sim_state,
            final(self).extract_state == old(self).extract_state,
            final(self).roles == old(self).roles,
            final(self).player_y == old(self).player_y,
            final(self).current_plan == old(self).current_plan,
            final(self).current_grid == old(self).current_grid,
    {
        self.staging.wait_idle();
        self.phase = FramePhase::Readable;
    }

    /// Consume the mapped results: place the player from slot 0 with
    /// outliers rejected, grow each occupant from its slot, and seed each
    /// candidate cell whose germination condition holds. The staging
    /// buffers stay mapped; the next frame's start unmaps them.
    pub fn consume_results(
        &mut self,
        grid: &mut PlantGrid,
        plan: &QueryPlan,
        water: &Vec<Option<i64>>,
        terrain: &Vec<Option<i64>>,
    )
        requires
            old(self).wf(),
            old(self).phase is Readable,
            *plan == old(self).current_plan@,
            *old(grid) == old(self).current_grid@,
            old(grid).wf(),
            water@.len() >= plan.points@.len(),
            terrain@.len() >= plan.points@.len(),
        ensures
            final(self).wf(),
            final(self).phase is Idle,
            final(self).staging.state is Mapped,
            final(self).sim_state == old(self).sim_state,
            final(self).extract_state == old(self).extract_state,
            final(self).roles == old(self).roles,
            final(self).player_y as int == spec_update_player_height(
                old(self).player_y,
                water@[0],
                terrain@[0],
            ),
            final(grid).wf(),
            final(grid).grid@.len() == old(grid).grid@.len(),
            forall|m: int|
                0 <= m < plan.occupant_cells@.len() ==> {
                    let k = flat_cell(#[trigger] plan.occupant_cells@[m]);
                    &&& final(grid).grid@[k] is Some
                    &&& spec_occupant_updated(
                        old(grid).grid@[k]->Some_0,
                        final(grid).grid@[k]->Some_0,
                        water@[1 + m],
                        terrain@[1 + m],
                    )
                },
            forall|m: int|
                0 <= m < plan.candidate_cells@.len() ==> spec_candidate_outcome(
                    #[trigger] plan.candidate_cells@[m],
                    plan.candidate_positions@[m],
                    final(grid).grid@[flat_cell(plan.candidate_cells@[m])],
                    water@[0],
                    terrain@[1 + plan.occupant_cells@.len() + m],
                ),
            forall|k: int|
                0 <= k < final(grid).grid@.len() && !plan_touches(*plan, k)
                    ==> final(grid).grid@[k] == old(grid).grid@[k],
    {
        let ghost g0 = *grid;
        self.player_y = update_player_height(self.player_y, water[0], terrain[0]);

        let occupant_len: usize = plan.occupant_cells.len();
        let mut m: usize = 0;
        while m < occupant_len
            invariant
                occupant_len == plan.occupant_cells@.len(),
                m <= occupant_len,
                g0.wf(),
                grid.wf(),
                grid.grid@.len() == g0.grid@.len(),
                plan_covers(*plan, g0),
                plan.points@.len() == 1 + plan.occupant_cells@.len()
                    + plan.candidate_cells@.len(),
                water@.len() >= plan.points@.len(),
                terrain@.len() >= plan.points@.len(),
                forall|m2: int|
                    0 <= m2 < m ==> {
                        let k = flat_cell(#[trigger] plan.occupant_cells@[m2]);
                        &&& grid.grid@[k] is Some
                        &&& spec_occupant_updated(
                            g0.grid@[k]->Some_0,
                            grid.grid@[k]->Some_0,
                            water@[1 + m2],
                            terrain@[1 + m2],
                        )
                    },
                forall|k: int|
                    0 <= k < grid.grid@.len() && !occ_prefix_touches(*plan, m as int, k)
                        ==> grid.grid@[k] == g0.grid@[k],
            decreases occupant_len - m,
        {
            let ghost gpre = *grid;
            let c = plan.occupant_cells[m];
            let slot: usize = 1 + m;
            let w = water[slot];
            let t = terrain[slot];
            let ghost k = flat_cell(plan.occupant_cells@[m as int]);
            proof {
                assert(!occ_prefix_touches(*plan, m as int, k)) by {
                    if occ_prefix_touches(*plan, m as int, k) {
                        let n = choose|n: int|
                            0 <= n < m && n < plan.occupant_cells@.len() && flat_cell(
                                #[trigger] plan.occupant_cells@[n],
                            ) == k;
                        assert(flat_cell(plan.occupant_cells@[n]) < flat_cell(
                            plan.occupant_cells@[m as int],
                        ));
                    }
                }
                assert(grid.grid@[k] == g0.grid@[k]);
            }
            let acceptable: bool = match (w, t) {
                (Some(wv), Some(tv)) => -HEIGHT_CLAMP <= wv && wv <= HEIGHT_CLAMP
                    && -HEIGHT_CLAMP <= tv && tv <= HEIGHT_CLAMP,
                _ => false,
            };
            if acceptable {
                let wv = match w {
                    Some(v) => v,
                    None => 0,
                };
                let tv = match t {
                    Some(v) => v,
                    None => 0,
                };
                match grid.cell(c.0, c.1) {
                    Some(mut p) => {
                        proof {
                            assert(c.0 * GRID_CELLS + c.1 == k);
                            assert(p == g0.grid@[k]->Some_0);
                            assert(p.cell_x * GRID_CELLS + p.cell_y == k);
                            lemma_cell_decompose(
                                p.cell_x as int,
                                p.cell_y as int,
                                c.0 as int,
                                c.1 as int,
                            );
                        }
                        p.grow(wv, tv);
                        grid.set_cell(c.0, c.1, p);
                    },
                    None => {
                        proof {
                            assert(false);
                        }
                    },
                }
            }
            proof {
                assert(forall|k2: int|
                    0 <= k2 < grid.grid@.len() && k2 != k ==> grid.grid@[k2] == gpre.grid@[k2]);
                assert(grid.grid@[k] is Some);
                assert(spec_occupant_updated(
                    g0.grid@[k]->Some_0,
                    grid.grid@[k]->Some_0,
                    water@[1 + m as int],
                    terrain@[1 + m as int],
                ));
                assert forall|m2: int| 0 <= m2 < m as int + 1 implies {
                    let k2 = flat_cell(#[trigger] plan.occupant_cells@[m2]);
                    &&& grid.grid@[k2] is Some
                    &&& spec_occupant_updated(
                        g0.grid@[k2]->Some_0,
                        grid.grid@[k2]->Some_0,
                        water@[1 + m2],
                        terrain@[1 + m2],
                    )
                } by {
                    let k2 = flat_cell(plan.occupant_cells@[m2]);
                    if m2 < m as int {
                        assert(k2 < k);
                        assert(grid.grid@[k2] == gpre.grid@[k2]);
                    }
                }
                assert forall|k2: int|
                    0 <= k2 < grid.grid@.len() && !occ_prefix_touches(*plan, m as int + 1, k2)
                        implies grid.grid@[k2] == g0.grid@[k2] by {
                    assert(!occ_prefix_touches(*plan, m as int, k2)) by {
                        if occ_prefix_touches(*plan, m as int, k2) {
                            let n = choose|n: int|
                                0 <= n < m && n < plan.occupant_cells@.len() && flat_cell(
                                    #[trigger] plan.occupant_cells@[n],
                                ) == k2;
                            assert(0 <= n < m as int + 1 && n < plan.occupant_cells@.len()
                                && flat_cell(plan.occupant_cells@[n]) == k2);
                        }
                    }
                    assert(k2 != k) by {
                        if k2 == k {
                            assert((m as int) < plan.occupant_cells@.len() && flat_cell(
                                plan.occupant_cells@[m as int],
                            ) == k2);
                        }
                    }
                }
            }
            m = m + 1;
        }

        let germinates: bool = match water[0] {
            Some(w0) => w0 > GERMINATION_THRESHOLD,
            None => false,
        };

        let candidate_len: usize = plan.candidate_cells.len();
        let mut m2: usize = 0;
        while m2 < candidate_len
            invariant
                occupant_len == plan.occupant_cells@.len(),
                candidate_len == plan.candidate_cells@.len(),
                m2 <= candidate_len,
                g0.wf(),
                grid.wf(),
                grid.grid@.len() == g0.grid@.len(),
                plan_covers(*plan, g0),
                plan.points@.len() == 1 + plan.occupant_cells@.len()
                    + plan.candidate_cells@.len(),
                water@.len() >= plan.points@.len(),
                terrain@.len() >= plan.points@.len(),
                germinates == spec_germinates(water@[0]),
                forall|n: int|
                    0 <= n < occupant_len ==> {
                        let k = flat_cell(#[trigger] plan.occupant_cells@[n]);
                        &&& grid.grid@[k] is Some
                        &&& spec_occupant_updated(
                            g0.grid@[k]->Some_0,
                            grid.grid@[k]->Some_0,
                            water@[1 + n],
                            terrain@[1 + n],
                        )
                    },
                forall|n: int|
                    0 <= n < m2 ==> spec_candidate_outcome(
                        #[trigger] plan.candidate_cells@[n],
                        plan.candidate_positions@[n],
                        grid.grid@[flat_cell(plan.candidate_cells@[n])],
                        water@[0],
                        terrain@[1 + occupant_len + n],
                    ),
                forall|k: int|
                    0 <= k < grid.grid@.len() && !occ_prefix_touches(
                        *plan,
                        occupant_len as int,
                        k,
                    ) && !cand_prefix_touches(*plan, m2 as int, k) ==> grid.grid@[k]
                        == g0.grid@[k],
            decreases candidate_len - m2,
        {
            let ghost gpre = *grid;
            let c = plan.candidate_cells[m2];
            let pos = plan.candidate_positions[m2];
            let slot: usize = 1 + occupant_len + m2;
            let t = terrain[slot];
            let ghost k = flat_cell(plan.candidate_cells@[m2 as int]);
            proof {
                assert(!occ_prefix_touches(*plan, occupant_len as int, k)) by {
                    if occ_prefix_touches(*plan, occupant_len as int, k) {
                        let n = choose|n: int|
                            0 <= n < occupant_len && n < plan.occupant_cells@.len() && flat_cell(
                                #[trigger] plan.occupant_cells@[n],
                            ) == k;
                        assert(g0.grid@[flat_cell(plan.occupant_cells@[n])] is Some);
                        assert(g0.grid@[k] is None);
                    }
                }
                assert(!cand_prefix_touches(*plan, m2 as int, k)) by {
                    if cand_prefix_touches(*plan, m2 as int, k) {
                        let n = choose|n: int|
                            0 <= n < m2 && n < plan.candidate_cells@.len() && flat_cell(
                                #[trigger] plan.candidate_cells@[n],
                            ) == k;
                        assert(flat_cell(plan.candidate_cells@[n]) < flat_cell(
                            plan.candidate_cells@[m2 as int],
                        ));
                    }
                }
                assert(grid.grid@[k] == g0.grid@[k]);
            }
            if germinates {
                match t {
                    Some(tv) => {
                        let p = Plant::seed(c.0, c.1, pos.0, pos.1, tv);
                        proof {
                            assert(c.0 * GRID_CELLS + c.1 == k);
                        }
                        grid.set_cell(c.0, c.1, p);
                    },
                    None => {},
                }
            }
            proof {
                assert(forall|k2: int|
                    0 <= k2 < grid.grid@.len() && k2 != k ==> grid.grid@[k2] == gpre.grid@[k2]);
                assert(spec_candidate_outcome(
                    plan.candidate_cells@[m2 as int],
                    plan.candidate_positions@[m2 as int],
                    grid.grid@[k],
                    water@[0],
                    terrain@[1 + occupant_len as int + m2 as int],
                ));
                assert forall|n: int| 0 <= n < m2 as int + 1 implies spec_candidate_outcome(
                    #[trigger] plan.candidate_cells@[n],
                    plan.candidate_positions@[n],
                    grid.grid@[flat_cell(plan.candidate_cells@[n])],
                    water@[0],
                    terrain@[1 + occupant_len + n],
                ) by {
                    let kn = flat_cell(plan.candidate_cells@[n]);
                    if n < m2 as int {
                        assert(kn < k);
                        assert(grid.grid@[kn] == gpre.grid@[kn]);
                    }
                }
                assert forall|n: int| 0 <= n < occupant_len implies {
                    let kn = flat_cell(#[trigger] plan.occupant_cells@[n]);
                    &&& grid.grid@[kn] is Some
                    &&& spec_occupant_updated(
                        g0.grid@[kn]->Some_0,
                        grid.grid@[kn]->Some_0,
                        water@[1 + n],
                        terrain@[1 + n],
                    )
                } by {
                    let kn = flat_cell(plan.occupant_cells@[n]);
                    assert(g0.grid@[kn] is Some);
                    assert(g0.grid@[k] is None);
                    assert(kn != k);
                    assert(grid.grid@[kn] == gpre.grid@[kn]);
                }
                assert forall|k2: int|
                    0 <= k2 < grid.grid@.len() && !occ_prefix_touches(
                        *plan,
                        occupant_len as int,
                        k2,
                    ) && !cand_prefix_touches(*plan, m2 as int + 1, k2) implies grid.grid@[k2]
                    == g0.grid@[k2] by {
                    assert(!cand_prefix_touches(*plan, m2 as int, k2)) by {
                        if cand_prefix_touches(*plan, m2 as int, k2) {
                            let n = choose|n: int|
                                0 <= n < m2 && n < plan.candidate_cells@.len() && flat_cell(
                                    #[trigger] plan.candidate_cells@[n],
                                ) == k2;
                            assert(0 <= n < m2 as int + 1 && n < plan.candidate_cells@.len()
                                && flat_cell(plan.candidate_cells@[n]) == k2);
                        }
                    }
                    assert(k2 != k) by {
                        if k2 == k {
                            assert((m2 as int) < plan.candidate_cells@.len() && flat_cell(
                                plan.candidate_cells@[m2 as int],
                            ) == k2);
                        }
                    }
                }
            }
            m2 = m2 + 1;
        }

        proof {
            assert forall|k: int|
                0 <= k < grid.grid@.len() && !plan_touches(*plan, k) implies grid.grid@[k]
                == g0.grid@[k] by {
                assert(!occ_prefix_touches(*plan, occupant_len as int, k));
                assert(!cand_prefix_touches(*plan, candidate_len as int, k));
            }
        }
        self.phase = FramePhase::Idle;
    }
}

/// Whether one of the first `m` occupant slots names the cell at flat
/// index `k`.
pub open spec fn occ_prefix_touches(plan: QueryPlan, m: int, k: int) -> bool {
    exists|n: int|
        0 <= n < m && n < plan.occupant_cells@.len() && flat_cell(
            #[trigger] plan.occupant_cells@[n],
        ) == k
}

/// Whether one of the first `m` candidate slots names the cell at flat
/// index `k`.
pub open spec fn cand_prefix_touches(plan: QueryPlan, m: int, k: int) -> bool {
    exists|n: int|
        0 <= n < m && n < plan.candidate_cells@.len() && flat_cell(
            #[trigger] plan.candidate_cells@[n],
        ) == k
}

/// Equal row-major indices of in-range cells come from equal cells.
proof fn lemma_cell_decompose(a: int, b: int, x: int, y: int)
    requires
        0 <= a < GRID_CELLS,
        0 <= b < GRID_CELLS,
        0 <= x < GRID_CELLS,
        0 <= y < GRID_CELLS,
        a * GRID_CELLS + b == x * GRID_CELLS + y,
    ensures
        a == x,
        b == y,
{
    assert(a == x && b == y) by (nonlinear_arith)
        requires
            0 <= a < GRID_CELLS as int,
            0 <= b < GRID_CELLS as int,
            0 <= x < GRID_CELLS as int,
            0 <= y < GRID_CELLS as int,
            a * (GRID_CELLS as int) + b == x * (GRID_CELLS as int) + y,
    ;
}

} // verus!
