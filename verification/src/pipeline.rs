//! Readiness state machines of the two compute pipelines.
//!
//! The device compiles kernels asynchronously; until a kernel is reported
//! compiled, its pipeline must not be dispatched. The simulation pipeline
//! walks `Loading -> Init -> Update` and then stays in `Update`; the
//! extraction pipeline has a single kernel and walks `Loading -> Update`.
//! Transitions only ever move forward.

use vstd::prelude::*;

use crate::SIZE;
use crate::WORKGROUP_SIZE;

verus! {

/// Readiness of the two-kernel simulation pipeline.
#[derive(Clone, Copy, Debug, PartialEq, Eq, Structural)]
pub enum SimulationState {
    /// Neither kernel is known to be compiled; no GPU work is issued.
    Loading,
    /// The init kernel is compiled; it runs once per frame until the
    /// update kernel is compiled as well.
    Init,
    /// Both kernels are compiled; only the update kernel runs. Terminal.
    Update,
}

/// Readiness of the one-kernel extraction pipeline.
#[derive(Clone, Copy, Debug, PartialEq, Eq, Structural)]
pub enum ExtractionState {
    /// The extract kernel is not yet compiled; no GPU work is issued.
    Loading,
    /// The extract kernel is compiled and runs every frame. Terminal.
    Update,
}

/// Which compute pass a frame dispatches for the simulation pipeline.
#[derive(Clone, Copy, Debug, PartialEq, Eq, Structural)]
pub enum DispatchKind {
    /// No kernel is ready: the frame is a no-op for this pipeline.
    NoPass,
    /// Dispatch the init kernel over the whole grid.
    InitPass,
    /// Dispatch the update kernel over the whole grid.
    UpdatePass,
}

/// Position of a simulation state on the forward-only path.
pub open spec fn sim_stage_index(s: SimulationState) -> int {
    match s {
        SimulationState::Loading => 0,
        SimulationState::Init => 1,
        SimulationState::Update => 2,
    }
}

/// Position of an extraction state on the forward-only path.
pub open spec fn extract_stage_index(s: ExtractionState) -> int {
    match s {
        ExtractionState::Loading => 0,
        ExtractionState::Update => 1,
    }
}

/// One per-frame step of the simulation readiness machine, given whether
/// the device reports each kernel compiled.
pub open spec fn spec_sim_advance(
    s: SimulationState,
    init_compiled: bool,
    update_compiled: bool,
) -> SimulationState {
    match s {
        SimulationState::Loading => if init_compiled {
            SimulationState::Init
        } else {
            SimulationState::Loading
        },
        SimulationState::Init => if update_compiled {
            SimulationState::Update
        } else {
            SimulationState::Init
        },
        SimulationState::Update => SimulationState::Update,
    }
}

/// One per-frame step of the extraction readiness machine.
pub open spec fn spec_extract_advance(s: ExtractionState, compiled: bool) -> ExtractionState {
    match s {
        ExtractionState::Loading => if compiled {
            ExtractionState::Update
        } else {
            ExtractionState::Loading
        },
        ExtractionState::Update => ExtractionState::Update,
    }
}

impl SimulationState {
    /// Advance the machine once, at the start of a frame, from the device's
    /// compilation reports. Transitions only move forward and `Update` is
    /// terminal.
    pub fn advance(&mut self, init_compiled: bool, update_compiled: bool)
        ensures
            *final(self) == spec_sim_advance(*old(self), init_compiled, update_compiled),
            sim_stage_index(*final(self)) >= sim_stage_index(*old(self)),
            *old(self) is Update ==> *final(self) is Update,
    {
        match *self {
            SimulationState::Loading => {
                if init_compiled {
                    *self = SimulationState::Init;
                }
            },
            SimulationState::Init => {
                if update_compiled {
                    *self = SimulationState::Update;
                }
            },
            SimulationState::Update => {},
        }
    }

    /// Which pass this frame dispatches: none while loading, the init
    /// kernel while in `Init`, the update kernel once in `Update`.
    pub fn dispatch(&self) -> (k: DispatchKind)
        ensures
            k == spec_sim_dispatch(*self),
    {
        match *self {
            SimulationState::Loading => DispatchKind::NoPass,
            SimulationState::Init => DispatchKind::InitPass,
            SimulationState::Update => DispatchKind::UpdatePass,
        }
    }
}

/// The pass selected for each simulation state.
pub open spec fn spec_sim_dispatch(s: SimulationState) -> DispatchKind {
    match s {
        SimulationState::Loading => DispatchKind::NoPass,
        SimulationState::Init => DispatchKind::InitPass,
        SimulationState::Update => DispatchKind::UpdatePass,
    }
}

impl ExtractionState {
    /// Advance the machine once per frame from the device's compilation
    /// report. `Update` is terminal.
    pub fn advance(&mut self, compiled: bool)
        ensures
            *final(self) == spec_extract_advance(*old(self), compiled),
            extract_stage_index(*final(self)) >= extract_stage_index(*old(self)),
            *old(self) is Update ==> *final(self) is Update,
    {
        match *self {
            ExtractionState::Loading => {
                if compiled {
                    *self = ExtractionState::Update;
                }
            },
            ExtractionState::Update => {},
        }
    }

    /// Whether this frame dispatches the extract kernel.
    pub fn dispatches(&self) -> (b: bool)
        ensures
            b == (*self is Update),
    {
        match *self {
            ExtractionState::Loading => false,
            ExtractionState::Update => true,
        }
    }
}

/// The simulation state after a whole run of frames, each frame carrying
/// the device's two compilation reports.
pub open spec fn sim_run(s: SimulationState, reports: Seq<(bool, bool)>) -> SimulationState
    decreases reports.len(),
{
    if reports.len() == 0 {
        s
    } else {
        spec_sim_advance(sim_run(s, reports.drop_last()), reports.last().0, reports.last().1)
    }
}

/// The extraction state after a whole run of frames.
pub open spec fn extract_run(s: ExtractionState, reports: Seq<bool>) -> ExtractionState
    decreases reports.len(),
{
    if reports.len() == 0 {
        s
    } else {
        spec_extract_advance(extract_run(s, reports.drop_last()), reports.last())
    }
}

/// State-machine monotonicity for the simulation pipeline: over any run of
/// frames the state only moves forward along `Loading -> Init -> Update`,
/// and once it reaches `Update` it never regresses. The states after `i`
/// and after `j` frames of the same run are compared.
pub proof fn lemma_sim_state_monotone(
    s: SimulationState,
    reports: Seq<(bool, bool)>,
    i: int,
    j: int,
)
    requires
        0 <= i <= j <= reports.len(),
    ensures
        sim_stage_index(sim_run(s, reports.take(i))) <= sim_stage_index(
            sim_run(s, reports.take(j)),
        ),
        sim_run(s, reports.take(i)) is Update ==> sim_run(s, reports.take(j)) is Update,
    decreases j - i,
{
    if i < j {
        lemma_sim_state_monotone(s, reports, i, j - 1);
        assert(reports.take(j).drop_last() =~= reports.take(j - 1));
        assert(reports.take(j).len() == j);
    }
}

/// State-machine monotonicity for the extraction pipeline: the state after
/// `i` frames never lies past the state after `j >= i` frames, and `Update`
/// is never left.
pub proof fn lemma_extract_state_monotone(s: ExtractionState, reports: Seq<bool>, i: int, j: int)
    requires
        0 <= i <= j <= reports.len(),
    ensures
        extract_stage_index(extract_run(s, reports.take(i))) <= extract_stage_index(
            extract_run(s, reports.take(j)),
        ),
        extract_run(s, reports.take(i)) is Update ==> extract_run(s, reports.take(j)) is Update,
    decreases j - i,
{
    if i < j {
        lemma_extract_state_monotone(s, reports, i, j - 1);
        assert(reports.take(j).drop_last() =~= reports.take(j - 1));
        assert(reports.take(j).len() == j);
    }
}

/// The resources a simulation dispatch binds, in their fixed slot order.
#[derive(Clone, Copy, Debug, PartialEq, Eq, Structural)]
pub enum SimBinding {
    /// The height grid read this tick (read-only).
    HeightRead,
    /// The height grid written this tick (write-only).
    HeightWrite,
    /// The velocity grid (read-write).
    Velocity,
    /// The terrain grid (read-write for the kernel's bookkeeping).
    Terrain,
    /// The uniform block (read-only).
    Uniforms,
}

/// The resources an extraction dispatch binds, in their fixed slot order.
#[derive(Clone, Copy, Debug, PartialEq, Eq, Structural)]
pub enum ExtractBinding {
    /// The current read height grid (read-only).
    HeightRead,
    /// The terrain grid (read-only).
    Terrain,
    /// The query-point buffer (read-only).
    Positions,
    /// The water-height output buffer (write-only).
    WaterOut,
    /// The terrain-height output buffer (write-only).
    TerrainOut,
}

/// The slot each simulation resource binds to.
pub fn sim_binding_slot(b: SimBinding) -> (slot: u32)
    ensures
        slot == match b {
            SimBinding::HeightRead => 0u32,
            SimBinding::HeightWrite => 1u32,
            SimBinding::Velocity => 2u32,
            SimBinding::Terrain => 3u32,
            SimBinding::Uniforms => 4u32,
        },
{
    match b {
        SimBinding::HeightRead => 0,
        SimBinding::HeightWrite => 1,
        SimBinding::Velocity => 2,
        SimBinding::Terrain => 3,
        SimBinding::Uniforms => 4,
    }
}

/// The slot each extraction resource binds to; the extraction layout
/// shares the simulation layout's numbering for the resources both use
/// and adds its own buffers above them.
pub fn extract_binding_slot(b: ExtractBinding) -> (slot: u32)
    ensures
        slot == match b {
            ExtractBinding::HeightRead => 0u32,
            ExtractBinding::Terrain => 3u32,
            ExtractBinding::Positions => 5u32,
            ExtractBinding::WaterOut => 6u32,
            ExtractBinding::TerrainOut => 7u32,
        },
{
    match b {
        ExtractBinding::HeightRead => 0,
        ExtractBinding::Terrain => 3,
        ExtractBinding::Positions => 5,
        ExtractBinding::WaterOut => 6,
        ExtractBinding::TerrainOut => 7,
    }
}

/// Work-group grid of a simulation dispatch: the kernels cover the whole
/// `SIZE x SIZE` field with `WORKGROUP_SIZE`-wide groups.
pub fn sim_workgroup_counts() -> (c: (u32, u32, u32))
    ensures
        c.0 == SIZE / WORKGROUP_SIZE,
        c.1 == SIZE / WORKGROUP_SIZE,
        c.2 == 1,
{
    (SIZE / WORKGROUP_SIZE, SIZE / WORKGROUP_SIZE, 1)
}

/// Work-group grid of an extraction dispatch: a single 1-D row of groups
/// wide enough to cover the fixed query capacity.
pub fn extract_workgroup_counts() -> (c: (u32, u32, u32))
    ensures
        c.0 == SIZE / WORKGROUP_SIZE,
        c.1 == 1,
        c.2 == 1,
{
    (SIZE / WORKGROUP_SIZE, 1, 1)
}

} // verus!
