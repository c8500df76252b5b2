//! The map/unmap lifecycle of the host-visible staging buffers.
//!
//! Each frame the staging buffers go through the same five steps: unmap
//! whatever the previous frame left mapped, record the device-to-device
//! copy into them, request the asynchronous map, block until the device is
//! idle (which completes the map), and read. The typestate below makes the
//! order mandatory; the trace lemma at the end shows that over any number
//! of frames a buffer is never mapped while already mapped and is always
//! unmapped before its next copy-into.

use vstd::prelude::*;

verus! {

/// Lifecycle state of the staging buffers within a frame.
#[derive(Clone, Copy, Debug, PartialEq, Eq, Structural)]
pub enum MapState {
    /// Not mapped; safe to copy into.
    Unmapped,
    /// The device copy into the buffer is recorded and submitted.
    CopyQueued,
    /// The asynchronous map is requested; the host has not yet blocked.
    MapRequested,
    /// Mapped for read; stays mapped until the next frame's unmap.
    Mapped,
}

/// One step of the staging protocol.
#[derive(Clone, Copy, Debug, PartialEq, Eq, Structural)]
pub enum StagingOp {
    /// Unmap at the start of a frame (a no-op if already unmapped).
    Unmap,
    /// Record and submit the copy into the buffer.
    QueueCopy,
    /// Request the asynchronous map for read.
    RequestMap,
    /// Block the host until all device work, the map included, completes.
    WaitIdle,
    /// Read the mapped bytes.
    Read,
}

/// Whether a step is legal in a state: a copy only into an unmapped
/// buffer, a map request only after the copy, a read only once mapped.
pub open spec fn staging_ok(s: MapState, op: StagingOp) -> bool {
    match op {
        StagingOp::Unmap => s is Mapped || s is Unmapped,
        StagingOp::QueueCopy => s is Unmapped,
        StagingOp::RequestMap => s is CopyQueued,
        StagingOp::WaitIdle => s is MapRequested,
        StagingOp::Read => s is Mapped,
    }
}

/// The state after a step.
pub open spec fn staging_next(s: MapState, op: StagingOp) -> MapState {
    match op {
        StagingOp::Unmap => MapState::Unmapped,
        StagingOp::QueueCopy => MapState::CopyQueued,
        StagingOp::RequestMap => MapState::MapRequested,
        StagingOp::WaitIdle => MapState::Mapped,
        StagingOp::Read => s,
    }
}

/// The state after the first `i` steps of a run.
pub open spec fn state_at(s0: MapState, ops: Seq<StagingOp>, i: int) -> MapState
    decreases i,
{
    if i <= 0 {
        s0
    } else {
        staging_next(state_at(s0, ops, i - 1), ops[i - 1])
    }
}

/// Every step of the run is legal in the state it meets.
pub open spec fn trace_ok(s0: MapState, ops: Seq<StagingOp>) -> bool {
    forall|i: int| 0 <= i < ops.len() ==> staging_ok(state_at(s0, ops, i), #[trigger] ops[i])
}

/// One frame's five steps, in order.
pub open spec fn frame_ops() -> Seq<StagingOp> {
    seq![
        StagingOp::Unmap,
        StagingOp::QueueCopy,
        StagingOp::RequestMap,
        StagingOp::WaitIdle,
        StagingOp::Read,
    ]
}

/// The steps of `n` consecutive frames.
pub open spec fn repeat_frames(n: nat) -> Seq<StagingOp>
    decreases n,
{
    if n == 0 {
        Seq::empty()
    } else {
        repeat_frames((n - 1) as nat) + frame_ops()
    }
}

/// A run's prefix drives the state the same way the whole run does.
proof fn lemma_state_at_prefix(s0: MapState, a: Seq<StagingOp>, b: Seq<StagingOp>, j: int)
    requires
        0 <= j <= a.len(),
    ensures
        state_at(s0, a + b, j) == state_at(s0, a, j),
    decreases j,
{
    if j > 0 {
        lemma_state_at_prefix(s0, a, b, j - 1);
        assert((a + b)[j - 1] == a[j - 1]);
    }
}

/// Running `a + b` through the first `a.len() + i` steps is running `b`
/// through `i` steps from where `a` ended.
proof fn lemma_state_at_concat(s0: MapState, a: Seq<StagingOp>, b: Seq<StagingOp>, i: int)
    requires
        0 <= i <= b.len(),
    ensures
        state_at(s0, a + b, a.len() + i) == state_at(state_at(s0, a, a.len() as int), b, i),
    decreases i,
{
    if i == 0 {
        lemma_state_at_prefix(s0, a, b, a.len() as int);
    } else {
        lemma_state_at_concat(s0, a, b, i - 1);
        assert((a + b)[a.len() + i - 1] == b[i - 1]);
    }
}

/// A legal run followed by a run legal from its end state is legal as a
/// whole.
proof fn lemma_trace_ok_concat(s0: MapState, a: Seq<StagingOp>, b: Seq<StagingOp>)
    requires
        trace_ok(s0, a),
        trace_ok(state_at(s0, a, a.len() as int), b),
    ensures
        trace_ok(s0, a + b),
{
    assert forall|i: int| 0 <= i < (a + b).len() implies staging_ok(
        state_at(s0, a + b, i),
        (a + b)[i],
    ) by {
        if i < a.len() {
            lemma_state_at_prefix(s0, a, b, i);
        } else {
            lemma_state_at_concat(s0, a, b, i - a.len());
        }
    }
}

/// One frame's steps are legal from a mapped or an unmapped start, and
/// leave the buffer mapped.
proof fn lemma_frame_ops_ok(s0: MapState)
    requires
        s0 is Mapped || s0 is Unmapped,
    ensures
        trace_ok(s0, frame_ops()),
        state_at(s0, frame_ops(), frame_ops().len() as int) is Mapped,
{
    let ops = frame_ops();
    assert(state_at(s0, ops, 0) == s0);
    assert(state_at(s0, ops, 1) == MapState::Unmapped);
    assert(state_at(s0, ops, 2) == MapState::CopyQueued);
    assert(state_at(s0, ops, 3) == MapState::MapRequested);
    assert(state_at(s0, ops, 4) == MapState::Mapped);
    assert(state_at(s0, ops, 5) == MapState::Mapped);
    assert forall|i: int| 0 <= i < ops.len() implies staging_ok(state_at(s0, ops, i), ops[i]) by {
        assert(0 <= i < 5);
    }
}

/// Map/unmap pairing: starting mapped (as the buffers are created) or
/// unmapped, any number of frames of the protocol is a legal trace — in
/// particular no map is requested while the buffer is mapped, and the
/// buffer is unmapped before every copy-into — and each frame ends with
/// the buffer mapped for the next frame to unmap.
pub proof fn lemma_map_unmap_pairing(s0: MapState, n: nat)
    requires
        s0 is Mapped || s0 is Unmapped,
    ensures
        trace_ok(s0, repeat_frames(n)),
        n > 0 ==> state_at(s0, repeat_frames(n), repeat_frames(n).len() as int) is Mapped,
    decreases n,
{
    if n == 0 {
    } else {
        let a = repeat_frames((n - 1) as nat);
        lemma_map_unmap_pairing(s0, (n - 1) as nat);
        let s1 = state_at(s0, a, a.len() as int);
        assert(s1 is Mapped || s1 is Unmapped);
        lemma_frame_ops_ok(s1);
        lemma_trace_ok_concat(s0, a, frame_ops());
        lemma_state_at_concat(s0, a, frame_ops(), frame_ops().len() as int);
    }
}

/// The staging buffers' shared lifecycle; the application drives its two
/// host-visible buffers through it in lockstep.
#[derive(Clone, Copy, Debug, PartialEq, Eq, Structural)]
pub struct QueryStaging {
    pub state: MapState,
}

impl QueryStaging {
    /// The buffers as created: mapped at creation.
    pub fn new_mapped() -> (s: QueryStaging)
        ensures
            s.state is Mapped,
    {
        QueryStaging { state: MapState::Mapped }
    }

    /// Frame step one: unmap whatever the previous frame left mapped.
    pub fn unmap(&mut self)
        requires
            old(self).state is Mapped || old(self).state is Unmapped,
        ensures
            final(self).state == staging_next(old(self).state, StagingOp::Unmap),
            final(self).state is Unmapped,
    {
        self.state = MapState::Unmapped;
    }

    /// Frame step two: record and submit the copy into the buffers; they
    /// must be unmapped.
    pub fn queue_copy(&mut self)
        requires
            old(self).state is Unmapped,
        ensures
            final(self).state == staging_next(old(self).state, StagingOp::QueueCopy),
            final(self).state is CopyQueued,
    {
        self.state = MapState::CopyQueued;
    }

    /// Frame step three: request the asynchronous map for read.
    pub fn request_map(&mut self)
        requires
            old(self).state is CopyQueued,
        ensures
            final(self).state == staging_next(old(self).state, StagingOp::RequestMap),
            final(self).state is MapRequested,
    {
        self.state = MapState::MapRequested;
    }

    /// Frame step four: the host has blocked until the device went idle,
    /// so the requested map is complete.
    pub fn wait_idle(&mut self)
        requires
            old(self).state is MapRequested,
        ensures
            final(self).state == staging_next(old(self).state, StagingOp::WaitIdle),
            final(self).state is Mapped,
    {
        self.state = MapState::Mapped;
    }
}

} // verus!
