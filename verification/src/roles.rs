//! Read/write roles of the double-buffered height grids.
//!
//! The simulation keeps two equal height textures and alternates their
//! roles every tick: the kernel reads the previous tick's result and
//! writes the other texture. The roles are tracked as a single index in
//! `{0, 1}` naming the texture currently read; the other one is written.

use vstd::prelude::*;

verus! {

/// Which of the two height textures is currently read. The texture
/// `1 - read_index` is the one written this tick.
#[derive(Clone, Copy, Debug, PartialEq, Eq, Structural)]
pub struct HeightRoles {
    pub read_index: usize,
}

/// The roles after one tick: the read and write textures trade places.
pub open spec fn spec_swapped(r: HeightRoles) -> HeightRoles {
    HeightRoles { read_index: (1 - r.read_index) as usize }
}

/// The roles after a number of ticks from a starting assignment.
pub open spec fn roles_after(start: HeightRoles, ticks: nat) -> HeightRoles
    decreases ticks,
{
    if ticks == 0 {
        start
    } else {
        spec_swapped(roles_after(start, (ticks - 1) as nat))
    }
}

impl HeightRoles {
    /// The index is one of the two textures.
    pub open spec fn wf(&self) -> bool {
        self.read_index == 0 || self.read_index == 1
    }

    /// The texture written this tick: always the one not read.
    pub open spec fn spec_write_index(&self) -> int {
        1 - self.read_index
    }

    /// Initial assignment: texture 0 is read first.
    pub fn new() -> (r: HeightRoles)
        ensures
            r.wf(),
            r.read_index == 0,
    {
        HeightRoles { read_index: 0 }
    }

    /// The texture to bind as the kernel's write target.
    pub fn write_index(&self) -> (w: usize)
        requires
            self.wf(),
        ensures
            w == self.spec_write_index(),
    {
        1 - self.read_index
    }

    /// Exchange the two roles, immediately before binding resources for a
    /// new tick's dispatch. The tick writes into what the previous tick
    /// read.
    pub fn swap(&mut self)
        requires
            old(self).wf(),
        ensures
            final(self).wf(),
            *final(self) == spec_swapped(*old(self)),
            final(self).read_index == old(self).spec_write_index(),
            final(self).spec_write_index() == old(self).read_index,
    {
        self.read_index = 1 - self.read_index;
    }
}

/// Every tick's role assignment is well formed.
pub proof fn lemma_roles_wf(start: HeightRoles, ticks: nat)
    requires
        start.wf(),
    ensures
        roles_after(start, ticks).wf(),
    decreases ticks,
{
    if ticks > 0 {
        lemma_roles_wf(start, (ticks - 1) as nat);
    }
}

/// Role-swap invariant: over any run of consecutive ticks, the texture
/// written on tick `i` is exactly the texture read on tick `i + 1`, and
/// the two roles never name the same texture.
pub proof fn lemma_role_swap_invariant(start: HeightRoles, i: nat)
    requires
        start.wf(),
    ensures
        roles_after(start, i).spec_write_index() == roles_after(start, i + 1).read_index,
        roles_after(start, i).read_index != roles_after(start, i).spec_write_index(),
{
    lemma_roles_wf(start, i);
}

} // verus!
