//! Host-side core of a GPU height-field water simulation.
//!
//! The crate models the parts of the simulation that the host must get
//! right: the readiness state machines that gate compute dispatches, the
//! ping-pong roles of the double-buffered height grids, the capacity-bounded
//! query list sent to the extraction kernel, the map/unmap protocol of the
//! host-visible staging buffers, and the growth controller that consumes the
//! extracted heights. Heights travel through the library as fixed-point
//! integers in micro-units; the application converts device floats at the
//! boundary.

use vstd::prelude::*;

pub mod curve;
pub mod frame;
pub mod grid;
pub mod growth;
pub mod pipeline;
pub mod query;
pub mod roles;
pub mod staging;

verus! {

/// Side length of the simulated height grids, in cells.
pub const SIZE: u32 = 256;

/// Side length of one compute work-group, in cells.
pub const WORKGROUP_SIZE: u32 = 8;

/// Side length of one occupancy cell of the growth controller, in grid cells.
pub const CELL_SIZE: u32 = 32;

/// Side length of the occupancy grid: `SIZE / CELL_SIZE`.
pub const GRID_CELLS: u32 = 8;

/// Number of cells in the occupancy grid: `GRID_CELLS * GRID_CELLS`.
pub const OCCUPANCY_CELLS: u32 = 64;

/// Capacity of the extraction query buffer: one slot per occupancy cell,
/// plus the reserved slot 0 for the player's probe.
pub const EXTRACT_BUFFER_SIZE: u32 = 65;

} // verus!
