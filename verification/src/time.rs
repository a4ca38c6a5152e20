//! The fixed simulation timestep.

use vstd::prelude::*;

verus! {

/// Longest tick the simulation accepts, in milliseconds: one minute. Keeps
/// every regeneration product comfortably inside 64 bits.
pub const DT_LIMIT_MS: u32 = 60_000;

/// The duration of the current simulation tick, in milliseconds. Every
/// time-dependent rule reads this instead of a wall clock, so a run is
/// reproducible from its input stream.
#[derive(Clone, Copy, Debug, PartialEq, Eq, Structural)]
pub struct DeltaTime(pub u32);

} // verus!
