//! Stable actor handles.

use vstd::prelude::*;

verus! {

/// A stable identity handle for a simulated actor; the authoritative owner
/// allocates them and they never change over an actor's lifetime.
#[derive(Clone, Copy, Debug, PartialEq, Eq, Structural, Hash, PartialOrd, Ord)]
pub struct Uid(pub u64);

} // verus!
