//! Item-derived data that outcome records carry.

use vstd::prelude::*;

verus! {

/// The reagent colour of a consumable that caused an explosion outcome;
/// presentation layers pick visual effects from it.
#[derive(Clone, Copy, Debug, PartialEq, Eq, Structural)]
pub enum Reagent {
    Blue,
    Green,
    Purple,
    Red,
    Yellow,
}

} // verus!
