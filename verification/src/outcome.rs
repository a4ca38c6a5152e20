//! Outcome records: immutable facts about events that have already happened,
//! broadcast for presentation layers to observe. They are never mutated or
//! retracted, and carry enough data to be replayed without re-deriving
//! simulation state.

use vstd::prelude::*;
use crate::body::Body;
use crate::item::Reagent;
use crate::vec3::Vec3;

verus! {

/// The final result of an instantaneous world event.
#[derive(Clone, Copy, Debug, PartialEq, Eq)]
pub enum Outcome {
    Explosion {
        pos: Vec3,
        power: i64,
        radius: i64,
        is_attack: bool,
        reagent: Option<Reagent>,
    },
    ProjectileShot { pos: Vec3, body: Body, vel: Vec3 },
}

impl Outcome {
    /// Every outcome today carries a world position.
    pub open spec fn spec_get_pos(&self) -> Option<Vec3> {
        match *self {
            Outcome::Explosion { pos, .. } => Some(pos),
            Outcome::ProjectileShot { pos, .. } => Some(pos),
        }
    }

    pub fn get_pos(&self) -> (r: Option<Vec3>)
        ensures
            r == self.spec_get_pos(),
    {
        match self {
            Outcome::Explosion { pos, .. } => Some(*pos),
            Outcome::ProjectileShot { pos, .. } => Some(*pos),
        }
    }
}

} // verus!
