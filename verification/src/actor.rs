//! The actor arena entry.
//!
//! The simulation holds its actors in an arena indexed by position; each
//! entry owns the full component set of one actor. A pass holds at most one
//! exclusive view of the arena at a time, so per-actor mutation is free of
//! aliasing.

use vstd::prelude::*;
use crate::body::Body;
use crate::character_state::{Attacking, CharacterState};
use crate::controller::Controller;
use crate::energy::Energy;
use crate::loadout::Loadout;
use crate::phys::{PhysicsState, Pos, Vel, Ori};
use crate::stats::Stats;
use crate::uid::Uid;
use crate::vec3::Vec3;

verus! {

/// One simulated actor: identity, behavior state, transform, resource
/// pools, equipment, input, physics contacts, and the mount flag.
#[derive(Debug)]
pub struct Actor {
    pub uid: Uid,
    pub character: CharacterState,
    pub pos: Pos,
    pub vel: Vel,
    pub ori: Ori,
    pub energy: Energy,
    pub loadout: Loadout,
    pub controller: Controller,
    pub stats: Stats,
    pub body: Body,
    pub physics: PhysicsState,
    pub attacking: Option<Attacking>,
    pub mounted: bool,
}

impl Actor {
    /// A fresh, idle actor of the given archetype at the origin.
    pub fn new(uid: Uid, body: Body, energy_amount: u32) -> (a: Actor)
        ensures
            a.uid == uid,
            a.body == body,
            a.character == CharacterState::Idle,
            a.stats.wf(),
            a.stats.body_type == body,
            !a.stats.is_dead,
            a.energy.spec_current() == energy_amount,
            a.energy.spec_maximum() == energy_amount,
            a.energy.spec_regen_rate() == 0,
            !a.mounted,
            a.attacking is None,
            a.pos == (Pos(Vec3 { x: 0i64, y: 0i64, z: 0i64 })),
            a.vel == (Vel(Vec3 { x: 0i64, y: 0i64, z: 0i64 })),
            !a.controller.inputs.respawn.pressed,
            !a.controller.inputs.respawn.held_down,
    {
        Actor {
            uid,
            character: CharacterState::Idle,
            pos: Pos(Vec3::zero()),
            vel: Vel(Vec3::zero()),
            ori: Ori(Vec3::unit_z()),
            energy: Energy::new(energy_amount),
            loadout: Loadout::new(0),
            controller: Controller::new(),
            stats: Stats::new(body),
            body,
            physics: PhysicsState::new(),
            attacking: None,
            mounted: false,
        }
    }
}

} // verus!
