//! Physics components: transform values carried through the simulation and
//! the per-tick contact state.

use vstd::prelude::*;
use crate::uid::Uid;
use crate::vec3::{Vec3, UNIT_MILLI};

verus! {

/// World position, fixed-point milliunits per axis.
#[derive(Clone, Copy, Debug, PartialEq, Eq, Structural)]
pub struct Pos(pub Vec3);

/// Velocity, fixed-point milliunits per second per axis.
#[derive(Clone, Copy, Debug, PartialEq, Eq, Structural)]
pub struct Vel(pub Vec3);

/// Facing direction; the physics collaborator keeps it near unit length.
#[derive(Clone, Copy, Debug, PartialEq, Eq, Structural)]
pub struct Ori(pub Vec3);

impl Ori {
    pub fn vec(&self) -> (v: &Vec3)
        ensures
            *v == self.0,
    {
        &self.0
    }
}

/// Uniform size multiplier, in thousandths.
#[derive(Clone, Copy, Debug, PartialEq, Eq, Structural)]
pub struct Scale(pub i64);

/// Mass in grams.
#[derive(Clone, Copy, Debug, PartialEq, Eq, Structural)]
pub struct Mass(pub i64);

/// Collision volume of an actor.
#[derive(Clone, Copy, Debug, PartialEq, Eq, Structural)]
pub enum Collider {
    Cuboid { radius: i64, z_min: i64, z_max: i64 },
    Point,
}

impl Collider {
    pub open spec fn spec_radius(&self) -> i64 {
        match *self {
            Collider::Cuboid { radius, .. } => radius,
            Collider::Point => 0,
        }
    }

    pub open spec fn spec_z_limits(&self) -> (i64, i64) {
        match *self {
            Collider::Cuboid { z_min, z_max, .. } => (z_min, z_max),
            Collider::Point => (0, 0),
        }
    }

    /// The horizontal extent, in milliunits.
    pub fn get_radius(&self) -> (r: i64)
        ensures
            r == self.spec_radius(),
    {
        match self {
            Collider::Cuboid { radius, .. } => *radius,
            Collider::Point => 0,
        }
    }

    /// The vertical extent below and above the actor's origin, in
    /// milliunits.
    pub fn get_z_limits(&self) -> (r: (i64, i64))
        ensures
            r == self.spec_z_limits(),
    {
        match self {
            Collider::Cuboid { z_min, z_max, .. } => (*z_min, *z_max),
            Collider::Point => (0, 0),
        }
    }
}

/// Gravity multiplier, in thousandths.
#[derive(Clone, Copy, Debug, PartialEq, Eq, Structural)]
pub struct Gravity(pub i64);

/// Marker: this actor sticks to surfaces it touches.
#[derive(Clone, Copy, Debug, PartialEq, Eq, Structural)]
pub struct Sticky;

/// Marker: force a state sync for this actor.
#[derive(Clone, Copy, Debug, PartialEq, Eq, Structural)]
pub struct ForceUpdate;

/// Per-actor contact state, recomputed every tick: surface flags, the wall
/// normal if any, the actors currently touched, and the fluid depth (in
/// milliunits) if submerged.
#[derive(Debug)]
pub struct PhysicsState {
    pub on_ground: bool,
    pub on_ceiling: bool,
    pub on_wall: Option<Vec3>,
    pub touch_entities: Vec<Uid>,
    pub in_fluid: Option<i64>,
}

impl PhysicsState {
    /// No contacts at all.
    pub fn new() -> (p: PhysicsState)
        ensures
            !p.on_ground,
            !p.on_ceiling,
            p.on_wall is None,
            p.touch_entities@ == Seq::<Uid>::empty(),
            p.in_fluid is None,
    {
        PhysicsState {
            on_ground: false,
            on_ceiling: false,
            on_wall: None,
            touch_entities: Vec::new(),
            in_fluid: None,
        }
    }

    /// Clears every contact flag ahead of recomputation. The touching-actor
    /// list is emptied in place, reusing its backing storage rather than
    /// reallocating each tick.
    pub fn reset(&mut self)
        ensures
            !final(self).on_ground,
            !final(self).on_ceiling,
            final(self).on_wall is None,
            final(self).touch_entities@ == Seq::<Uid>::empty(),
            final(self).in_fluid is None,
    {
        self.on_ground = false;
        self.on_ceiling = false;
        self.on_wall = None;
        self.in_fluid = None;
        self.touch_entities.clear();
    }

    /// The surface the actor rests against, if any: the ground counts first
    /// (normal pointing down into it), then the ceiling, then a wall.
    pub open spec fn spec_on_surface(&self) -> Option<Vec3> {
        if self.on_ground {
            Some(Vec3 { x: 0, y: 0, z: (-UNIT_MILLI) as i64 })
        } else if self.on_ceiling {
            Some(Vec3 { x: 0, y: 0, z: UNIT_MILLI })
        } else {
            self.on_wall
        }
    }

    pub fn on_surface(&self) -> (r: Option<Vec3>)
        ensures
            r == self.spec_on_surface(),
    {
        if self.on_ground {
            Some(Vec3::neg_unit_z())
        } else if self.on_ceiling {
            Some(Vec3::unit_z())
        } else {
            self.on_wall
        }
    }

    /// A copy for the per-tick read-only snapshot.
    pub fn snapshot(&self) -> (r: PhysicsState)
        ensures
            r.on_ground == self.on_ground,
            r.on_ceiling == self.on_ceiling,
            r.on_wall == self.on_wall,
            r.touch_entities@ == self.touch_entities@,
            r.in_fluid == self.in_fluid,
    {
        let mut touch: Vec<Uid> = Vec::new();
        let n = self.touch_entities.len();
        let mut i: usize = 0;
        while i < n
            invariant
                i <= n,
                n == self.touch_entities@.len(),
                touch@ == self.touch_entities@.subrange(0, i as int),
            decreases n - i,
        {
            touch.push(self.touch_entities[i]);
            i = i + 1;
        }
        assert(touch@ == self.touch_entities@);
        PhysicsState {
            on_ground: self.on_ground,
            on_ceiling: self.on_ceiling,
            on_wall: self.on_wall,
            touch_entities: touch,
            in_fluid: self.in_fluid,
        }
    }
}

} // verus!
