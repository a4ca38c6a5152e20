//! Fixed-point 3-vectors.
//!
//! Positions, velocities and orientations are carried through the simulation
//! unchanged; the simulation itself never does geometry on them. Components
//! are held in milliunits so the whole state stays integral.

use vstd::prelude::*;

verus! {

/// One whole unit, in milliunits per component.
pub const UNIT_MILLI: i64 = 1000;

/// A 3-vector with fixed-point components, each in milliunits.
#[derive(Clone, Copy, Debug, PartialEq, Eq, Structural)]
pub struct Vec3 {
    pub x: i64,
    pub y: i64,
    pub z: i64,
}

impl Vec3 {
    pub fn new(x: i64, y: i64, z: i64) -> (v: Vec3)
        ensures
            v == (Vec3 { x, y, z }),
    {
        Vec3 { x, y, z }
    }

    /// The origin.
    pub fn zero() -> (v: Vec3)
        ensures
            v == (Vec3 { x: 0i64, y: 0i64, z: 0i64 }),
    {
        Vec3 { x: 0, y: 0, z: 0 }
    }

    /// The upward unit vector.
    pub fn unit_z() -> (v: Vec3)
        ensures
            v == (Vec3 { x: 0i64, y: 0i64, z: UNIT_MILLI }),
    {
        Vec3 { x: 0, y: 0, z: UNIT_MILLI }
    }

    /// The downward unit vector.
    pub fn neg_unit_z() -> (v: Vec3)
        ensures
            v == (Vec3 { x: 0i64, y: 0i64, z: (-UNIT_MILLI) as i64 }),
    {
        Vec3 { x: 0, y: 0, z: -UNIT_MILLI }
    }
}

} // verus!
