use sim_core::body::Body;
use sim_core::item::Reagent;
use sim_core::outcome::Outcome;
use sim_core::phys::{Collider, Ori, PhysicsState};
use sim_core::uid::Uid;
use sim_core::vec3::Vec3;

#[test]
fn reset_clears_flags_and_reuses_backing_storage() {
    let mut p = PhysicsState::new();
    p.on_ground = true;
    p.on_ceiling = true;
    p.on_wall = Some(Vec3::new(1000, 0, 0));
    p.in_fluid = Some(2_500);
    for i in 0..64 {
        p.touch_entities.push(Uid(i));
    }
    let capacity_before = p.touch_entities.capacity();
    p.reset();
    assert!(!p.on_ground);
    assert!(!p.on_ceiling);
    assert!(p.on_wall.is_none());
    assert!(p.in_fluid.is_none());
    assert!(p.touch_entities.is_empty());
    // The touching-actor collection is cleared in place, not reallocated.
    assert_eq!(p.touch_entities.capacity(), capacity_before);
}

#[test]
fn on_surface_prefers_ground_then_ceiling_then_wall() {
    let mut p = PhysicsState::new();
    assert_eq!(p.on_surface(), None);
    p.on_wall = Some(Vec3::new(1000, 0, 0));
    assert_eq!(p.on_surface(), Some(Vec3::new(1000, 0, 0)));
    p.on_ceiling = true;
    assert_eq!(p.on_surface(), Some(Vec3::new(0, 0, 1000)));
    p.on_ground = true;
    assert_eq!(p.on_surface(), Some(Vec3::new(0, 0, -1000)));
}

#[test]
fn snapshot_copies_every_field() {
    let mut p = PhysicsState::new();
    p.on_ground = true;
    p.touch_entities.push(Uid(42));
    p.touch_entities.push(Uid(43));
    let s = p.snapshot();
    assert!(s.on_ground);
    assert_eq!(s.touch_entities, vec![Uid(42), Uid(43)]);
}

#[test]
fn collider_extents() {
    let cuboid = Collider::Cuboid { radius: 400, z_min: 0, z_max: 1_800 };
    assert_eq!(cuboid.get_radius(), 400);
    assert_eq!(cuboid.get_z_limits(), (0, 1_800));
    assert_eq!(Collider::Point.get_radius(), 0);
    assert_eq!(Collider::Point.get_z_limits(), (0, 0));
}

#[test]
fn orientation_exposes_its_vector() {
    let o = Ori(Vec3::new(0, 1000, 0));
    assert_eq!(*o.vec(), Vec3::new(0, 1000, 0));
}

#[test]
fn outcomes_carry_their_position() {
    let explosion = Outcome::Explosion {
        pos: Vec3::new(1_000, 2_000, 3_000),
        power: 4_000,
        radius: 5_000,
        is_attack: true,
        reagent: Some(Reagent::Red),
    };
    assert_eq!(explosion.get_pos(), Some(Vec3::new(1_000, 2_000, 3_000)));
    let shot = Outcome::ProjectileShot {
        pos: Vec3::new(7, 8, 9),
        body: Body::Object,
        vel: Vec3::new(0, 0, -500),
    };
    assert_eq!(shot.get_pos(), Some(Vec3::new(7, 8, 9)));
}
