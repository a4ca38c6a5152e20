use sim_core::body::{base_health, max_hp, Body};
use sim_core::event::{EventBus, ServerEvent};
use sim_core::stats::{exp_threshold, HealthSource, Stats};
use sim_core::stats_sys::stat_update;
use sim_core::uid::Uid;

#[test]
fn exp_threshold_formula() {
    assert_eq!(exp_threshold(1), 60);
    assert_eq!(exp_threshold(2), 80);
    assert_eq!(exp_threshold(5), 140);
}

#[test]
fn max_hp_formula() {
    assert_eq!(base_health(Body::Humanoid), 520);
    assert_eq!(max_hp(Body::Humanoid, 1), 520);
    assert_eq!(max_hp(Body::Humanoid, 3), 540);
    assert_eq!(max_hp(Body::Dragon, 2), 2570);
}

#[test]
fn fresh_stats_are_alive_and_full() {
    let s = Stats::new(Body::Humanoid);
    assert_eq!(s.level, 1);
    assert_eq!(s.exp.current, 0);
    assert_eq!(s.exp.maximum, 60);
    assert_eq!(s.health.current, 520);
    assert_eq!(s.health.maximum, 520);
    assert!(!s.is_dead);
}

#[test]
fn health_aging_accumulates() {
    let mut s = Stats::new(Body::Humanoid);
    s.health.age(33);
    s.health.age(33);
    assert_eq!(s.health.last_change_time_ms, 66);
}

#[test]
fn overshoot_yields_one_level_per_threshold_multiple() {
    // 2.5x the level-one threshold: two level-ups in a single tick, and a
    // full heal to the maximum recomputed for the new level.
    let uid = Uid(7);
    let mut s = Stats::new(Body::Humanoid);
    s.exp.change_by(150);
    let mut bus: EventBus<ServerEvent> = EventBus::new();
    stat_update(&mut s, uid, &mut bus);
    assert_eq!(s.level, 3);
    assert_eq!(s.exp.current, 10); // 150 - 60 - 80
    assert_eq!(s.exp.maximum, 100);
    assert_eq!(s.health.maximum, 540);
    assert_eq!(s.health.current, 540);
    assert_eq!(
        bus.events().as_slice(),
        &[ServerEvent::LevelUp(uid, 2), ServerEvent::LevelUp(uid, 3)],
    );
}

#[test]
fn level_up_restores_health_fully() {
    let uid = Uid(8);
    let mut s = Stats::new(Body::Humanoid);
    s.health.set_to(5, HealthSource::Attack { by: Uid(9) });
    s.exp.change_by(60);
    let mut bus: EventBus<ServerEvent> = EventBus::new();
    stat_update(&mut s, uid, &mut bus);
    assert_eq!(s.level, 2);
    assert_eq!(s.health.current, s.health.maximum);
    assert_eq!(s.health.maximum, 530);
    assert!(matches!(s.health.last_change.cause, HealthSource::LevelUp));
}

#[test]
fn death_flag_latches_exactly_once() {
    let uid = Uid(3);
    let attacker = Uid(4);
    let mut s = Stats::new(Body::Humanoid);
    s.health.set_to(0, HealthSource::Attack { by: attacker });
    let mut bus: EventBus<ServerEvent> = EventBus::new();
    stat_update(&mut s, uid, &mut bus);
    assert!(s.is_dead);
    assert_eq!(
        bus.events().as_slice(),
        &[ServerEvent::Destroy { uid, cause: HealthSource::Attack { by: attacker } }],
    );
    // A second tick at zero health does not re-emit the destroy event.
    stat_update(&mut s, uid, &mut bus);
    assert!(s.is_dead);
    assert_eq!(bus.len(), 1);
}

#[test]
fn set_to_clamps_and_records_the_delta() {
    let mut s = Stats::new(Body::Humanoid);
    s.health.set_to(9_999, HealthSource::Command);
    assert_eq!(s.health.current, 520);
    s.health.set_to(20, HealthSource::Command);
    assert_eq!(s.health.current, 20);
    assert_eq!(s.health.last_change.amount, -500);
}
