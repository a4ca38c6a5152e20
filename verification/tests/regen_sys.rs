use sim_core::actor::Actor;
use sim_core::body::Body;
use sim_core::energy::EnergySource;
use sim_core::event::{EventBus, ServerEvent};
use sim_core::stats::HealthSource;
use sim_core::stats_sys::Sys;
use sim_core::time::DeltaTime;
use sim_core::uid::Uid;

#[test]
fn one_tick_ages_kills_and_regenerates() {
    let mut actors = vec![
        Actor::new(Uid(20), Body::Humanoid, 1000),
        Actor::new(Uid(21), Body::Humanoid, 100),
    ];
    // The first actor is idle with a drained pool; the second just hit zero.
    actors[0].energy.change_by(-900, EnergySource::Ability);
    actors[1].stats.health.set_to(0, HealthSource::Attack { by: Uid(20) });
    let mut bus: EventBus<ServerEvent> = EventBus::new();

    Sys::run(&mut actors, DeltaTime(1000), &mut bus);
    assert_eq!(actors[0].energy.current(), 105);
    assert_eq!(actors[0].energy.regen_rate(), 10_000);
    assert_eq!(actors[0].stats.health.last_change_time_ms, 1000);
    assert!(actors[1].stats.is_dead);
    assert_eq!(
        bus.events().as_slice(),
        &[ServerEvent::Destroy { uid: Uid(21), cause: HealthSource::Attack { by: Uid(20) } }],
    );

    // A second tick at zero health does not re-emit the destroy event.
    Sys::run(&mut actors, DeltaTime(1000), &mut bus);
    assert_eq!(bus.len(), 1);
    assert_eq!(actors[0].energy.current(), 120);
}

#[test]
fn run_levels_up_and_heals_through_the_arena() {
    let mut actors = vec![Actor::new(Uid(30), Body::Humanoid, 100)];
    actors[0].stats.health.set_to(12, HealthSource::World);
    actors[0].stats.exp.change_by(150);
    let mut bus: EventBus<ServerEvent> = EventBus::new();
    Sys::run(&mut actors, DeltaTime(33), &mut bus);
    let s = &actors[0].stats;
    assert_eq!(s.level, 3);
    assert_eq!(s.exp.current, 10);
    assert_eq!(s.health.current, 540);
    assert_eq!(
        bus.events().as_slice(),
        &[ServerEvent::LevelUp(Uid(30), 2), ServerEvent::LevelUp(Uid(30), 3)],
    );
}

#[test]
fn run_touches_only_stats_and_energy() {
    let mut actors = vec![Actor::new(Uid(40), Body::Dragon, 500)];
    actors[0].mounted = true;
    let mut bus: EventBus<ServerEvent> = EventBus::new();
    Sys::run(&mut actors, DeltaTime(33), &mut bus);
    assert_eq!(actors[0].uid, Uid(40));
    assert_eq!(actors[0].body, Body::Dragon);
    assert!(actors[0].mounted);
    assert_eq!(bus.len(), 0);
}
