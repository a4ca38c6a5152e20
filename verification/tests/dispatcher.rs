use sim_core::actor::Actor;
use sim_core::body::Body;
use sim_core::character_behavior::{CharacterBehavior, JoinData, StateUpdate, Sys};
use sim_core::character_state::CharacterState;
use sim_core::event::{EventBus, LocalEvent, ServerEvent};
use sim_core::stats::HealthSource;
use sim_core::time::DeltaTime;
use sim_core::uid::Uid;
use sim_core::vec3::Vec3;
use sim_core::phys::Pos;

/// A handler that keeps everything as it is and emits nothing.
struct Passthrough;

impl CharacterBehavior for Passthrough {
    fn behavior(&self, data: &JoinData) -> StateUpdate {
        StateUpdate {
            character: data.character,
            pos: data.pos,
            vel: data.vel,
            ori: data.ori,
            energy: data.energy,
            loadout: data.loadout,
            local_events: Vec::new(),
            server_events: Vec::new(),
        }
    }
}

/// A handler that moves the actor up one unit, jumps, and goes idle.
struct Hop;

impl CharacterBehavior for Hop {
    fn behavior(&self, data: &JoinData) -> StateUpdate {
        let p = data.pos.0;
        StateUpdate {
            character: CharacterState::Idle,
            pos: Pos(Vec3 { x: p.x, y: p.y, z: p.z + 1000 }),
            vel: data.vel,
            ori: data.ori,
            energy: data.energy,
            loadout: data.loadout,
            local_events: vec![LocalEvent::Jump(data.uid)],
            server_events: Vec::new(),
        }
    }
}

fn buses() -> (EventBus<ServerEvent>, EventBus<LocalEvent>) {
    (EventBus::new(), EventBus::new())
}

#[test]
fn dead_actor_emits_respawn_on_rising_edge_only() {
    let mut actor = Actor::new(Uid(1), Body::Humanoid, 100);
    actor.stats.health.set_to(0, HealthSource::World);
    actor.stats.is_dead = true;
    actor.character = CharacterState::Wielding;
    let (mut sb, mut lb) = buses();

    // First tick: the respawn input goes down.
    actor.controller.inputs.respawn.set_pressed(true);
    let _ = Sys::step(&Passthrough, 0, &mut actor, DeltaTime(33), &mut sb, &mut lb);
    assert_eq!(sb.events().as_slice(), &[ServerEvent::Respawn(Uid(1))]);
    // Dead actors are otherwise untouched: no handler ran.
    assert_eq!(actor.character, CharacterState::Wielding);

    // Second tick: the input is still held; no second request.
    actor.controller.inputs.respawn.set_pressed(true);
    let _ = Sys::step(&Passthrough, 0, &mut actor, DeltaTime(33), &mut sb, &mut lb);
    assert_eq!(sb.len(), 1);
    assert_eq!(lb.len(), 0);
}

#[test]
fn dead_actor_without_input_is_silent() {
    let mut actor = Actor::new(Uid(2), Body::Humanoid, 100);
    actor.stats.is_dead = true;
    let (mut sb, mut lb) = buses();
    let _ = Sys::step(&Hop, 0, &mut actor, DeltaTime(33), &mut sb, &mut lb);
    assert_eq!(sb.len(), 0);
    assert_eq!(lb.len(), 0);
    assert_eq!(actor.pos.0, Vec3::new(0, 0, 0));
}

#[test]
fn mounted_actor_is_forced_to_sit() {
    let mut actor = Actor::new(Uid(3), Body::Humanoid, 100);
    actor.character = CharacterState::Glide;
    actor.mounted = true;
    let (mut sb, mut lb) = buses();
    let _ = Sys::step(&Hop, 0, &mut actor, DeltaTime(33), &mut sb, &mut lb);
    assert_eq!(actor.character, CharacterState::Sit);
    assert_eq!(actor.pos.0, Vec3::new(0, 0, 0));
    assert_eq!(sb.len(), 0);
    assert_eq!(lb.len(), 0);
}

#[test]
fn handler_bundle_is_written_back_whole() {
    let mut actor = Actor::new(Uid(4), Body::Humanoid, 100);
    actor.character = CharacterState::Wielding;
    let (mut sb, mut lb) = buses();
    let _ = Sys::step(&Hop, 0, &mut actor, DeltaTime(33), &mut sb, &mut lb);
    assert_eq!(actor.character, CharacterState::Idle);
    assert_eq!(actor.pos.0, Vec3::new(0, 0, 1000));
    assert_eq!(lb.events().as_slice(), &[LocalEvent::Jump(Uid(4))]);
    assert_eq!(sb.len(), 0);
}

#[test]
fn run_dispatches_every_actor_in_order() {
    let mut actors = vec![
        Actor::new(Uid(10), Body::Humanoid, 100),
        Actor::new(Uid(11), Body::Humanoid, 100),
        Actor::new(Uid(12), Body::Humanoid, 100),
    ];
    actors[1].stats.is_dead = true;
    actors[1].controller.inputs.respawn.set_pressed(true);
    actors[2].mounted = true;
    actors[2].character = CharacterState::Glide;
    let (mut sb, mut lb) = buses();
    Sys::run(&Hop, &mut actors, DeltaTime(33), &mut sb, &mut lb);
    // The live, unmounted actor hopped.
    assert_eq!(actors[0].pos.0, Vec3::new(0, 0, 1000));
    // The dead actor requested a respawn and was otherwise untouched.
    assert_eq!(actors[1].pos.0, Vec3::new(0, 0, 0));
    // The mounted actor sits.
    assert_eq!(actors[2].character, CharacterState::Sit);
    assert_eq!(sb.events().as_slice(), &[ServerEvent::Respawn(Uid(11))]);
    assert_eq!(lb.events().as_slice(), &[LocalEvent::Jump(Uid(10))]);
}

#[test]
fn bus_drains_everything_exactly_once() {
    let mut bus: EventBus<ServerEvent> = EventBus::new();
    bus.emit(ServerEvent::Respawn(Uid(1)));
    bus.emit(ServerEvent::LevelUp(Uid(1), 2));
    let mut queue = vec![ServerEvent::Respawn(Uid(2))];
    bus.append(&mut queue);
    assert!(queue.is_empty());
    let drained = bus.drain();
    assert_eq!(
        drained,
        vec![
            ServerEvent::Respawn(Uid(1)),
            ServerEvent::LevelUp(Uid(1), 2),
            ServerEvent::Respawn(Uid(2)),
        ],
    );
    assert_eq!(bus.len(), 0);
    assert!(bus.drain().is_empty());
}
