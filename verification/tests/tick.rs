use sim_core::actor::Actor;
use sim_core::body::Body;
use sim_core::character_behavior::{CharacterBehavior, JoinData, StateUpdate};
use sim_core::character_state::{CharacterState, EquippingData};
use sim_core::energy::EnergySource;
use sim_core::event::{LocalEvent, ServerEvent};
use sim_core::sim::tick;
use sim_core::stats::HealthSource;
use sim_core::time::DeltaTime;
use sim_core::uid::Uid;

/// Counts down an equip timer into wielding; otherwise keeps everything.
struct Equip;

impl CharacterBehavior for Equip {
    fn behavior(&self, data: &JoinData) -> StateUpdate {
        let character = match data.character {
            CharacterState::Equipping(e) => {
                if e.time_left_ms > data.dt.0 {
                    CharacterState::Equipping(EquippingData {
                        time_left_ms: e.time_left_ms - data.dt.0,
                    })
                } else {
                    CharacterState::Wielding
                }
            }
            other => other,
        };
        StateUpdate {
            character,
            pos: data.pos,
            vel: data.vel,
            ori: data.ori,
            energy: data.energy,
            loadout: data.loadout,
            local_events: Vec::new(),
            server_events: Vec::new(),
        }
    }
}

#[test]
fn one_tick_runs_both_passes_and_drains_once() {
    let mut actors = vec![
        Actor::new(Uid(1), Body::Humanoid, 1000),
        Actor::new(Uid(2), Body::Humanoid, 100),
    ];
    // Actor 1 is mid-equip with a drained pool (equipping is passive regen);
    // actor 2 just died.
    actors[0].character = CharacterState::Equipping(EquippingData { time_left_ms: 1500 });
    actors[0].energy.change_by(-900, EnergySource::Ability);
    actors[1].stats.health.set_to(0, HealthSource::World);

    let (server, local) = tick(&Equip, &mut actors, DeltaTime(1000));
    assert_eq!(
        actors[0].character,
        CharacterState::Equipping(EquippingData { time_left_ms: 500 }),
    );
    assert_eq!(actors[0].energy.current(), 105);
    assert!(actors[1].stats.is_dead);
    assert_eq!(
        server,
        vec![ServerEvent::Destroy { uid: Uid(2), cause: HealthSource::World }],
    );
    assert_eq!(local, Vec::<LocalEvent>::new());

    // Next tick: the equip timer expires; the dead actor stays silent.
    let (server, _) = tick(&Equip, &mut actors, DeltaTime(1000));
    assert_eq!(actors[0].character, CharacterState::Wielding);
    assert_eq!(actors[0].energy.current(), 120);
    assert!(server.is_empty());
}
