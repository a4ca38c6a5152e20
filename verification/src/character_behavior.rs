//! The behavior dispatcher: per tick, for every actor, it builds a
//! read-only snapshot of the actor's components, dispatches to the behavior
//! implementation of the current state variant, and applies the returned
//! update bundle atomically — a full replace, not a merge.
//!
//! Two overrides run before any handler: a dead actor only ever emits a
//! respawn request, on the rising edge of the respawn input; a mounted
//! actor's state is forced to a passive sit.

use vstd::prelude::*;
use crate::actor::Actor;
use crate::body::Body;
use crate::character_state::{Attacking, CharacterState};
use crate::controller::{Controller, ControllerInputs};
use crate::energy::Energy;
use crate::event::{EventBus, LocalEvent, ServerEvent};
use crate::loadout::Loadout;
use crate::phys::{Ori, PhysicsState, Pos, Vel};
use crate::stats::Stats;
use crate::time::DeltaTime;
use crate::uid::Uid;

verus! {

/// Read-only data handed to a behavior handler: a fresh snapshot of one
/// actor's components, collected each tick and never persisted.
pub struct JoinData {
    pub entity: usize,
    pub uid: Uid,
    pub character: CharacterState,
    pub pos: Pos,
    pub vel: Vel,
    pub ori: Ori,
    pub dt: DeltaTime,
    pub controller: Controller,
    pub inputs: ControllerInputs,
    pub stats: Stats,
    pub energy: Energy,
    pub loadout: Loadout,
    pub body: Body,
    pub physics: PhysicsState,
    pub attacking: Option<Attacking>,
}

impl JoinData {
    /// Collects the snapshot of one arena entry.
    pub fn new(entity: usize, actor: &Actor, dt: DeltaTime) -> (j: JoinData)
        ensures
            j.entity == entity,
            j.uid == actor.uid,
            j.character == actor.character,
            j.pos == actor.pos,
            j.vel == actor.vel,
            j.ori == actor.ori,
            j.dt == dt,
            j.controller == actor.controller,
            j.inputs == actor.controller.inputs,
            j.stats == actor.stats,
            j.energy == actor.energy,
            j.loadout == actor.loadout,
            j.body == actor.body,
            j.physics.on_ground == actor.physics.on_ground,
            j.physics.on_ceiling == actor.physics.on_ceiling,
            j.physics.on_wall == actor.physics.on_wall,
            j.physics.touch_entities@ == actor.physics.touch_entities@,
            j.physics.in_fluid == actor.physics.in_fluid,
            j.attacking == actor.attacking,
    {
        JoinData {
            entity,
            uid: actor.uid,
            character: actor.character,
            pos: actor.pos,
            vel: actor.vel,
            ori: actor.ori,
            dt,
            controller: actor.controller,
            inputs: actor.controller.inputs,
            stats: actor.stats,
            energy: actor.energy,
            loadout: actor.loadout,
            body: actor.body,
            physics: actor.physics.snapshot(),
            attacking: actor.attacking,
        }
    }
}

/// The update bundle a behavior handler returns: the successor state, the
/// new transform and pools, and two ordered queues of events (local-only
/// effects, then authoritative effects). The dispatcher writes every field
/// back unconditionally.
pub struct StateUpdate {
    pub character: CharacterState,
    pub pos: Pos,
    pub vel: Vel,
    pub ori: Ori,
    pub energy: Energy,
    pub loadout: Loadout,
    pub local_events: Vec<LocalEvent>,
    pub server_events: Vec<ServerEvent>,
}

/// A behavior implementation: a total function from the read-only snapshot
/// to an update bundle. Handlers may not block, sleep, or read a wall
/// clock; all timing comes from the snapshot's delta time, so behavior is
/// reproducible from the input stream.
pub trait CharacterBehavior {
    fn behavior(&self, data: &JoinData) -> StateUpdate;
}

/// The bundle `u` written back whole over `a0`, yielding `a1`: every field
/// the handler owns is replaced, everything else kept.
pub open spec fn bundle_written(a0: Actor, a1: Actor, u: StateUpdate) -> bool {
    a1 == (Actor {
        character: u.character,
        pos: u.pos,
        vel: u.vel,
        ori: u.ori,
        energy: u.energy,
        loadout: u.loadout,
        ..a0
    })
}

/// The bundle `u` written back whole over `a0`, yielding `a1`, with the
/// bundle's event queues appended in order to the two buses.
pub open spec fn applies_update(
    a0: Actor,
    a1: Actor,
    u: StateUpdate,
    sb0: Seq<ServerEvent>,
    sb1: Seq<ServerEvent>,
    lb0: Seq<LocalEvent>,
    lb1: Seq<LocalEvent>,
) -> bool {
    &&& bundle_written(a0, a1, u)
    &&& sb1 == sb0 + u.server_events@
    &&& lb1 == lb0 + u.local_events@
}

/// What one dispatcher step does to an actor and the two buses. Death
/// overrides everything: the actor is untouched and the only possible
/// emission is one respawn request, exactly on the rising edge of the
/// respawn input. A mounted actor is forced to sit, nothing else changing.
/// Otherwise some handler bundle is applied whole.
pub open spec fn dispatch_rel(
    a0: Actor,
    a1: Actor,
    sb0: Seq<ServerEvent>,
    sb1: Seq<ServerEvent>,
    lb0: Seq<LocalEvent>,
    lb1: Seq<LocalEvent>,
) -> bool {
    if a0.stats.is_dead {
        &&& a1 == a0
        &&& lb1 == lb0
        &&& sb1 == if a0.controller.inputs.respawn.rising_edge() {
            sb0.push(ServerEvent::Respawn(a0.uid))
        } else {
            sb0
        }
    } else if a0.mounted {
        &&& a1 == (Actor { character: CharacterState::Sit, ..a0 })
        &&& sb1 == sb0
        &&& lb1 == lb0
    } else {
        exists|u: StateUpdate| #[trigger] applies_update(a0, a1, u, sb0, sb1, lb0, lb1)
    }
}

/// The bundle `u` written back whole, its two event queues being exactly
/// the segments this actor contributes to the buses.
pub open spec fn bundle_emits(
    a0: Actor,
    a1: Actor,
    u: StateUpdate,
    sseg: Seq<ServerEvent>,
    lseg: Seq<LocalEvent>,
) -> bool {
    &&& bundle_written(a0, a1, u)
    &&& sseg == u.server_events@
    &&& lseg == u.local_events@
}

/// What one dispatcher step does to an actor, together with the event
/// segments it appends to the two buses: a dead actor contributes at most
/// one respawn request (exactly on the rising edge of the respawn input); a
/// mounted actor is forced to sit and contributes nothing; otherwise some
/// handler bundle is written back and its queues are the segments.
pub open spec fn dispatch_emits(
    a0: Actor,
    a1: Actor,
    sseg: Seq<ServerEvent>,
    lseg: Seq<LocalEvent>,
) -> bool {
    if a0.stats.is_dead {
        &&& a1 == a0
        &&& lseg == Seq::<LocalEvent>::empty()
        &&& sseg == if a0.controller.inputs.respawn.rising_edge() {
            seq![ServerEvent::Respawn(a0.uid)]
        } else {
            Seq::<ServerEvent>::empty()
        }
    } else if a0.mounted {
        &&& a1 == (Actor { character: CharacterState::Sit, ..a0 })
        &&& sseg == Seq::<ServerEvent>::empty()
        &&& lseg == Seq::<LocalEvent>::empty()
    } else {
        exists|u: StateUpdate| #[trigger] bundle_emits(a0, a1, u, sseg, lseg)
    }
}

/// ## Character behavior system
///
/// Passes each actor's snapshot to its behavior handler and applies the
/// returned update bundle to the arena and the event buses.
pub struct Sys;

impl Sys {
    /// One dispatcher step for one actor, as `dispatch_rel` states it; the
    /// returned ghost pair names the event segments this actor appended to
    /// the two buses.
    pub fn step<B: CharacterBehavior>(
        handlers: &B,
        entity: usize,
        actor: &mut Actor,
        dt: DeltaTime,
        server_bus: &mut EventBus<ServerEvent>,
        local_bus: &mut EventBus<LocalEvent>,
    ) -> (emitted: Ghost<(Seq<ServerEvent>, Seq<LocalEvent>)>)
        ensures
            dispatch_rel(
                *old(actor),
                *final(actor),
                old(server_bus)@,
                final(server_bus)@,
                old(local_bus)@,
                final(local_bus)@,
            ),
            dispatch_emits(*old(actor), *final(actor), emitted@.0, emitted@.1),
            final(server_bus)@ == old(server_bus)@ + emitted@.0,
            final(local_bus)@ == old(local_bus)@ + emitted@.1,
            old(actor).stats.is_dead ==> *final(actor) == *old(actor),
    {
        // Being dead overrides all other states: the only option is to
        // request a respawn, and holding the input from an earlier tick
        // must not re-fire it.
        if actor.stats.is_dead {
            let respawn = actor.controller.inputs.respawn;
            if respawn.is_pressed() && !respawn.is_held_down() {
                let ev = ServerEvent::Respawn(actor.uid);
                server_bus.emit(ev);
                proof {
                    assert(server_bus@ =~= old(server_bus)@ + seq![ev]);
                    assert(local_bus@ =~= old(local_bus)@ + Seq::<LocalEvent>::empty());
                }
                return Ghost((seq![ev], Seq::<LocalEvent>::empty()));
            }
            proof {
                assert(server_bus@ =~= old(server_bus)@ + Seq::<ServerEvent>::empty());
                assert(local_bus@ =~= old(local_bus)@ + Seq::<LocalEvent>::empty());
            }
            return Ghost((Seq::<ServerEvent>::empty(), Seq::<LocalEvent>::empty()));
        }
        // A mounted actor's state is controlled by the mount.
        if actor.mounted {
            actor.character = CharacterState::Sit;
            proof {
                assert(server_bus@ =~= old(server_bus)@ + Seq::<ServerEvent>::empty());
                assert(local_bus@ =~= old(local_bus)@ + Seq::<LocalEvent>::empty());
            }
            return Ghost((Seq::<ServerEvent>::empty(), Seq::<LocalEvent>::empty()));
        }
        let j = JoinData::new(entity, actor, dt);
        let mut update = handlers.behavior(&j);
        let ghost u = update;
        actor.character = update.character;
        actor.pos = update.pos;
        actor.vel = update.vel;
        actor.ori = update.ori;
        actor.energy = update.energy;
        actor.loadout = update.loadout;
        local_bus.append(&mut update.local_events);
        server_bus.append(&mut update.server_events);
        proof {
            assert(applies_update(
                *old(actor),
                *actor,
                u,
                old(server_bus)@,
                server_bus@,
                old(local_bus)@,
                local_bus@,
            ));
            assert(bundle_emits(*old(actor), *actor, u, u.server_events@, u.local_events@));
        }
        Ghost((u.server_events@, u.local_events@))
    }

    /// The dispatcher's tick over the whole arena. Dead actors are
    /// untouched; mounted actors are forced to sit; every other actor gets
    /// some handler bundle written back whole, and the buses grow only at
    /// the back, threading through one step per actor in arena order.
    pub fn run<B: CharacterBehavior>(
        handlers: &B,
        actors: &mut Vec<Actor>,
        dt: DeltaTime,
        server_bus: &mut EventBus<ServerEvent>,
        local_bus: &mut EventBus<LocalEvent>,
    )
        ensures
            final(actors)@.len() == old(actors)@.len(),
            exists|ssegs: Seq<Seq<ServerEvent>>, lsegs: Seq<Seq<LocalEvent>>|
                #![trigger ssegs.flatten(), lsegs.flatten()]
                {
                    &&& ssegs.len() == old(actors)@.len()
                    &&& lsegs.len() == old(actors)@.len()
                    &&& (forall|j: int|
                        0 <= j < old(actors)@.len() ==> #[trigger] dispatch_emits(
                            old(actors)@[j],
                            final(actors)@[j],
                            ssegs[j],
                            lsegs[j],
                        ))
                    &&& final(server_bus)@ == old(server_bus)@ + ssegs.flatten()
                    &&& final(local_bus)@ == old(local_bus)@ + lsegs.flatten()
                },
            forall|j: int|
                0 <= j < old(actors)@.len() && old(actors)@[j].stats.is_dead
                    ==> #[trigger] final(actors)@[j] == old(actors)@[j],
            forall|j: int|
                0 <= j < old(actors)@.len() && !old(actors)@[j].stats.is_dead
                    && old(actors)@[j].mounted ==> #[trigger] final(actors)@[j] == (Actor {
                    character: CharacterState::Sit,
                    ..old(actors)@[j]
                }),
            forall|j: int|
                0 <= j < old(actors)@.len() && !old(actors)@[j].stats.is_dead
                    && !old(actors)@[j].mounted ==> exists|u: StateUpdate|
                    #[trigger] bundle_written(old(actors)@[j], final(actors)@[j], u),
            old(server_bus)@.is_prefix_of(final(server_bus)@),
            old(local_bus)@.is_prefix_of(final(local_bus)@),
    {
        let n = actors.len();
        let ghost a0 = actors@;
        let ghost sb0 = server_bus@;
        let ghost lb0 = local_bus@;
        let ghost mut ssegs: Seq<Seq<ServerEvent>> = Seq::<Seq<ServerEvent>>::empty();
        let ghost mut lsegs: Seq<Seq<LocalEvent>> = Seq::<Seq<LocalEvent>>::empty();
        proof {
            assert(server_bus@ =~= sb0 + ssegs.flatten());
            assert(local_bus@ =~= lb0 + lsegs.flatten());
        }
        let mut i: usize = 0;
        while i < n
            invariant
                i <= n,
                n == actors@.len(),
                a0.len() == n,
                ssegs.len() == i as int,
                lsegs.len() == i as int,
                server_bus@ == sb0 + ssegs.flatten(),
                local_bus@ == lb0 + lsegs.flatten(),
                forall|j: int| i <= j < n ==> actors@[j] == a0[j],
                forall|j: int|
                    0 <= j < i ==> #[trigger] dispatch_emits(a0[j], actors@[j], ssegs[j], lsegs[j]),
                forall|j: int|
                    0 <= j < i && a0[j].stats.is_dead ==> #[trigger] actors@[j] == a0[j],
                forall|j: int|
                    0 <= j < i && !a0[j].stats.is_dead && a0[j].mounted ==> #[trigger] actors@[j]
                        == (Actor { character: CharacterState::Sit, ..a0[j] }),
                forall|j: int|
                    0 <= j < i && !a0[j].stats.is_dead && !a0[j].mounted ==> exists|u: StateUpdate|
                        #[trigger] bundle_written(a0[j], actors@[j], u),
            decreases n - i,
        {
            let ghost sbm = server_bus@;
            let ghost lbm = local_bus@;
            let ghost pre = actors@;
            let emitted = Self::step(handlers, i, &mut actors[i], dt, server_bus, local_bus);
            proof {
                assert(actors@ == pre.update(i as int, actors@[i as int]));
                assert(dispatch_emits(a0[i as int], actors@[i as int], emitted@.0, emitted@.1));
                assert forall|j: int| 0 <= j < i + 1 && !a0[j].stats.is_dead && !a0[j].mounted
                    implies exists|u: StateUpdate|
                    #[trigger] bundle_written(a0[j], actors@[j], u) by {
                    if j == i as int {
                        let u = choose|u: StateUpdate|
                            #[trigger] bundle_emits(
                                a0[i as int],
                                actors@[i as int],
                                u,
                                emitted@.0,
                                emitted@.1,
                            );
                        assert(bundle_written(a0[j], actors@[j], u));
                    } else {
                        assert(actors@[j] == pre[j]);
                        let u = choose|u: StateUpdate| #[trigger] bundle_written(a0[j], pre[j], u);
                        assert(bundle_written(a0[j], actors@[j], u));
                    }
                }
                ssegs.lemma_flatten_push(emitted@.0);
                lsegs.lemma_flatten_push(emitted@.1);
                ssegs = ssegs.push(emitted@.0);
                lsegs = lsegs.push(emitted@.1);
                assert(server_bus@ =~= sb0 + ssegs.flatten());
                assert(local_bus@ =~= lb0 + lsegs.flatten());
            }
            i = i + 1;
        }
        proof {
            assert(sb0 =~= server_bus@.subrange(0, sb0.len() as int));
            assert(lb0 =~= local_bus@.subrange(0, lb0.len() as int));
        }
    }
}

/// The actor after the input collaborator reports its respawn control
/// pressed for this tick.
pub open spec fn press_respawn(a: Actor) -> Actor {
    Actor {
        controller: Controller {
            inputs: ControllerInputs {
                respawn: a.controller.inputs.respawn.spec_after(true),
                ..a.controller.inputs
            },
        },
        ..a
    }
}

/// Death override: a dead actor whose respawn input is pressed and then
/// held across two consecutive dispatcher ticks emits the respawn request
/// on the first tick only — rising-edge detection, not level detection.
pub proof fn lemma_respawn_emitted_once(
    a0: Actor,
    a1: Actor,
    a2: Actor,
    sb0: Seq<ServerEvent>,
    sb1: Seq<ServerEvent>,
    sb2: Seq<ServerEvent>,
    lb0: Seq<LocalEvent>,
    lb1: Seq<LocalEvent>,
    lb2: Seq<LocalEvent>,
)
    requires
        a0.stats.is_dead,
        !a0.controller.inputs.respawn.pressed,
        dispatch_rel(press_respawn(a0), a1, sb0, sb1, lb0, lb1),
        dispatch_rel(press_respawn(a1), a2, sb1, sb2, lb1, lb2),
    ensures
        sb1 == sb0.push(ServerEvent::Respawn(a0.uid)),
        sb2 == sb1,
{
    assert(press_respawn(a0).controller.inputs.respawn.rising_edge());
    assert(a1 == press_respawn(a0));
    assert(!press_respawn(a1).controller.inputs.respawn.rising_edge());
}

} // verus!
