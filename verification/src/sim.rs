//! One fixed simulation tick over the arena.
//!
//! The behavior dispatcher runs first; the resource regeneration system
//! runs over the updated states; then both event buses are drained exactly
//! once — no event dropped, none duplicated.

use vstd::prelude::*;
use crate::actor::Actor;
use crate::character_behavior::{dispatch_emits, CharacterBehavior, Sys as BehaviorSys};
use crate::event::{EventBus, LocalEvent, ServerEvent};
use crate::stats_sys::{
    aged_stats, energy_tick_rel, regen_untouched, stats_after_update, tick_events_upto,
    Sys as StatsSys,
};
use crate::time::{DeltaTime, DT_LIMIT_MS};

verus! {

/// The regeneration pass, applied to every actor of the arena `mid`: stats
/// are aged then updated, energy follows its state's category, and nothing
/// else on an actor is touched.
pub open spec fn stats_pass_applied(mid: Seq<Actor>, fin: Seq<Actor>, dt_ms: int) -> bool {
    &&& fin.len() == mid.len()
    &&& forall|j: int|
        0 <= j < mid.len() ==> {
            &&& regen_untouched(mid[j], #[trigger] fin[j])
            &&& fin[j].stats == stats_after_update(aged_stats(mid[j].stats, dt_ms))
            &&& energy_tick_rel(mid[j].character, mid[j].energy, fin[j].energy, dt_ms)
        }
}

/// One simulation tick: the dispatcher takes every actor through
/// `dispatch_emits` into some mid arena, the regeneration pass takes the
/// mid arena to the final one, and the returned queues hold exactly the
/// events the two passes emitted, in order — the dispatcher's segments
/// first, then the regeneration pass's destroy and level-up events.
pub fn tick<B: CharacterBehavior>(
    handlers: &B,
    actors: &mut Vec<Actor>,
    dt: DeltaTime,
) -> (events: (Vec<ServerEvent>, Vec<LocalEvent>))
    requires
        dt.0 <= DT_LIMIT_MS,
        forall|j: int| 0 <= j < old(actors)@.len() ==> (#[trigger] old(actors)@[j].stats).wf(),
    ensures
        final(actors)@.len() == old(actors)@.len(),
        exists|mid: Seq<Actor>, ssegs: Seq<Seq<ServerEvent>>, lsegs: Seq<Seq<LocalEvent>>|
            #![trigger ssegs.flatten(), lsegs.flatten(), mid.len()]
            {
                &&& mid.len() == old(actors)@.len()
                &&& ssegs.len() == old(actors)@.len()
                &&& lsegs.len() == old(actors)@.len()
                &&& (forall|j: int|
                    0 <= j < old(actors)@.len() ==> #[trigger] dispatch_emits(
                        old(actors)@[j],
                        mid[j],
                        ssegs[j],
                        lsegs[j],
                    ))
                &&& stats_pass_applied(mid, final(actors)@, dt.0 as int)
                &&& events.0@ == ssegs.flatten() + tick_events_upto(
                    mid,
                    dt.0 as int,
                    mid.len() as int,
                )
                &&& events.1@ == lsegs.flatten()
            },
{
    let ghost a0 = actors@;
    let mut server_bus: EventBus<ServerEvent> = EventBus::new();
    let mut local_bus: EventBus<LocalEvent> = EventBus::new();
    BehaviorSys::run(handlers, actors, dt, &mut server_bus, &mut local_bus);
    let ghost mid = actors@;
    let ghost (ssegs, lsegs): (Seq<Seq<ServerEvent>>, Seq<Seq<LocalEvent>>) = choose|
        ssegs: Seq<Seq<ServerEvent>>,
        lsegs: Seq<Seq<LocalEvent>>,
    |
        #![trigger ssegs.flatten(), lsegs.flatten()]
        {
            &&& ssegs.len() == a0.len()
            &&& lsegs.len() == a0.len()
            &&& (forall|j: int|
                0 <= j < a0.len() ==> #[trigger] dispatch_emits(a0[j], mid[j], ssegs[j], lsegs[j]))
            &&& server_bus@ == Seq::<ServerEvent>::empty() + ssegs.flatten()
            &&& local_bus@ == Seq::<LocalEvent>::empty() + lsegs.flatten()
        };
    proof {
        // The dispatcher never touches the stats component, so every
        // actor's stats are still coherent for the regeneration pass.
        assert forall|j: int| 0 <= j < mid.len() implies (#[trigger] mid[j].stats).wf() by {
            assert(dispatch_emits(a0[j], mid[j], ssegs[j], lsegs[j]));
            if !a0[j].stats.is_dead && !a0[j].mounted {
                let u = choose|u: crate::character_behavior::StateUpdate|
                    #[trigger] crate::character_behavior::bundle_emits(
                        a0[j],
                        mid[j],
                        u,
                        ssegs[j],
                        lsegs[j],
                    );
                assert(mid[j].stats == a0[j].stats);
            }
        }
    }
    StatsSys::run(actors, dt, &mut server_bus);
    let server_events = server_bus.drain();
    let local_events = local_bus.drain();
    proof {
        assert(server_events@ =~= ssegs.flatten() + tick_events_upto(
            mid,
            dt.0 as int,
            mid.len() as int,
        ));
        assert(local_events@ =~= lsegs.flatten());
        assert(stats_pass_applied(mid, actors@, dt.0 as int));
    }
    (server_events, local_events)
}

} // verus!
