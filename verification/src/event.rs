//! Events and the append-only buses they flow through.
//!
//! Authoritative events must be observed by the owning simulation to mutate
//! persistent state; local events are presentation-only effects. Buses are
//! append-only within a tick and drained exactly once after both passes.

use vstd::prelude::*;
use crate::stats::HealthSource;
use crate::uid::Uid;
use crate::vec3::Vec3;

verus! {

/// Authoritative events, observed by the owning simulation.
#[derive(Clone, Copy, Debug, PartialEq, Eq, Structural)]
pub enum ServerEvent {
    Respawn(Uid),
    Destroy { uid: Uid, cause: HealthSource },
    LevelUp(Uid, u32),
}

/// Local, presentation-only effects with no further simulation consequence.
#[derive(Clone, Copy, Debug, PartialEq, Eq, Structural)]
pub enum LocalEvent {
    Jump(Uid),
    KnockUp(Uid),
    Boost { uid: Uid, vel: Vec3 },
}

/// An append-only event queue: producers emit or append during a tick, and
/// the owner drains the whole queue exactly once afterwards.
#[derive(Debug)]
pub struct EventBus<E> {
    events: Vec<E>,
}

impl<E> View for EventBus<E> {
    type V = Seq<E>;

    closed spec fn view(&self) -> Seq<E> {
        self.events@
    }
}

impl<E> EventBus<E> {
    /// An empty bus.
    pub fn new() -> (bus: EventBus<E>)
        ensures
            bus@ == Seq::<E>::empty(),
    {
        EventBus { events: Vec::new() }
    }

    /// How many events are queued.
    pub fn len(&self) -> (n: usize)
        ensures
            n == self@.len(),
    {
        self.events.len()
    }

    /// Queues one event at the back.
    pub fn emit(&mut self, event: E)
        ensures
            final(self)@ == old(self)@.push(event),
    {
        self.events.push(event);
    }

    /// Moves a producer's whole queue onto the back of the bus, in order.
    pub fn append(&mut self, queue: &mut Vec<E>)
        ensures
            final(self)@ == old(self)@ + old(queue)@,
            final(queue)@ == Seq::<E>::empty(),
    {
        self.events.append(queue);
    }

    /// Hands out everything queued, in order, leaving the bus empty; the
    /// once-per-tick drain.
    pub fn drain(&mut self) -> (out: Vec<E>)
        ensures
            out@ == old(self)@,
            final(self)@ == Seq::<E>::empty(),
    {
        let mut out: Vec<E> = Vec::new();
        core::mem::swap(&mut out, &mut self.events);
        out
    }

    /// Reads the queued events without disturbing them.
    pub fn events(&self) -> (r: &Vec<E>)
        ensures
            r@ == self@,
    {
        &self.events
    }
}

} // verus!
