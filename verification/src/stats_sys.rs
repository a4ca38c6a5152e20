//! The resource regeneration system: each tick it ages health changes, kills
//! actors whose health has reached zero, levels them up while experience
//! clears the threshold, and regenerates energy according to the current
//! behavior state's category.

use vstd::prelude::*;
use crate::actor::Actor;
use crate::character_state::{
    is_ability_state, is_block_state, is_passive_regen_state, is_regen_frozen_state,
    CharacterState,
};
use crate::energy::{Energy, EnergySource, REGEN_RATE_CAP_MILLI};
use crate::event::{EventBus, ServerEvent};
use crate::permille::clamped;
use crate::stats::{
    spec_exp_threshold, Exp, Health, HealthChange, HealthSource, Stats,
};
use crate::body::spec_max_hp;
use crate::time::{DeltaTime, DT_LIMIT_MS};
use crate::uid::Uid;

verus! {

/// Acceleration of the regeneration rate, in milli-points per second per
/// second.
pub const ENERGY_REGEN_ACCEL_MILLI: u32 = 10_000;

/// Fixed energy upkeep of blocking, in points per tick.
pub const BLOCK_UPKEEP_PER_TICK: i64 = 3;

// ---------------------------------------------------------------------------
// The health pass, per actor.
// ---------------------------------------------------------------------------

/// The stats after one tick's worth of aging of the last health change.
pub open spec fn aged_stats(s: Stats, dt_ms: int) -> Stats {
    Stats { health: s.health.spec_aged(dt_ms), ..s }
}

/// Whether the health pass marks this actor dead (and emits one destroy
/// event): health at zero and the flag not yet set.
pub open spec fn emits_destroy(s: Stats) -> bool {
    s.spec_should_die() && !s.is_dead
}

/// Whether the health pass runs the level-up loop for this actor.
pub open spec fn triggers_level_up(s: Stats) -> bool {
    s.exp.current >= s.exp.maximum
}

/// Repeated threshold subtraction: from (experience, threshold, level),
/// the final experience, threshold and level, plus each level attained, in
/// order. One level per excess threshold multiple; the threshold is
/// recomputed from each new level; the level saturates at its type's
/// ceiling.
pub open spec fn level_progress(current: int, maximum: int, level: int) -> (
    int,
    int,
    int,
    Seq<u32>,
)
    decreases current,
{
    if current < maximum || maximum < 1 || level < 0 || current < 0 {
        (current, maximum, level, Seq::<u32>::empty())
    } else {
        let new_level = if level < u32::MAX { level + 1 } else { level };
        let rest = level_progress(current - maximum, spec_exp_threshold(new_level), new_level);
        (rest.0, rest.1, rest.2, seq![new_level as u32] + rest.3)
    }
}

/// The stats after the health pass: the death flag latches if health is at
/// zero, then experience is consumed into levels, the health maximum is
/// recomputed from the body at the new level, and health is fully restored
/// to it.
pub open spec fn stats_after_update(s: Stats) -> Stats {
    let flagged = Stats { is_dead: s.is_dead || s.spec_should_die(), ..s };
    if triggers_level_up(s) {
        let p = level_progress(s.exp.current as int, s.exp.maximum as int, s.level as int);
        let new_max = spec_max_hp(s.body_type, p.2) as u32;
        let lowered: u32 = if s.health.current <= new_max {
            s.health.current
        } else {
            new_max
        };
        Stats {
            exp: Exp { current: p.0 as u64, maximum: p.1 as u64 },
            level: p.2 as u32,
            health: Health {
                current: new_max,
                maximum: new_max,
                last_change_time_ms: 0,
                last_change: HealthChange {
                    amount: (new_max - lowered) as i64,
                    cause: HealthSource::LevelUp,
                },
            },
            ..flagged
        }
    } else {
        flagged
    }
}

/// The one destroy event the health pass may emit for an actor.
pub open spec fn destroy_events(s: Stats, uid: Uid) -> Seq<ServerEvent> {
    if emits_destroy(s) {
        seq![ServerEvent::Destroy { uid, cause: s.health.last_change.cause }]
    } else {
        Seq::<ServerEvent>::empty()
    }
}

/// Everything the health pass emits for an actor: at most one destroy
/// event, then one level-up event per level attained, in order.
pub open spec fn update_events(s: Stats, uid: Uid) -> Seq<ServerEvent> {
    let p = level_progress(s.exp.current as int, s.exp.maximum as int, s.level as int);
    destroy_events(s, uid) + p.3.map_values(|lv: u32| ServerEvent::LevelUp(uid, lv))
}

/// The health pass for one actor: latches the death flag (emitting the
/// destroy event exactly once, with the recorded cause), then levels the
/// actor up once per threshold multiple its experience clears, emitting one
/// level-up event per level, and finally restores health to the maximum
/// recomputed for the new level.
pub fn stat_update(stats: &mut Stats, uid: Uid, bus: &mut EventBus<ServerEvent>)
    requires
        old(stats).wf(),
    ensures
        *final(stats) == stats_after_update(*old(stats)),
        final(stats).wf(),
        final(bus)@ == old(bus)@ + update_events(*old(stats), uid),
{
    let ghost s0 = *stats;
    let ghost bus0 = bus@;
    let set_dead = stats.should_die() && !stats.is_dead;
    let level_up = stats.exp.current >= stats.exp.maximum;
    if set_dead {
        let cause = stats.health.last_change.cause;
        bus.emit(ServerEvent::Destroy { uid, cause });
        stats.is_dead = true;
    }
    assert(bus@ == bus0 + destroy_events(s0, uid));
    if level_up {
        let ghost p = level_progress(s0.exp.current as int, s0.exp.maximum as int, s0.level as int);
        let ghost mut gained: Seq<u32> = Seq::<u32>::empty();
        while stats.exp.current >= stats.exp.maximum
            invariant
                stats.wf(),
                stats.body_type == s0.body_type,
                stats.health == s0.health,
                stats.is_dead == (s0.is_dead || s0.spec_should_die()),
                bus@ == bus0 + destroy_events(s0, uid) + gained.map_values(
                    |lv: u32| ServerEvent::LevelUp(uid, lv),
                ),
                ({
                    let rest = level_progress(
                        stats.exp.current as int,
                        stats.exp.maximum as int,
                        stats.level as int,
                    );
                    &&& p.0 == rest.0
                    &&& p.1 == rest.1
                    &&& p.2 == rest.2
                    &&& p.3 == gained + rest.3
                }),
            decreases stats.exp.current,
        {
            let maximum = stats.exp.maximum;
            stats.exp.change_by(-(maximum as i64));
            let new_level = if stats.level < u32::MAX {
                stats.level + 1
            } else {
                stats.level
            };
            stats.level = new_level;
            stats.exp.update_maximum(new_level);
            bus.emit(ServerEvent::LevelUp(uid, new_level));
            proof {
                gained = gained.push(new_level);
            }
        }
        let body = stats.body_type;
        stats.update_max_hp(body);
        let m = stats.health.maximum;
        stats.health.set_to(m, HealthSource::LevelUp);
        proof {
            assert(gained =~= p.3);
            assert(bus@ =~= bus0 + update_events(s0, uid));
            assert(*stats =~= stats_after_update(s0));
        }
    } else {
        proof {
            assert(bus@ =~= bus0 + update_events(s0, uid));
        }
    }
}

// ---------------------------------------------------------------------------
// The energy pass, per actor.
// ---------------------------------------------------------------------------

/// The regeneration rate after one passive tick: it grows with the fixed
/// acceleration (10 milli-points per millisecond, i.e. the acceleration
/// constant divided over a second) and saturates at the cap.
pub open spec fn next_regen_rate(rate: int, dt_ms: int) -> int {
    let grown = rate + 10 * dt_ms;
    if grown <= REGEN_RATE_CAP_MILLI {
        grown
    } else {
        REGEN_RATE_CAP_MILLI as int
    }
}

/// Whole energy points gained over one passive tick: the trapezoidal
/// integral of the linearly accelerating rate, `rate * dt + accel * dt^2 /
/// 2`, evaluated in milli-units and truncated to whole points (5 is the
/// acceleration in points per second per second, halved).
pub open spec fn regen_gain(rate: int, dt_ms: int) -> int {
    (rate * dt_ms + 5 * dt_ms * dt_ms) / 1_000_000
}

/// How one energy tick relates the pool before and after, given the
/// behavior state's category.
pub open spec fn energy_tick_rel(s: CharacterState, e0: Energy, e1: Energy, dt_ms: int) -> bool {
    &&& e1.spec_maximum() == e0.spec_maximum()
    &&& (is_passive_regen_state(s) ==> if e0.spec_current() < e0.spec_maximum() {
        &&& e1.spec_current() == clamped(
            e0.spec_current() + regen_gain(e0.spec_regen_rate() as int, dt_ms),
            e0.spec_maximum() as int,
        )
        &&& e1.spec_regen_rate() == next_regen_rate(e0.spec_regen_rate() as int, dt_ms)
        &&& e1.spec_last_change() == Some(
            (regen_gain(e0.spec_regen_rate() as int, dt_ms) as i64, EnergySource::Regen),
        )
    } else {
        e1 == e0
    })
    &&& (is_ability_state(s) ==> e1.spec_current() == e0.spec_current()
        && e1.spec_regen_rate() == 0 && e1.spec_last_change() == e0.spec_last_change())
    &&& (is_block_state(s) ==> if e0.spec_current() < e0.spec_maximum() {
        &&& e1.spec_current() == clamped(
            e0.spec_current() - BLOCK_UPKEEP_PER_TICK,
            e0.spec_maximum() as int,
        )
        &&& e1.spec_regen_rate() == e0.spec_regen_rate()
        &&& e1.spec_last_change() == Some((-BLOCK_UPKEEP_PER_TICK as i64, EnergySource::Regen))
    } else {
        e1 == e0
    })
    &&& (is_regen_frozen_state(s) ==> e1 == e0)
}

/// The energy pass for one actor. Passive states recharge the pool with an
/// accelerating rate (and the rate never decreases while passive, up to its
/// cap); ability-consuming states reset the rate to zero within the tick;
/// blocking pays a fixed upkeep; roll and climb freeze regeneration
/// entirely.
pub fn energy_tick(character: &CharacterState, energy: &mut Energy, dt: DeltaTime)
    requires
        dt.0 <= DT_LIMIT_MS,
    ensures
        energy_tick_rel(*character, *old(energy), *final(energy), dt.0 as int),
        is_passive_regen_state(*character) ==> final(energy).spec_regen_rate() >= old(
            energy,
        ).spec_regen_rate(),
        is_ability_state(*character) ==> final(energy).spec_regen_rate() == 0,
{
    match character {
        CharacterState::Idle
        | CharacterState::Sit
        | CharacterState::Dance
        | CharacterState::Sneak
        | CharacterState::Glide
        | CharacterState::GlideWield
        | CharacterState::Wielding
        | CharacterState::Equipping(_)
        | CharacterState::Boost(_) => {
            if energy.current() < energy.maximum() {
                let rate = energy.regen_rate();
                let d: u64 = dt.0 as u64;
                proof {
                    assert((rate as int) * (d as int) <= 100_000 * 60_000) by (nonlinear_arith)
                        requires rate <= 100_000, d <= 60_000;
                    assert(5 * (d as int) * (d as int) <= 5 * 60_000 * 60_000) by (nonlinear_arith)
                        requires d <= 60_000;
                }
                let num: u64 = (rate as u64) * d + 5 * d * d;
                let gain: u64 = num / 1_000_000;
                energy.change_by(gain as i64, EnergySource::Regen);
                let grown64: u64 = rate as u64 + 10 * d;
                let grown: u32 = if grown64 <= REGEN_RATE_CAP_MILLI as u64 {
                    grown64 as u32
                } else {
                    REGEN_RATE_CAP_MILLI
                };
                energy.set_regen_rate(grown);
            }
        },
        CharacterState::BasicMelee(_)
        | CharacterState::DashMelee(_)
        | CharacterState::TripleStrike(_)
        | CharacterState::TimedCombo(_)
        | CharacterState::CastFireball(_)
        | CharacterState::BasicRanged(_)
        | CharacterState::LeapMelee
        | CharacterState::SpinMelee
        | CharacterState::ComboMelee
        | CharacterState::ChargedMelee
        | CharacterState::ChargedRanged
        | CharacterState::RepeaterRanged
        | CharacterState::Shockwave
        | CharacterState::BasicBeam => {
            if energy.regen_rate() != 0 {
                energy.set_regen_rate(0);
            }
        },
        CharacterState::BasicBlock => {
            if energy.current() < energy.maximum() {
                energy.change_by(-BLOCK_UPKEEP_PER_TICK, EnergySource::Regen);
            }
        },
        CharacterState::Roll(_) | CharacterState::Climb => {},
    }
}

// ---------------------------------------------------------------------------
// The whole pass.
// ---------------------------------------------------------------------------

/// Every per-actor field the regeneration system never touches.
pub open spec fn regen_untouched(a0: Actor, a1: Actor) -> bool {
    &&& a1.uid == a0.uid
    &&& a1.character == a0.character
    &&& a1.pos == a0.pos
    &&& a1.vel == a0.vel
    &&& a1.ori == a0.ori
    &&& a1.loadout == a0.loadout
    &&& a1.controller == a0.controller
    &&& a1.body == a0.body
    &&& a1.physics == a0.physics
    &&& a1.attacking == a0.attacking
    &&& a1.mounted == a0.mounted
}

/// The authoritative events the health pass emits for the first `i` actors,
/// in arena order.
pub open spec fn tick_events_upto(actors: Seq<Actor>, dt_ms: int, i: int) -> Seq<ServerEvent>
    decreases i,
{
    if i <= 0 {
        Seq::<ServerEvent>::empty()
    } else {
        tick_events_upto(actors, dt_ms, i - 1) + update_events(
            aged_stats(actors[i - 1].stats, dt_ms),
            actors[i - 1].uid,
        )
    }
}

/// This system kills actors whose health has reached zero, levels them up,
/// and regenerates energy.
pub struct Sys;

impl Sys {
    /// One tick of the regeneration system over the whole arena: first every
    /// actor's last health change ages by the tick, then the health pass
    /// latches deaths and consumes experience into levels (emitting destroy
    /// and level-up events in arena order), then the energy pass adjusts
    /// each pool by its behavior state's category. Nothing else on any actor
    /// is touched.
    pub fn run(actors: &mut Vec<Actor>, dt: DeltaTime, server_bus: &mut EventBus<ServerEvent>)
        requires
            dt.0 <= DT_LIMIT_MS,
            forall|j: int|
                0 <= j < old(actors)@.len() ==> (#[trigger] old(actors)@[j].stats).wf(),
        ensures
            final(actors)@.len() == old(actors)@.len(),
            forall|j: int|
                0 <= j < old(actors)@.len() ==> regen_untouched(
                    old(actors)@[j],
                    #[trigger] final(actors)@[j],
                ),
            forall|j: int|
                0 <= j < old(actors)@.len() ==> (#[trigger] final(actors)@[j]).stats
                    == stats_after_update(aged_stats(old(actors)@[j].stats, dt.0 as int)),
            forall|j: int|
                0 <= j < old(actors)@.len() ==> (#[trigger] final(actors)@[j]).stats.wf(),
            forall|j: int|
                0 <= j < old(actors)@.len() ==> energy_tick_rel(
                    old(actors)@[j].character,
                    old(actors)@[j].energy,
                    (#[trigger] final(actors)@[j]).energy,
                    dt.0 as int,
                ),
            final(server_bus)@ == old(server_bus)@ + tick_events_upto(
                old(actors)@,
                dt.0 as int,
                old(actors)@.len() as int,
            ),
    {
        let n = actors.len();
        let ghost a0 = actors@;
        let ghost bus0 = server_bus@;

        // Age every actor's last health change by this tick.
        let mut i: usize = 0;
        while i < n
            invariant
                i <= n,
                n == actors@.len(),
                a0.len() == n,
                forall|j: int| i <= j < n ==> actors@[j] == a0[j],
                forall|j: int|
                    0 <= j < i ==> regen_untouched(a0[j], #[trigger] actors@[j]) && actors@[j].energy
                        == a0[j].energy && actors@[j].stats == aged_stats(
                        a0[j].stats,
                        dt.0 as int,
                    ),
            decreases n - i,
        {
            let mut st: Stats = actors[i].stats;
            st.health.age(dt.0);
            actors[i].stats = st;
            i = i + 1;
        }

        // The health pass: latch deaths, consume experience into levels.
        let mut i: usize = 0;
        while i < n
            invariant
                i <= n,
                n == actors@.len(),
                a0.len() == n,
                dt.0 <= DT_LIMIT_MS,
                forall|j: int| 0 <= j < n ==> (#[trigger] a0[j].stats).wf(),
                forall|j: int|
                    i <= j < n ==> regen_untouched(a0[j], #[trigger] actors@[j]) && actors@[j].energy
                        == a0[j].energy && actors@[j].stats == aged_stats(
                        a0[j].stats,
                        dt.0 as int,
                    ),
                forall|j: int|
                    0 <= j < i ==> regen_untouched(a0[j], #[trigger] actors@[j]) && actors@[j].energy
                        == a0[j].energy && actors@[j].stats == stats_after_update(
                        aged_stats(a0[j].stats, dt.0 as int),
                    ) && actors@[j].stats.wf(),
                server_bus@ == bus0 + tick_events_upto(a0, dt.0 as int, i as int),
            decreases n - i,
        {
            let mut st: Stats = actors[i].stats;
            let uid = actors[i].uid;
            assert(st.wf());
            stat_update(&mut st, uid, server_bus);
            actors[i].stats = st;
            i = i + 1;
        }

        // The energy pass: adjust each pool by its state's category.
        let mut i: usize = 0;
        while i < n
            invariant
                i <= n,
                n == actors@.len(),
                a0.len() == n,
                dt.0 <= DT_LIMIT_MS,
                server_bus@ == bus0 + tick_events_upto(a0, dt.0 as int, n as int),
                forall|j: int|
                    0 <= j < n ==> regen_untouched(a0[j], #[trigger] actors@[j]) && actors@[j].stats
                        == stats_after_update(aged_stats(a0[j].stats, dt.0 as int)) && actors@[
                        j
                    ].stats.wf(),
                forall|j: int| i <= j < n ==> (#[trigger] actors@[j]).energy == a0[j].energy,
                forall|j: int|
                    0 <= j < i ==> energy_tick_rel(
                        a0[j].character,
                        a0[j].energy,
                        (#[trigger] actors@[j]).energy,
                        dt.0 as int,
                    ),
            decreases n - i,
        {
            let mut en: Energy = actors[i].energy;
            let character: CharacterState = actors[i].character;
            energy_tick(&character, &mut en, dt);
            actors[i].energy = en;
            i = i + 1;
        }
    }
}

/// Health at zero latches the death flag exactly once: the tick that
/// latches it emits one destroy event, and a second tick at zero health
/// emits none and leaves the flag set.
pub proof fn lemma_destroy_emitted_once(s: Stats, uid: Uid, dt1: int, dt2: int)
    requires
        s.spec_should_die(),
        !s.is_dead,
    ensures
        destroy_events(aged_stats(s, dt1), uid).len() == 1,
        stats_after_update(aged_stats(s, dt1)).is_dead,
        destroy_events(aged_stats(stats_after_update(aged_stats(s, dt1)), dt2), uid).len() == 0,
{
}

/// One level-up per excess threshold multiple, in a single pass: the levels
/// attained are consecutive from the starting level (saturating at the
/// type's ceiling), the final level advanced once per attained level, and
/// the final experience sits strictly below the final threshold.
pub proof fn lemma_level_progress_characterized(current: int, maximum: int, level: int)
    requires
        0 <= current,
        1 <= maximum,
        0 <= level <= u32::MAX,
    ensures
        ({
            let p = level_progress(current, maximum, level);
            &&& p.0 < p.1
            &&& 1 <= p.1
            &&& p.2 == if level + p.3.len() <= u32::MAX {
                level + p.3.len()
            } else {
                u32::MAX as int
            }
            &&& forall|k: int|
                0 <= k < p.3.len() ==> p.3[k] == (if level + 1 + k <= u32::MAX {
                    (level + 1 + k) as u32
                } else {
                    u32::MAX
                })
        }),
    decreases current,
{
    let p = level_progress(current, maximum, level);
    if current >= maximum {
        let new_level = if level < u32::MAX {
            level + 1
        } else {
            level
        };
        lemma_level_progress_characterized(
            current - maximum,
            spec_exp_threshold(new_level),
            new_level,
        );
        let rest = level_progress(current - maximum, spec_exp_threshold(new_level), new_level);
        assert(p.3 == seq![new_level as u32] + rest.3);
        assert forall|k: int| 0 <= k < p.3.len() implies p.3[k] == (if level + 1 + k <= u32::MAX {
            (level + 1 + k) as u32
        } else {
            u32::MAX
        }) by {
            if k == 0 {
                assert(p.3[0] == new_level as u32);
            } else {
                assert(p.3[k] == rest.3[k - 1]);
            }
        }
    }
}

/// While an actor stays passive, the regeneration rate never decreases from
/// tick to tick, and once it reaches the cap it stays there.
pub proof fn lemma_regen_rate_monotone(rate: int, dt1: int, dt2: int)
    requires
        0 <= rate <= REGEN_RATE_CAP_MILLI,
        0 <= dt1,
        0 <= dt2,
    ensures
        rate <= next_regen_rate(rate, dt1),
        next_regen_rate(rate, dt1) <= next_regen_rate(next_regen_rate(rate, dt1), dt2),
        next_regen_rate(rate, dt1) <= REGEN_RATE_CAP_MILLI,
        rate == REGEN_RATE_CAP_MILLI ==> next_regen_rate(rate, dt1) == REGEN_RATE_CAP_MILLI,
{
}

} // verus!
