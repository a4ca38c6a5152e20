//! Health, experience and level: the stats component.
//!
//! Current health never exceeds its maximum; the death flag is set exactly
//! once, when health reaches zero, and only a respawn from outside clears it.
//! Experience rolls over into levels against a threshold that never
//! decreases with level.

use vstd::prelude::*;
use crate::body::{max_hp, spec_max_hp, Body};
use crate::permille::clamped;
use crate::uid::Uid;

verus! {

/// What caused a health change; a destroy event carries the recorded cause.
#[derive(Clone, Copy, Debug, PartialEq, Eq, Structural)]
pub enum HealthSource {
    Attack { by: Uid },
    Suicide,
    World,
    Revive,
    Command,
    LevelUp,
    Item,
    Healing,
    Unknown,
}

/// A recorded health change: the delta that was applied and its cause.
#[derive(Clone, Copy, Debug, PartialEq, Eq, Structural)]
pub struct HealthChange {
    pub amount: i64,
    pub cause: HealthSource,
}

/// Largest single health change accepted in one call.
pub const HEALTH_CHANGE_LIMIT: i64 = 1_000_000_000_000;

/// Clamping into `[0, u64::MAX]`: how the experience pool saturates.
pub open spec fn clamped_u64(x: int) -> int {
    if x < 0 {
        0
    } else if x > u64::MAX {
        u64::MAX as int
    } else {
        x
    }
}

/// An actor's health pool, with the time since its last change (in
/// milliseconds) and the change itself.
#[derive(Clone, Copy, Debug, PartialEq, Eq, Structural)]
pub struct Health {
    pub current: u32,
    pub maximum: u32,
    pub last_change_time_ms: u64,
    pub last_change: HealthChange,
}

impl Health {
    /// Current health never exceeds the maximum.
    pub open spec fn wf(&self) -> bool {
        self.current <= self.maximum
    }

    /// The pool after one tick has passed with no change, the age saturating
    /// rather than wrapping.
    pub open spec fn spec_aged(&self, dt_ms: int) -> Health {
        let t = self.last_change_time_ms + dt_ms;
        Health {
            last_change_time_ms: if t > u64::MAX {
                u64::MAX
            } else {
                t as u64
            },
            ..*self
        }
    }

    /// A full, untouched pool.
    pub fn new(maximum: u32) -> (h: Health)
        ensures
            h == (Health {
                current: maximum,
                maximum,
                last_change_time_ms: 0u64,
                last_change: HealthChange { amount: 0i64, cause: HealthSource::Unknown },
            }),
    {
        Health {
            current: maximum,
            maximum,
            last_change_time_ms: 0,
            last_change: HealthChange { amount: 0, cause: HealthSource::Unknown },
        }
    }

    /// The pool set straight to `amount` (clamped to the maximum), recording
    /// the delta that this amounts to and its cause.
    pub open spec fn spec_set_to(&self, amount: u32, cause: HealthSource) -> Health {
        let target: u32 = if amount <= self.maximum {
            amount
        } else {
            self.maximum
        };
        Health {
            current: target,
            maximum: self.maximum,
            last_change_time_ms: 0,
            last_change: HealthChange { amount: (target - self.current) as i64, cause },
        }
    }

    pub fn set_to(&mut self, amount: u32, cause: HealthSource)
        ensures
            *final(self) == old(self).spec_set_to(amount, cause),
            final(self).wf(),
    {
        let target: u32 = if amount <= self.maximum {
            amount
        } else {
            self.maximum
        };
        let delta: i64 = target as i64 - self.current as i64;
        *self = Health {
            current: target,
            maximum: self.maximum,
            last_change_time_ms: 0,
            last_change: HealthChange { amount: delta, cause },
        };
    }

    /// Shifts the pool by the change's delta, clamped into `[0, maximum]`,
    /// and records the change.
    pub fn change_by(&mut self, change: HealthChange)
        requires
            -HEALTH_CHANGE_LIMIT <= change.amount <= HEALTH_CHANGE_LIMIT,
            old(self).wf(),
        ensures
            final(self).maximum == old(self).maximum,
            final(self).current == clamped(
                old(self).current + change.amount,
                old(self).maximum as int,
            ),
            final(self).last_change_time_ms == 0,
            final(self).last_change == change,
            final(self).wf(),
    {
        let shifted: i64 = self.current as i64 + change.amount;
        let new_current: u32 = if shifted < 0 {
            0
        } else if shifted > self.maximum as i64 {
            self.maximum
        } else {
            shifted as u32
        };
        *self = Health {
            current: new_current,
            maximum: self.maximum,
            last_change_time_ms: 0,
            last_change: change,
        };
    }

    /// Raises or lowers the maximum; current health is clamped under the new
    /// ceiling, never raised by this alone.
    pub fn set_maximum(&mut self, amount: u32)
        ensures
            final(self).maximum == amount,
            final(self).current == if old(self).current <= amount {
                old(self).current
            } else {
                amount
            },
            final(self).last_change_time_ms == old(self).last_change_time_ms,
            final(self).last_change == old(self).last_change,
            final(self).wf(),
    {
        let new_current: u32 = if self.current <= amount {
            self.current
        } else {
            amount
        };
        *self = Health { current: new_current, maximum: amount, ..*self };
    }

    /// Advances the age of the last change by one tick, saturating.
    pub fn age(&mut self, dt_ms: u32)
        ensures
            *final(self) == old(self).spec_aged(dt_ms as int),
    {
        let t = self.last_change_time_ms;
        self.last_change_time_ms = if t > u64::MAX - dt_ms as u64 {
            u64::MAX
        } else {
            t + dt_ms as u64
        };
    }
}

/// Base of the experience threshold, in experience points.
pub const EXP_THRESHOLD_BASE: u64 = 40;

/// Additional threshold per level already attained.
pub const EXP_PER_LEVEL: u64 = 20;

/// Experience needed to clear the given level: non-decreasing in the level,
/// so the level-up loop always terminates.
pub open spec fn spec_exp_threshold(level: int) -> int {
    EXP_THRESHOLD_BASE + EXP_PER_LEVEL * level
}

pub fn exp_threshold(level: u32) -> (t: u64)
    ensures
        t == spec_exp_threshold(level as int),
{
    EXP_THRESHOLD_BASE + EXP_PER_LEVEL * (level as u64)
}

/// An actor's experience pool: earned points and the current level threshold.
#[derive(Clone, Copy, Debug, PartialEq, Eq, Structural)]
pub struct Exp {
    pub current: u64,
    pub maximum: u64,
}

impl Exp {
    /// Shifts earned experience, saturating at both ends of `u64`.
    pub fn change_by(&mut self, amount: i64)
        requires
            amount > i64::MIN,
        ensures
            final(self).maximum == old(self).maximum,
            final(self).current == clamped_u64(old(self).current + amount),
    {
        if amount >= 0 {
            let a = amount as u64;
            self.current = if self.current > u64::MAX - a {
                u64::MAX
            } else {
                self.current + a
            };
        } else {
            let s = (-amount) as u64;
            self.current = if s > self.current {
                0
            } else {
                self.current - s
            };
        }
    }

    /// Recomputes the threshold from the level just attained.
    pub fn update_maximum(&mut self, level: u32)
        ensures
            final(self).current == old(self).current,
            final(self).maximum == spec_exp_threshold(level as int),
    {
        self.maximum = exp_threshold(level);
    }
}

/// The stats component: body archetype, health, level and experience, and
/// the death flag.
#[derive(Clone, Copy, Debug, PartialEq, Eq, Structural)]
pub struct Stats {
    pub body_type: Body,
    pub health: Health,
    pub level: u32,
    pub exp: Exp,
    pub is_dead: bool,
}

impl Stats {
    /// Health within bounds, at least level one, and the stored threshold in
    /// step with the level.
    pub open spec fn wf(&self) -> bool {
        &&& self.health.wf()
        &&& self.level >= 1
        &&& self.exp.maximum == spec_exp_threshold(self.level as int)
    }

    /// A fresh level-one actor of the given archetype, at full health.
    pub fn new(body: Body) -> (s: Stats)
        ensures
            s.wf(),
            s.body_type == body,
            s.level == 1,
            s.exp.current == 0,
            s.exp.maximum == spec_exp_threshold(1),
            s.health.maximum == spec_max_hp(body, 1),
            s.health.current == s.health.maximum,
            !s.is_dead,
    {
        let maximum = max_hp(body, 1);
        Stats {
            body_type: body,
            health: Health::new(maximum),
            level: 1,
            exp: Exp { current: 0, maximum: exp_threshold(1) },
            is_dead: false,
        }
    }

    /// Death is health at exactly zero.
    pub open spec fn spec_should_die(&self) -> bool {
        self.health.current == 0
    }

    #[verifier::when_used_as_spec(spec_should_die)]
    pub fn should_die(&self) -> (r: bool)
        ensures
            r == self.spec_should_die(),
    {
        self.health.current == 0
    }

    /// Recomputes maximum health from an archetype at the current level;
    /// current health is clamped under the new ceiling.
    pub fn update_max_hp(&mut self, body: Body)
        requires
            old(self).level >= 1,
        ensures
            final(self).health.maximum == spec_max_hp(body, old(self).level as int),
            final(self).health.current == if old(self).health.current
                <= final(self).health.maximum {
                old(self).health.current
            } else {
                final(self).health.maximum
            },
            final(self).health.last_change_time_ms == old(self).health.last_change_time_ms,
            final(self).health.last_change == old(self).health.last_change,
            final(self).body_type == old(self).body_type,
            final(self).level == old(self).level,
            final(self).exp == old(self).exp,
            final(self).is_dead == old(self).is_dead,
    {
        let maximum = max_hp(body, self.level);
        self.health.set_maximum(maximum);
    }
}

} // verus!
