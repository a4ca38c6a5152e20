//! The energy pool: bounded charge plus an accelerating regeneration rate.

use vstd::prelude::*;
use crate::permille::clamped;

verus! {

/// Why an energy pool last changed.
#[derive(Clone, Copy, Debug, PartialEq, Eq, Structural)]
pub enum EnergySource {
    Ability,
    Regen,
    Revive,
    Unknown,
}

/// Ceiling of the regeneration rate: 100 points per second, in milli-points
/// per second.
pub const REGEN_RATE_CAP_MILLI: u32 = 100_000;

/// Largest single change an energy pool accepts in one call.
pub const ENERGY_CHANGE_LIMIT: i64 = 1_000_000_000_000;

/// An actor's energy pool: current and maximum charge, the accelerating
/// regeneration rate (milli-points per second, never above the cap), and the
/// last recorded change. Charge stays within `[0, maximum]`; every mutation
/// clamps.
#[derive(Clone, Copy, Debug)]
pub struct Energy {
    current: u32,
    maximum: u32,
    regen_rate: u32,
    last_change: Option<(i64, EnergySource)>,
}

impl Energy {
    #[verifier::type_invariant]
    spec fn wf(self) -> bool {
        self.current <= self.maximum && self.regen_rate <= REGEN_RATE_CAP_MILLI
    }

    pub closed spec fn spec_current(&self) -> u32 {
        self.current
    }

    pub closed spec fn spec_maximum(&self) -> u32 {
        self.maximum
    }

    pub closed spec fn spec_regen_rate(&self) -> u32 {
        self.regen_rate
    }

    pub closed spec fn spec_last_change(&self) -> Option<(i64, EnergySource)> {
        self.last_change
    }

    /// A fresh pool, full at `amount`, with regeneration starting cold.
    pub fn new(amount: u32) -> (e: Energy)
        ensures
            e.spec_current() == amount,
            e.spec_maximum() == amount,
            e.spec_regen_rate() == 0,
            e.spec_last_change() is None,
    {
        Energy { current: amount, maximum: amount, regen_rate: 0, last_change: None }
    }

    #[verifier::when_used_as_spec(spec_current)]
    pub fn current(&self) -> (r: u32)
        ensures
            r == self.spec_current(),
            r <= self.spec_maximum(),
    {
        proof {
            use_type_invariant(&*self);
        }
        self.current
    }

    #[verifier::when_used_as_spec(spec_maximum)]
    pub fn maximum(&self) -> (r: u32)
        ensures
            r == self.spec_maximum(),
    {
        self.maximum
    }

    #[verifier::when_used_as_spec(spec_regen_rate)]
    pub fn regen_rate(&self) -> (r: u32)
        ensures
            r == self.spec_regen_rate(),
            r <= REGEN_RATE_CAP_MILLI,
    {
        proof {
            use_type_invariant(&*self);
        }
        self.regen_rate
    }

    #[verifier::when_used_as_spec(spec_last_change)]
    pub fn last_change(&self) -> (r: Option<(i64, EnergySource)>)
        ensures
            r == self.spec_last_change(),
    {
        self.last_change
    }

    /// Shifts the charge by `amount`, clamped into `[0, maximum]`, recording
    /// the attempted change and its source.
    pub fn change_by(&mut self, amount: i64, source: EnergySource)
        requires
            -ENERGY_CHANGE_LIMIT <= amount <= ENERGY_CHANGE_LIMIT,
        ensures
            final(self).spec_maximum() == old(self).spec_maximum(),
            final(self).spec_regen_rate() == old(self).spec_regen_rate(),
            final(self).spec_current() == clamped(
                old(self).spec_current() + amount,
                old(self).spec_maximum() as int,
            ),
            final(self).spec_last_change() == Some((amount, source)),
    {
        proof {
            use_type_invariant(&*self);
        }
        let shifted: i64 = self.current as i64 + amount;
        let new_current: u32 = if shifted < 0 {
            0
        } else if shifted > self.maximum as i64 {
            self.maximum
        } else {
            shifted as u32
        };
        *self = Energy { current: new_current, last_change: Some((amount, source)), ..*self };
    }

    /// Sets the regeneration rate, clamped to the cap; the pool's charge is
    /// untouched.
    pub fn set_regen_rate(&mut self, rate: u32)
        ensures
            final(self).spec_current() == old(self).spec_current(),
            final(self).spec_maximum() == old(self).spec_maximum(),
            final(self).spec_last_change() == old(self).spec_last_change(),
            final(self).spec_regen_rate() == if rate <= REGEN_RATE_CAP_MILLI {
                rate
            } else {
                REGEN_RATE_CAP_MILLI
            },
    {
        proof {
            use_type_invariant(&*self);
        }
        let clamped_rate: u32 = if rate <= REGEN_RATE_CAP_MILLI {
            rate
        } else {
            REGEN_RATE_CAP_MILLI
        };
        *self = Energy { regen_rate: clamped_rate, ..*self };
    }
}

} // verus!
