//! The damage resolver: turns a raw health delta into a final one, given the
//! damage source, whether the target blocked, and the target's armor.
//!
//! Ordering rules differ by source. A melee critical reserves a 30% bonus of
//! the raw delta and adds it back after armor reduction (unless the target is
//! fully immune); a projectile critical scales the whole delta by 1.2 before
//! block and armor; explosions see block and armor; shockwave and energy see
//! armor only; healing and falling pass through untouched.

use vstd::prelude::*;
use vstd::math::abs;
use crate::loadout::Loadout;
use crate::permille::{apply_permille, scale_permille, DELTA_LIMIT, PERMILLE};

verus! {

/// Fraction of a blocked hit the block absorbs, in parts per thousand.
pub const BLOCK_EFFICIENCY_PERMILLE: u32 = 900;

/// Bonus a melee critical reserves, as a fraction of the raw delta.
pub const MELEE_CRIT_BONUS_PERMILLE: u32 = 300;

/// Multiplier a projectile critical applies to the whole delta.
pub const PROJECTILE_CRIT_PERMILLE: u32 = 1200;

/// Where a raw damage event came from; decides which modifiers apply.
#[derive(Clone, Copy, Debug, PartialEq, Eq, Hash, Structural)]
pub enum DamageSource {
    Melee,
    Healing,
    Projectile,
    Explosion,
    Falling,
    Shockwave,
    Energy,
}

/// A raw damage event: a health delta in milli-points (negative for harm,
/// positive for healing) plus its source kind. Consumed once by the
/// resolver, never stored.
#[derive(Clone, Copy, Debug)]
pub struct Damage {
    pub healthchange: i64,
    pub source: DamageSource,
}

/// The resolved health delta for a raw delta `hc`, a source kind, a block
/// flag, a critical flag, and a damage-reduction fraction `dr` (parts per
/// thousand, 1000 = full immunity).
pub open spec fn modified_damage(
    hc: int,
    source: DamageSource,
    block: bool,
    crit: bool,
    dr: int,
) -> int {
    match source {
        DamageSource::Melee => {
            let bonus = if crit {
                scale_permille(hc, MELEE_CRIT_BONUS_PERMILLE as int)
            } else {
                0
            };
            let after_block = if block {
                scale_permille(hc, PERMILLE - BLOCK_EFFICIENCY_PERMILLE)
            } else {
                hc
            };
            let after_armor = scale_permille(after_block, PERMILLE - dr);
            if dr == PERMILLE {
                after_armor
            } else {
                after_armor + bonus
            }
        },
        DamageSource::Projectile => {
            let after_crit = if crit {
                scale_permille(hc, PROJECTILE_CRIT_PERMILLE as int)
            } else {
                hc
            };
            let after_block = if block {
                scale_permille(after_crit, PERMILLE - BLOCK_EFFICIENCY_PERMILLE)
            } else {
                after_crit
            };
            scale_permille(after_block, PERMILLE - dr)
        },
        DamageSource::Explosion => {
            let after_block = if block {
                scale_permille(hc, PERMILLE - BLOCK_EFFICIENCY_PERMILLE)
            } else {
                hc
            };
            scale_permille(after_block, PERMILLE - dr)
        },
        DamageSource::Shockwave | DamageSource::Energy => scale_permille(hc, PERMILLE - dr),
        DamageSource::Healing | DamageSource::Falling => hc,
    }
}

/// Relies on `rand::random`: one fresh draw of a uniformly random boolean.
/// Nothing is promised of the outcome; every caller is verified for both.
#[verifier::external_body]
fn roll_crit() -> bool {
    rand::random()
}

impl Damage {
    /// Applies the source's modifiers with the critical flag supplied by the
    /// caller, making the pipeline deterministic and reproducible.
    pub fn modify_damage_with_crit(&mut self, block: bool, crit: bool, loadout: &Loadout)
        requires
            -DELTA_LIMIT <= old(self).healthchange <= DELTA_LIMIT,
        ensures
            final(self).source == old(self).source,
            final(self).healthchange == modified_damage(
                old(self).healthchange as int,
                old(self).source,
                block,
                crit,
                loadout.damage_reduction_permille() as int,
            ),
            -4 * DELTA_LIMIT <= final(self).healthchange <= 4 * DELTA_LIMIT,
    {
        let dr: u32 = loadout.get_damage_reduction();
        match self.source {
            DamageSource::Melee => {
                let bonus: i64 = if crit {
                    apply_permille(self.healthchange, MELEE_CRIT_BONUS_PERMILLE)
                } else {
                    0
                };
                if block {
                    self.healthchange = apply_permille(
                        self.healthchange,
                        PERMILLE - BLOCK_EFFICIENCY_PERMILLE,
                    );
                }
                self.healthchange = apply_permille(self.healthchange, PERMILLE - dr);
                if dr != PERMILLE {
                    self.healthchange = self.healthchange + bonus;
                }
            },
            DamageSource::Projectile => {
                if crit {
                    self.healthchange = apply_permille(
                        self.healthchange,
                        PROJECTILE_CRIT_PERMILLE,
                    );
                }
                if block {
                    self.healthchange = apply_permille(
                        self.healthchange,
                        PERMILLE - BLOCK_EFFICIENCY_PERMILLE,
                    );
                }
                self.healthchange = apply_permille(self.healthchange, PERMILLE - dr);
            },
            DamageSource::Explosion => {
                if block {
                    self.healthchange = apply_permille(
                        self.healthchange,
                        PERMILLE - BLOCK_EFFICIENCY_PERMILLE,
                    );
                }
                self.healthchange = apply_permille(self.healthchange, PERMILLE - dr);
            },
            DamageSource::Shockwave | DamageSource::Energy => {
                self.healthchange = apply_permille(self.healthchange, PERMILLE - dr);
            },
            DamageSource::Healing | DamageSource::Falling => {},
        }
    }

    /// Resolves a raw damage event, drawing the critical flag at random: the
    /// result is the resolved delta for one of the two flag values, and under
    /// full immunity it is zero whichever way the coin fell (healing and
    /// falling bypass reduction entirely).
    pub fn modify_damage(&mut self, block: bool, loadout: &Loadout)
        requires
            -DELTA_LIMIT <= old(self).healthchange <= DELTA_LIMIT,
        ensures
            final(self).source == old(self).source,
            final(self).healthchange == modified_damage(
                old(self).healthchange as int,
                old(self).source,
                block,
                true,
                loadout.damage_reduction_permille() as int,
            ) || final(self).healthchange == modified_damage(
                old(self).healthchange as int,
                old(self).source,
                block,
                false,
                loadout.damage_reduction_permille() as int,
            ),
            loadout.damage_reduction_permille() == PERMILLE && old(self).source
                != DamageSource::Healing && old(self).source != DamageSource::Falling
                ==> final(self).healthchange == 0,
    {
        let crit = roll_crit();
        self.modify_damage_with_crit(block, crit, loadout);
        proof {
            if loadout.damage_reduction_permille() == PERMILLE && self.source
                != DamageSource::Healing && self.source != DamageSource::Falling {
                lemma_full_immunity(old(self).healthchange as int, self.source, block, crit);
            }
        }
    }
}

/// A blocked, unarmored melee hit that does not land critically keeps at most
/// a tenth of its raw magnitude: the block absorbs nine tenths.
pub proof fn lemma_melee_block_caps_damage(hc: int)
    ensures
        10 * abs(modified_damage(hc, DamageSource::Melee, true, false, 0)) <= abs(hc),
{
    let m: int = if hc >= 0 { hc } else { -hc };
    let q = (m * 100) / 1000;
    assert(1000 * q <= m * 100 && 0 <= q) by (nonlinear_arith)
        requires q == (m * 100) / 1000, m >= 0;
    let q2 = (q * 1000) / 1000;
    assert(q2 == q) by (nonlinear_arith)
        requires q2 == (q * 1000) / 1000, q >= 0;
}

/// Full immunity: with damage reduction at one whole, the resolved delta is
/// zero for every source that armor applies to, whatever the block and
/// critical flags; healing and falling are the stated exceptions.
pub proof fn lemma_full_immunity(hc: int, source: DamageSource, block: bool, crit: bool)
    requires
        source != DamageSource::Healing,
        source != DamageSource::Falling,
    ensures
        modified_damage(hc, source, block, crit, PERMILLE as int) == 0,
{
    assert forall|y: int| #[trigger] scale_permille(y, 0) == 0 by {
        let m: int = if y >= 0 { y } else { -y };
        assert(m * 0 == 0);
        assert((0int) / 1000 == 0);
    }
}

/// A melee critical's bonus lands after armor reduction: against any target
/// short of full immunity, forcing the critical flag adds exactly the
/// reserved 30% of the raw delta to the non-critical result.
pub proof fn lemma_melee_crit_after_armor(hc: int, block: bool, dr: int)
    requires
        dr != PERMILLE,
    ensures
        modified_damage(hc, DamageSource::Melee, block, true, dr) == modified_damage(
            hc,
            DamageSource::Melee,
            block,
            false,
            dr,
        ) + scale_permille(hc, MELEE_CRIT_BONUS_PERMILLE as int),
{
}

/// A projectile critical's multiplier lands before armor: forcing the
/// critical flag gives the same result as resolving a raw delta already
/// scaled by 1.2 without the flag, so block and armor shrink the bonus too.
pub proof fn lemma_projectile_crit_before_armor(hc: int, block: bool, dr: int)
    ensures
        modified_damage(hc, DamageSource::Projectile, block, true, dr) == modified_damage(
            scale_permille(hc, PROJECTILE_CRIT_PERMILLE as int),
            DamageSource::Projectile,
            block,
            false,
            dr,
        ),
{
}

} // verus!
