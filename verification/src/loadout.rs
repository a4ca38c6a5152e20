//! The equipment set, seen by the combat pipeline only through one derived
//! scalar: the wearer's damage-reduction fraction.

use vstd::prelude::*;
use crate::permille::PERMILLE;

verus! {

/// An actor's equipped gear. The damage resolver reads a single number from
/// it: the fraction of incoming damage the armor absorbs, in parts per
/// thousand, where `PERMILLE` (1000) means full immunity.
#[derive(Clone, Copy, Debug)]
pub struct Loadout {
    damage_reduction: u32,
}

impl Loadout {
    #[verifier::type_invariant]
    spec fn wf(self) -> bool {
        self.damage_reduction <= PERMILLE
    }

    /// The damage-reduction fraction, in parts per thousand.
    pub closed spec fn damage_reduction_permille(self) -> u32 {
        self.damage_reduction
    }

    /// Builds a loadout whose armor absorbs `permille` thousandths of
    /// incoming damage; values above one whole are clamped to full immunity.
    pub fn new(permille: u32) -> (l: Loadout)
        ensures
            l.damage_reduction_permille() == if permille <= PERMILLE {
                permille
            } else {
                PERMILLE
            },
    {
        let dr: u32 = if permille <= PERMILLE {
            permille
        } else {
            PERMILLE
        };
        Loadout { damage_reduction: dr }
    }

    /// The derived armor scalar consumed by the damage resolver.
    pub fn get_damage_reduction(&self) -> (dr: u32)
        ensures
            dr == self.damage_reduction_permille(),
            dr <= PERMILLE,
    {
        proof {
            use_type_invariant(&*self);
        }
        self.damage_reduction
    }
}

} // verus!
