//! The behavior state machine's closed union of variants.
//!
//! Exactly one variant is active per actor per tick. Stateless variants
//! carry nothing; stateful ones carry only their own progress data
//! (durations in milliseconds, charge, combo stage). The regeneration pass
//! reads states by category membership: passive-regen, ability-consuming,
//! blocking, or regen-frozen.

use vstd::prelude::*;

verus! {

/// Progress of a dodge roll.
#[derive(Clone, Copy, Debug, PartialEq, Eq, Structural)]
pub struct RollData {
    pub remaining_ms: u32,
    pub was_wielded: bool,
}

/// Progress of drawing a weapon.
#[derive(Clone, Copy, Debug, PartialEq, Eq, Structural)]
pub struct EquippingData {
    pub time_left_ms: u32,
}

/// Progress of a basic melee swing.
#[derive(Clone, Copy, Debug, PartialEq, Eq, Structural)]
pub struct BasicMeleeData {
    pub buildup_ms: u32,
    pub recover_ms: u32,
    pub base_healthchange: i64,
    pub exhausted: bool,
}

/// Progress of a basic ranged shot.
#[derive(Clone, Copy, Debug, PartialEq, Eq, Structural)]
pub struct BasicRangedData {
    pub buildup_ms: u32,
    pub recover_ms: u32,
    pub exhausted: bool,
}

/// Progress of casting a fireball, including its charge level.
#[derive(Clone, Copy, Debug, PartialEq, Eq, Structural)]
pub struct CastFireballData {
    pub buildup_ms: u32,
    pub recover_ms: u32,
    pub charge_ms: u32,
}

/// Progress of a movement boost.
#[derive(Clone, Copy, Debug, PartialEq, Eq, Structural)]
pub struct BoostData {
    pub remaining_ms: u32,
    pub only_up: bool,
}

/// Progress of a dashing melee attack.
#[derive(Clone, Copy, Debug, PartialEq, Eq, Structural)]
pub struct DashMeleeData {
    pub buildup_ms: u32,
    pub charge_ms: u32,
    pub recover_ms: u32,
    pub exhausted: bool,
}

/// Progress of the three-hit strike combo.
#[derive(Clone, Copy, Debug, PartialEq, Eq, Structural)]
pub struct TripleStrikeData {
    pub stage: u32,
    pub stage_time_ms: u32,
    pub base_damage: i64,
}

/// Progress of the timed combo.
#[derive(Clone, Copy, Debug, PartialEq, Eq, Structural)]
pub struct TimedComboData {
    pub stage: u32,
    pub timer_ms: u32,
}

/// The closed union of behavior variants.
#[derive(Clone, Copy, Debug, PartialEq, Eq, Structural)]
pub enum CharacterState {
    Idle,
    Climb,
    Sit,
    Dance,
    Sneak,
    Glide,
    GlideWield,
    Wielding,
    BasicBlock,
    Roll(RollData),
    Equipping(EquippingData),
    BasicMelee(BasicMeleeData),
    BasicRanged(BasicRangedData),
    CastFireball(CastFireballData),
    Boost(BoostData),
    DashMelee(DashMeleeData),
    TripleStrike(TripleStrikeData),
    TimedCombo(TimedComboData),
    LeapMelee,
    SpinMelee,
    ComboMelee,
    ChargedMelee,
    ChargedRanged,
    RepeaterRanged,
    Shockwave,
    BasicBeam,
}

/// Passive-regen states: energy recharges, with the rate accelerating.
pub open spec fn is_passive_regen_state(s: CharacterState) -> bool {
    match s {
        CharacterState::Idle
        | CharacterState::Sit
        | CharacterState::Dance
        | CharacterState::Sneak
        | CharacterState::Glide
        | CharacterState::GlideWield
        | CharacterState::Wielding
        | CharacterState::Equipping(_)
        | CharacterState::Boost(_) => true,
        _ => false,
    }
}

/// Ability-consuming states: no energy is gained and the accumulated
/// regeneration rate resets to zero.
pub open spec fn is_ability_state(s: CharacterState) -> bool {
    match s {
        CharacterState::BasicMelee(_)
        | CharacterState::DashMelee(_)
        | CharacterState::TripleStrike(_)
        | CharacterState::TimedCombo(_)
        | CharacterState::CastFireball(_)
        | CharacterState::BasicRanged(_)
        | CharacterState::LeapMelee
        | CharacterState::SpinMelee
        | CharacterState::ComboMelee
        | CharacterState::ChargedMelee
        | CharacterState::ChargedRanged
        | CharacterState::RepeaterRanged
        | CharacterState::Shockwave
        | CharacterState::BasicBeam => true,
        _ => false,
    }
}

/// The block state pays a fixed energy upkeep.
pub open spec fn is_block_state(s: CharacterState) -> bool {
    s is BasicBlock
}

/// Roll and climb freeze regeneration: nothing gained, nothing reset, the
/// accumulated rate preserved for the next passive state.
pub open spec fn is_regen_frozen_state(s: CharacterState) -> bool {
    s is Roll || s is Climb
}

/// The four regeneration categories partition the state set: every variant
/// falls in exactly one.
pub proof fn lemma_regen_categories_partition(s: CharacterState)
    ensures
        is_passive_regen_state(s) || is_ability_state(s) || is_block_state(s)
            || is_regen_frozen_state(s),
        !(is_passive_regen_state(s) && is_ability_state(s)),
        !(is_passive_regen_state(s) && is_block_state(s)),
        !(is_passive_regen_state(s) && is_regen_frozen_state(s)),
        !(is_ability_state(s) && is_block_state(s)),
        !(is_ability_state(s) && is_regen_frozen_state(s)),
        !(is_block_state(s) && is_regen_frozen_state(s)),
{
}

/// Marker put on an actor while its current attack can still land.
#[derive(Clone, Copy, Debug, PartialEq, Eq, Structural)]
pub struct Attacking {
    pub base_healthchange: i64,
    pub applied: bool,
    pub hit_count: u32,
}

} // verus!
