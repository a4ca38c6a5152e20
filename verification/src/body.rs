//! Body archetypes and the body-to-health mapping.

use vstd::prelude::*;

verus! {

/// Extra maximum health an actor gains per level beyond the first.
pub const HP_PER_LEVEL: u32 = 10;

/// An actor's body archetype; decides its base maximum health.
#[derive(Clone, Copy, Debug, PartialEq, Eq, Structural, Hash)]
pub enum Body {
    Humanoid,
    QuadrupedSmall,
    QuadrupedMedium,
    BirdSmall,
    BirdMedium,
    FishSmall,
    FishMedium,
    BipedLarge,
    Dragon,
    Object,
}

/// Base maximum health of each archetype at level one, in health points.
pub open spec fn spec_base_health(body: Body) -> u32 {
    match body {
        Body::Humanoid => 520,
        Body::QuadrupedSmall => 440,
        Body::QuadrupedMedium => 720,
        Body::BirdSmall => 240,
        Body::BirdMedium => 360,
        Body::FishSmall => 200,
        Body::FishMedium => 320,
        Body::BipedLarge => 1440,
        Body::Dragon => 2560,
        Body::Object => 1000,
    }
}

/// Maximum health for an archetype at a level: the base plus a fixed bonus
/// per level beyond the first, saturating at the pool's capacity.
pub open spec fn spec_max_hp(body: Body, level: int) -> int {
    let raw = spec_base_health(body) + HP_PER_LEVEL * (level - 1);
    if raw > u32::MAX {
        u32::MAX as int
    } else {
        raw
    }
}

#[verifier::when_used_as_spec(spec_base_health)]
pub fn base_health(body: Body) -> (hp: u32)
    ensures
        hp == spec_base_health(body),
{
    match body {
        Body::Humanoid => 520,
        Body::QuadrupedSmall => 440,
        Body::QuadrupedMedium => 720,
        Body::BirdSmall => 240,
        Body::BirdMedium => 360,
        Body::FishSmall => 200,
        Body::FishMedium => 320,
        Body::BipedLarge => 1440,
        Body::Dragon => 2560,
        Body::Object => 1000,
    }
}

/// Recomputes the maximum health granted by a body archetype at a level.
pub fn max_hp(body: Body, level: u32) -> (hp: u32)
    requires
        level >= 1,
    ensures
        hp == spec_max_hp(body, level as int),
{
    let base: u64 = base_health(body) as u64;
    let raw: u64 = base + (HP_PER_LEVEL as u64) * ((level - 1) as u64);
    if raw > u32::MAX as u64 {
        u32::MAX
    } else {
        raw as u32
    }
}

} // verus!
