use sim_core::character_state::{BasicMeleeData, CharacterState, RollData};
use sim_core::energy::{Energy, EnergySource};
use sim_core::stats_sys::energy_tick;
use sim_core::time::DeltaTime;

fn drained(maximum: u32, down_by: i64) -> Energy {
    let mut e = Energy::new(maximum);
    e.change_by(-down_by, EnergySource::Ability);
    e
}

#[test]
fn change_by_clamps_at_both_ends() {
    let mut e = Energy::new(100);
    assert_eq!(e.last_change(), None);
    e.change_by(-1_000, EnergySource::Ability);
    assert_eq!(e.current(), 0);
    assert_eq!(e.last_change(), Some((-1_000, EnergySource::Ability)));
    e.change_by(1_000_000, EnergySource::Revive);
    assert_eq!(e.current(), 100);
    assert_eq!(e.maximum(), 100);
    assert_eq!(e.last_change(), Some((1_000_000, EnergySource::Revive)));
}

#[test]
fn passive_regen_accelerates_from_cold() {
    // One-second ticks: the trapezoidal gain at rate 0 is 5 points, and the
    // rate climbs by 10 points per second each tick.
    let mut e = drained(1000, 900);
    energy_tick(&CharacterState::Idle, &mut e, DeltaTime(1000));
    assert_eq!(e.current(), 105);
    assert_eq!(e.regen_rate(), 10_000);
    assert_eq!(e.last_change(), Some((5, EnergySource::Regen)));
    energy_tick(&CharacterState::Idle, &mut e, DeltaTime(1000));
    assert_eq!(e.current(), 120);
    assert_eq!(e.regen_rate(), 20_000);
    energy_tick(&CharacterState::Wielding, &mut e, DeltaTime(1000));
    assert_eq!(e.current(), 145);
    assert_eq!(e.regen_rate(), 30_000);
}

#[test]
fn regen_rate_is_monotone_until_the_cap() {
    let mut e = drained(1_000_000, 999_999);
    let mut last = e.regen_rate();
    for _ in 0..20 {
        energy_tick(&CharacterState::Sit, &mut e, DeltaTime(1000));
        assert!(e.regen_rate() >= last);
        last = e.regen_rate();
    }
    // 20 seconds of acceleration saturate the rate at 100 points/second.
    assert_eq!(e.regen_rate(), 100_000);
    energy_tick(&CharacterState::Sit, &mut e, DeltaTime(1000));
    assert_eq!(e.regen_rate(), 100_000);
}

#[test]
fn full_pool_neither_gains_nor_accelerates() {
    let mut e = Energy::new(100);
    energy_tick(&CharacterState::Idle, &mut e, DeltaTime(1000));
    assert_eq!(e.current(), 100);
    assert_eq!(e.regen_rate(), 0);
}

#[test]
fn ability_state_resets_rate_within_one_tick() {
    // Build the rate all the way to the cap first.
    let mut e = drained(1_000_000, 999_999);
    for _ in 0..20 {
        energy_tick(&CharacterState::Idle, &mut e, DeltaTime(1000));
    }
    assert_eq!(e.regen_rate(), 100_000);
    let swing = CharacterState::BasicMelee(BasicMeleeData {
        buildup_ms: 100,
        recover_ms: 200,
        base_healthchange: -500,
        exhausted: false,
    });
    let before = e.current();
    energy_tick(&swing, &mut e, DeltaTime(33));
    assert_eq!(e.regen_rate(), 0);
    assert_eq!(e.current(), before);
}

#[test]
fn blocking_drains_fixed_upkeep() {
    let mut e = drained(100, 10);
    energy_tick(&CharacterState::BasicBlock, &mut e, DeltaTime(33));
    assert_eq!(e.current(), 87);
    energy_tick(&CharacterState::BasicBlock, &mut e, DeltaTime(33));
    assert_eq!(e.current(), 84);
}

#[test]
fn blocking_at_full_charge_costs_nothing() {
    let mut e = Energy::new(100);
    energy_tick(&CharacterState::BasicBlock, &mut e, DeltaTime(33));
    assert_eq!(e.current(), 100);
}

#[test]
fn roll_and_climb_freeze_regeneration() {
    let mut e = drained(1000, 900);
    energy_tick(&CharacterState::Idle, &mut e, DeltaTime(1000));
    let rate = e.regen_rate();
    let charge = e.current();
    assert!(rate > 0);
    let roll = CharacterState::Roll(RollData { remaining_ms: 500, was_wielded: false });
    energy_tick(&roll, &mut e, DeltaTime(1000));
    assert_eq!(e.regen_rate(), rate);
    assert_eq!(e.current(), charge);
    energy_tick(&CharacterState::Climb, &mut e, DeltaTime(1000));
    assert_eq!(e.regen_rate(), rate);
    assert_eq!(e.current(), charge);
}
