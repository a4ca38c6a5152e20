//! Per-tick entity simulation core: a behavior state machine dispatched over a
//! closed set of character-state variants, a damage-modification pipeline with
//! source-specific ordering rules, and a resource-regeneration pass with
//! accelerating-rate dynamics and level progression.
//!
//! All quantities that the simulation reasons about are plain integers:
//! fractions are parts per thousand, durations are milliseconds, and vector
//! components are fixed-point milliunits. Randomness (the critical-hit roll)
//! enters only through one small unverified draw; everything downstream of the
//! draw is verified for both outcomes.

pub mod actor;
pub mod body;
pub mod character_behavior;
pub mod character_state;
pub mod controller;
pub mod damage;
pub mod energy;
pub mod event;
pub mod item;
pub mod loadout;
pub mod outcome;
pub mod permille;
pub mod phys;
pub mod sim;
pub mod stats;
pub mod stats_sys;
pub mod time;
pub mod uid;
pub mod vec3;
