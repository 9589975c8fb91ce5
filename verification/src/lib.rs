//! Encounter and combat resolution engine for a dice-driven tabletop game.
//!
//! The library owns the in-memory encounter state: a roster of combatants,
//! the current-turn pointer and the most recently rolled dice expression.
//! Dice notation is parsed and validated here; the randomized totals come
//! from the `rouler` crate behind a trusted wrapper.

pub mod ability;
pub mod attack;
pub mod checks;
pub mod dice;
pub mod encounter;
pub mod errors;
pub mod import;
pub mod initiative;
pub mod items;
pub mod models;
pub mod render;
pub mod schedule;
pub mod stats;
pub mod text;
pub mod wounds;
