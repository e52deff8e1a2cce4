//! Core logic of a single-enemy, turn-based combat encounter.
//!
//! The library owns the rules of an encounter: combatant stats and the damage
//! formula, the combat menu, the phase state machine that sequences player and
//! enemy turns, the single-slot intent mailbox, the experience reward table,
//! and the millisecond timer that paces attack animations. Presentation
//! (rendering, input sampling, audio) stays outside; it drives these functions
//! with plain values and applies the decisions they return.

pub mod effects;
pub mod enemy;
pub mod events;
pub mod menu;
pub mod phase;
pub mod reward;
pub mod stats;
pub mod turns;
