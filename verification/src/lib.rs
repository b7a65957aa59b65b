//! Deterministic two-player arcade volleyball simulation.
//!
//! The crate holds the per-tick state transition of a rollback-capable
//! volleyball match: ball and player physics, collision resolution against
//! the net, the boundaries and the players, score and win tracking, and the
//! dense wire encoding of player input. All of it is pure integer
//! arithmetic over an explicit world-state value, so that replaying the
//! same snapshot with the same inputs gives bit-identical results on every
//! machine.

pub mod ball;
pub mod consts;
pub mod input;
pub mod match_state;
pub mod math;
pub mod menu;
pub mod networking;
pub mod player;
pub mod step;
pub mod world;
