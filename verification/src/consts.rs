//! World constants for the match simulation.
//!
//! All lengths and velocities are held in a fixed-point representation with
//! `FP_SCALE` subunits per world unit, so that every constant of the game is
//! an exact integer and every tick of the simulation is a pure integer
//! computation: two machines stepping the same snapshot with the same inputs
//! produce bit-identical results.

use vstd::prelude::*;

verus! {

/// Fixed-point subunits per world unit.
pub const FP_SCALE: i64 = 160;

/// Score a player must reach to win the match.
pub const TARGET_SCORE: u32 = 15;

/// Y coordinate of the ground (-244 units).
pub const GROUND_LEVEL: i64 = -39040;

/// Downward acceleration applied each tick (0.39375 units).
pub const GRAVITY: i64 = 63;

/// Horizontal speed of a player at full axis deflection (4.35 units).
pub const MOVE_SPEED: i64 = 696;

/// Upward velocity given to a jumping player (11.25 units).
pub const JUMP_VELOCITY: i64 = 1800;

/// Left edge of the playfield (-530 units).
pub const LEFT_BOUNDARY: i64 = -84800;

/// Right edge of the playfield (510 units).
pub const RIGHT_BOUNDARY: i64 = 81600;

/// X coordinate of the center line.
pub const CENTER_BOUNDARY: i64 = 0;

/// Width of the net (10 units).
pub const NET_WIDTH: i64 = 1600;

/// Height of the net (62 units).
pub const NET_HEIGHT: i64 = 9920;

/// Width of a player's collision box (90 units).
pub const PLAYER_WIDTH: i64 = 14400;

/// Height of a player's collision box (14 units).
pub const PLAYER_HEIGHT: i64 = 2240;

/// Radius of the ball (10 units).
pub const BALL_RADIUS: i64 = 1600;

/// Largest speed the ball may have after a tick (16.875 units).
pub const MAX_BALL_SPEED: i64 = 2700;

/// Y coordinate of the ceiling (290 units).
pub const CEILING: i64 = 46400;

/// Numerator of the bounce factor for surfaces (0.8 = 4/5).
pub const BALL_BOUNCE_NUM: i64 = 4;

/// Denominator of both bounce factors.
pub const BOUNCE_DEN: i64 = 5;

/// Numerator of the bounce factor for players (1.2 = 6/5).
pub const PLAYER_BOUNCE_NUM: i64 = 6;

/// Upward speed of the ball after a score reset (GRAVITY * 30).
pub const BALL_RESET_SPEED: i64 = 1890;

/// Distance of the ball's restart point from the center line (290 units).
pub const BALL_RESET_X: i64 = 46400;

/// Distance of each player's starting point from the center line (290 units).
pub const PLAYER_START_X: i64 = 46400;

/// X coordinate of the net's transform.
pub const NET_START_X: i64 = 0;

/// Y coordinate of the net's transform (-259 units).
pub const NET_START_Y: i64 = -41440;

/// Y coordinate of the floor sprite's transform (-365 units).
pub const FLOOR_START_Y: i64 = -58400;

/// Largest value of one control axis; axes are quantized to 1/63 steps,
/// the precision of the dense wire encoding.
pub const AXIS_MAX: i64 = 63;

/// One world unit of padding used when snapping the ball out of a collision.
pub const SNAP_PAD: i64 = 160;

/// Upper bound on a player's mechanical energy, reached just after a jump:
/// JUMP_VELOCITY * JUMP_VELOCITY + 3 * GRAVITY * JUMP_VELOCITY.
pub const PLAYER_ENERGY_MAX: i64 = 3580200;

} // verus!
