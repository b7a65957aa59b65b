//! The explicit world state of a match: ball, players, net and floor with
//! their transforms, plus the match score. The whole state is a flat
//! value with no hidden references, so the host can snapshot it by copy
//! and re-simulate from any saved tick.

use vstd::prelude::*;
use crate::consts::BALL_RADIUS;
use crate::consts::BALL_RESET_X;
use crate::consts::CEILING;
use crate::consts::CENTER_BOUNDARY;
use crate::consts::FLOOR_START_Y;
use crate::consts::GRAVITY;
use crate::consts::GROUND_LEVEL;
use crate::consts::JUMP_VELOCITY;
use crate::consts::LEFT_BOUNDARY;
use crate::consts::MAX_BALL_SPEED;
use crate::consts::MOVE_SPEED;
use crate::consts::NET_START_X;
use crate::consts::NET_START_Y;
use crate::consts::NET_WIDTH;
use crate::consts::NET_HEIGHT;
use crate::consts::PLAYER_ENERGY_MAX;
use crate::consts::PLAYER_START_X;
use crate::consts::PLAYER_WIDTH;
use crate::consts::RIGHT_BOUNDARY;
use crate::consts::SNAP_PAD;
use crate::consts::TARGET_SCORE;
use crate::consts::BALL_RESET_SPEED;
use crate::match_state::MatchState;
use crate::math::Vec2;

verus! {

/// Position of an entity in fixed-point world coordinates.
#[derive(Clone, Copy, Debug, PartialEq, Eq, Structural)]
pub struct Transform {
    pub x: i64,
    pub y: i64,
}

/// The one live ball of a match.
#[derive(Clone, Copy, Debug, PartialEq, Eq, Structural)]
pub struct Ball {
    pub velocity: Vec2,
}

/// Static marker for the floor; collision against the ground uses
/// `GROUND_LEVEL`, the floor transform only places the sprite.
#[derive(Clone, Copy, Debug, PartialEq, Eq, Structural, Default)]
pub struct Floor;

/// Static marker for the net; its transform is the collision reference.
#[derive(Clone, Copy, Debug, PartialEq, Eq, Structural, Default)]
pub struct Net;

/// One of the two players.
#[derive(Clone, Copy, Debug, PartialEq, Eq, Structural)]
pub struct Player {
    /// The player's current velocity.
    pub velocity: Vec2,
    /// Whether the player is resting on the ground.
    pub is_grounded: bool,
    /// The player's side: 0 is left, 1 is right.
    pub idx: usize,
}

/// The player controlled on this machine; the simulation itself treats
/// both players alike.
#[derive(Clone, Copy, Debug, Default, PartialEq, Eq, Structural)]
pub struct LocalPlayer {
    /// The index of the local player (0 or 1).
    pub idx: u32,
}

/// Left edge of the half-court the given player may occupy.
pub open spec fn player_x_min(idx: int) -> int {
    if idx == 0 {
        LEFT_BOUNDARY + PLAYER_WIDTH / 2
    } else {
        CENTER_BOUNDARY + NET_WIDTH + PLAYER_WIDTH / 2
    }
}

/// Right edge of the half-court the given player may occupy.
pub open spec fn player_x_max(idx: int) -> int {
    if idx == 0 {
        CENTER_BOUNDARY - PLAYER_WIDTH / 2 - NET_WIDTH
    } else {
        RIGHT_BOUNDARY - PLAYER_WIDTH / 2
    }
}

/// Discrete mechanical energy of a player, up to constant factors:
/// potential height above the ground plus the kinetic term of the
/// per-tick integration. It never exceeds `PLAYER_ENERGY_MAX` (set by a
/// jump from the ground) and shrinks on every airborne tick, which bounds
/// how high and how fast a player can ever get.
pub open spec fn player_energy(p: Player, t: Transform) -> int {
    2 * GRAVITY * (t.y - GROUND_LEVEL) + p.velocity.y * (p.velocity.y + GRAVITY)
}

/// Well-formedness of one player and its transform.
pub open spec fn wf_player(p: Player, t: Transform, idx: int) -> bool {
    &&& p.idx == idx
    &&& t.y >= GROUND_LEVEL
    &&& player_energy(p, t) <= PLAYER_ENERGY_MAX
    &&& -MOVE_SPEED <= p.velocity.x <= MOVE_SPEED
    &&& p.velocity.y <= JUMP_VELOCITY
    &&& player_x_min(idx) <= t.x <= player_x_max(idx)
    &&& p.is_grounded ==> t.y == GROUND_LEVEL && p.velocity.y == 0
}

/// The energy bound keeps a player's height and fall speed within fixed
/// limits.
pub proof fn lemma_player_motion_bounds(p: Player, t: Transform, idx: int)
    requires
        wf_player(p, t, idx),
    ensures
        t.y <= GROUND_LEVEL + 28423,
        -1925 <= p.velocity.y,
{
    let y = t.y as int;
    let vy = p.velocity.y as int;
    assert(y <= -39040 + 28423 && -1925 <= vy) by (nonlinear_arith)
        requires
            2 * 63 * (y - (-39040)) + vy * (vy + 63) <= 3580200,
            y >= -39040,
            vy <= 1800,
    ;
}

/// Well-formedness of the ball: contained in the playfield and within
/// the speed limit.
pub open spec fn wf_ball(b: Ball, t: Transform) -> bool {
    &&& b.velocity.speed_sq() <= MAX_BALL_SPEED * MAX_BALL_SPEED
    &&& LEFT_BOUNDARY + BALL_RADIUS <= t.x <= RIGHT_BOUNDARY - BALL_RADIUS
    &&& GROUND_LEVEL + BALL_RADIUS < t.y <= CEILING - BALL_RADIUS
}

/// Well-formedness of the net's placement: snapping the ball out of the
/// net must leave it inside the playfield.
pub open spec fn wf_net(t: Transform) -> bool {
    &&& t.x - NET_WIDTH / 2 - BALL_RADIUS - SNAP_PAD >= LEFT_BOUNDARY + BALL_RADIUS
    &&& t.x + NET_WIDTH / 2 + BALL_RADIUS + SNAP_PAD <= RIGHT_BOUNDARY - BALL_RADIUS
    &&& t.y + NET_HEIGHT + BALL_RADIUS <= CEILING - BALL_RADIUS
    &&& t.y + NET_HEIGHT + BALL_RADIUS > GROUND_LEVEL + BALL_RADIUS
}

/// The whole state of a match on one tick.
#[derive(Clone, Copy, Debug, PartialEq, Eq)]
pub struct World {
    pub ball: Ball,
    pub ball_transform: Transform,
    /// Cosmetic visibility of the ball; faded out once the match is over.
    pub ball_visible: bool,
    pub players: [Player; 2],
    pub player_transforms: [Transform; 2],
    pub net: Net,
    pub net_transform: Transform,
    pub floor: Floor,
    pub floor_transform: Transform,
    pub match_state: MatchState,
}

impl World {
    /// Well-formedness of the whole world; every tick preserves it.
    pub open spec fn wf(self) -> bool {
        &&& wf_ball(self.ball, self.ball_transform)
        &&& wf_player(self.players[0], self.player_transforms[0], 0)
        &&& wf_player(self.players[1], self.player_transforms[1], 1)
        &&& wf_net(self.net_transform)
        &&& self.match_state.wf()
    }

    /// The world as the match startup creates it.
    pub open spec fn initial_spec() -> World {
        World {
            ball: Ball { velocity: Vec2 { x: 0, y: BALL_RESET_SPEED } },
            ball_transform: Transform { x: (-BALL_RESET_X) as i64, y: 0 },
            ball_visible: true,
            players: [
                Player { velocity: Vec2 { x: 0, y: 0 }, is_grounded: true, idx: 0 },
                Player { velocity: Vec2 { x: 0, y: 0 }, is_grounded: true, idx: 1 },
            ],
            player_transforms: [
                Transform { x: (-PLAYER_START_X) as i64, y: GROUND_LEVEL },
                Transform { x: PLAYER_START_X, y: GROUND_LEVEL },
            ],
            net: Net,
            net_transform: Transform { x: NET_START_X, y: NET_START_Y },
            floor: Floor,
            floor_transform: Transform { x: 0, y: FLOOR_START_Y },
            match_state: MatchState { player_scores: [0, 0], target_score: TARGET_SCORE },
        }
    }

    /// Creates the world of a fresh match: players on the ground at
    /// their starting points, the ball over the left player with the
    /// reset velocity, both scores zero.
    pub fn new() -> (r: World)
        ensures
            r == World::initial_spec(),
            r.wf(),
    {
        let r = World {
            ball: Ball { velocity: Vec2 { x: 0, y: BALL_RESET_SPEED } },
            ball_transform: Transform { x: -BALL_RESET_X, y: 0 },
            ball_visible: true,
            players: [
                Player { velocity: Vec2 { x: 0, y: 0 }, is_grounded: true, idx: 0 },
                Player { velocity: Vec2 { x: 0, y: 0 }, is_grounded: true, idx: 1 },
            ],
            player_transforms: [
                Transform { x: -PLAYER_START_X, y: GROUND_LEVEL },
                Transform { x: PLAYER_START_X, y: GROUND_LEVEL },
            ],
            net: Net,
            net_transform: Transform { x: NET_START_X, y: NET_START_Y },
            floor: Floor,
            floor_transform: Transform { x: 0, y: FLOOR_START_Y },
            match_state: MatchState { player_scores: [0, 0], target_score: TARGET_SCORE },
        };
        proof {
            assert(r.ball.velocity.speed_sq() <= MAX_BALL_SPEED * MAX_BALL_SPEED)
                by (nonlinear_arith)
                requires
                    r.ball.velocity.x == 0,
                    r.ball.velocity.y == 1890,
            ;
        }
        r
    }
}

} // verus!
