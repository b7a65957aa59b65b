//! Player movement and the ball–player collision.

use vstd::prelude::*;
use crate::consts::AXIS_MAX;
use crate::consts::BALL_RADIUS;
use crate::consts::GRAVITY;
use crate::consts::GROUND_LEVEL;
use crate::consts::JUMP_VELOCITY;
use crate::consts::MOVE_SPEED;
use crate::consts::PLAYER_HEIGHT;
use crate::consts::PLAYER_WIDTH;
use crate::consts::SNAP_PAD;
use crate::input::MatchInputs;
use crate::input::PlayerControl;
use crate::math::clamp_i;
use crate::math::lemma_scale_ratio_shrinks;
use crate::math::lemma_scaled_trig_bounds;
use crate::math::lemma_spec_clamp_speed_bound;
use crate::math::clamp_i64;
use crate::math::abs_mag;
use crate::math::iabs;
use crate::math::scale_ratio;
use crate::math::scale_ratio_i64;
use crate::math::spec_scaled_cos;
use crate::math::spec_scaled_sin;
use crate::math::scaled_cos;
use crate::math::scaled_sin;
use crate::math::spec_clamp_speed;
use crate::math::clamp_speed;
use crate::math::Vec2;
use crate::world::player_energy;
use crate::world::player_x_max;
use crate::world::player_x_min;
use crate::world::lemma_player_motion_bounds;
use crate::world::wf_player;
use crate::world::Player;
use crate::world::Transform;
use crate::world::World;
use crate::world::Ball;

verus! {

/// Speed given to the ball by a player bounce, before momentum transfer:
/// MAX_BALL_SPEED * PLAYER_BOUNCE_NUM / BOUNCE_DEN.
pub const PLAYER_BOUNCE_SPEED: i64 = 3240;

/// One player advanced by one tick under its control: horizontal
/// velocity follows the movement axes, gravity and jumping set the
/// vertical velocity, the position integrates by the velocity, is
/// clamped into the player's half-court, and ground contact snaps the
/// player onto the ground.
pub open spec fn spec_player_step(p: Player, t: Transform, c: PlayerControl) -> (Player, Transform) {
    let movement = clamp_i(c.move_x(), -AXIS_MAX as int, AXIS_MAX as int);
    let vx = scale_ratio(movement, MOVE_SPEED as int, AXIS_MAX as int);
    let vy_gravity = p.velocity.y - GRAVITY;
    let jumping = c.jump_just_pressed && p.is_grounded;
    let vy = if jumping {
        JUMP_VELOCITY as int
    } else {
        vy_gravity
    };
    let x = clamp_i(t.x + vx, player_x_min(p.idx as int), player_x_max(p.idx as int));
    let y = t.y + vy;
    if y <= GROUND_LEVEL {
        (
            Player { velocity: Vec2 { x: vx as i64, y: 0 }, is_grounded: true, ..p },
            Transform { x: x as i64, y: GROUND_LEVEL },
        )
    } else {
        (
            Player { velocity: Vec2 { x: vx as i64, y: vy as i64 }, is_grounded: false, ..p },
            Transform { x: x as i64, y: y as i64 },
        )
    }
}

/// One tick of player movement never breaks a player's well-formedness.
pub proof fn lemma_player_step_wf(p: Player, t: Transform, c: PlayerControl, idx: int)
    requires
        wf_player(p, t, idx),
    ensures
        wf_player(spec_player_step(p, t, c).0, spec_player_step(p, t, c).1, idx),
{
    lemma_player_motion_bounds(p, t, idx);
    let movement = clamp_i(c.move_x(), -AXIS_MAX as int, AXIS_MAX as int);
    let vx = scale_ratio(movement, MOVE_SPEED as int, AXIS_MAX as int);
    assert(-MOVE_SPEED <= vx <= MOVE_SPEED);
    let jumping = c.jump_just_pressed && p.is_grounded;
    let vy = if jumping { JUMP_VELOCITY as int } else { p.velocity.y - GRAVITY };
    let y = t.y + vy;
    let np = spec_player_step(p, t, c).0;
    let nt = spec_player_step(p, t, c).1;
    if y <= GROUND_LEVEL {
        assert(player_energy(np, nt) == 0) by (nonlinear_arith)
            requires
                np.velocity.y == 0,
                nt.y == GROUND_LEVEL,
                player_energy(np, nt)
                    == 2 * GRAVITY * (nt.y - GROUND_LEVEL)
                        + np.velocity.y * (np.velocity.y + GRAVITY),
        ;
    } else if jumping {
        assert(t.y == GROUND_LEVEL && p.velocity.y == 0);
        assert(2 * 63 * (y - GROUND_LEVEL) + 1800 * (1800 + 63) == 3580200) by (nonlinear_arith)
            requires
                y == GROUND_LEVEL + 1800,
        ;
    } else {
        let vy0 = p.velocity.y as int;
        let ty = t.y as int;
        let gl = GROUND_LEVEL as int;
        assert(2 * 63 * (y - gl) + vy * (vy + 63)
            == 2 * 63 * (ty - gl) + vy0 * (vy0 + 63) - 7938) by (nonlinear_arith)
            requires
                vy == vy0 - 63,
                y == ty + vy,
        ;
        assert(player_energy(np, nt) == player_energy(p, t) - 7938);
    }
}

/// The world after the player-movement stage: both players stepped under
/// the frozen input vector, or everything untouched once the match is
/// finished.
pub open spec fn spec_player_movement(w: World, inputs: MatchInputs) -> World {
    if w.match_state.spec_is_finished() {
        w
    } else {
        let s0 = spec_player_step(w.players[0], w.player_transforms[0], inputs.players[0]);
        let s1 = spec_player_step(w.players[1], w.player_transforms[1], inputs.players[1]);
        World {
            players: [s0.0, s1.0],
            player_transforms: [s0.1, s1.1],
            ..w
        }
    }
}

/// Executes one player's step.
fn player_step(p: &Player, t: &Transform, c: &PlayerControl) -> (r: (Player, Transform))
    requires
        wf_player(*p, *t, p.idx as int),
    ensures
        r == spec_player_step(*p, *t, *c),
        wf_player(r.0, r.1, p.idx as int),
{
    proof {
        lemma_player_motion_bounds(*p, *t, p.idx as int);
        lemma_player_step_wf(*p, *t, *c, p.idx as int);
    }
    let lc = clamp_i64(c.left, 0, AXIS_MAX);
    let rc = clamp_i64(c.right, 0, AXIS_MAX);
    let movement = clamp_i64(rc - lc, -AXIS_MAX, AXIS_MAX);
    let vx = scale_ratio_i64(movement, 696, 63);
    let jumping = c.jump_just_pressed && p.is_grounded;
    let vy = if jumping {
        JUMP_VELOCITY
    } else {
        p.velocity.y - GRAVITY
    };
    let xmin = if p.idx == 0 { -77600 } else { 8800 };
    let xmax = if p.idx == 0 { -8800 } else { 74400 };
    let x = clamp_i64(t.x + vx, xmin, xmax);
    let y = t.y + vy;
    if y <= GROUND_LEVEL {
        (
            Player { velocity: Vec2 { x: vx, y: 0 }, is_grounded: true, idx: p.idx },
            Transform { x, y: GROUND_LEVEL },
        )
    } else {
        (
            Player { velocity: Vec2 { x: vx, y: vy }, is_grounded: false, idx: p.idx },
            Transform { x, y },
        )
    }
}

/// Advances both players by one tick of movement under the tick's frozen
/// inputs. Does nothing once the match is finished.
pub fn player_movement(world: &mut World, match_inputs: &MatchInputs)
    requires
        old(world).wf(),
    ensures
        *final(world) == spec_player_movement(*old(world), *match_inputs),
        final(world).wf(),
{
    if world.match_state.is_finished() {
        return ;
    }
    let s0 = player_step(&world.players[0], &world.player_transforms[0],
        &match_inputs.players[0]);
    let s1 = player_step(&world.players[1], &world.player_transforms[1],
        &match_inputs.players[1]);
    world.players = [s0.0, s1.0];
    world.player_transforms = [s0.1, s1.1];
}

/// True when the ball at `(bx, by)` overlaps the given player's
/// collision box, tested against the player's top-center reference
/// point.
pub open spec fn spec_hits_player(pt: Transform, bx: int, by: int) -> bool {
    let pcy = pt.y + PLAYER_HEIGHT / 2;
    iabs(bx - pt.x) < PLAYER_WIDTH / 2 + BALL_RADIUS
        && iabs(by - pcy) < PLAYER_HEIGHT / 2 + BALL_RADIUS
}

/// The velocity the ball leaves a player with: the horizontal offset
/// across the player's width, clamped to [-1, 1] and mirrored for the
/// right player, is taken to a bounce angle of up to 45 degrees; the new
/// velocity is `(sin, cos)` of that angle times the bounce speed,
/// mirrored back for the right player, plus half the player's own
/// velocity as momentum transfer. The speed clamp is applied afterwards
/// by the collision stage.
pub open spec fn spec_player_bounce(p: Player, pt: Transform, bx: int) -> Vec2 {
    let rel_x = bx - pt.x;
    let offset = clamp_i(scale_ratio(rel_x, 1, 45), -160, 160);
    let mirrored = if p.idx == 1 { -offset } else { offset };
    let mag = iabs(mirrored);
    let sin_val = spec_scaled_sin(mag, PLAYER_BOUNCE_SPEED as int);
    let cos_val = spec_scaled_cos(mag, PLAYER_BOUNCE_SPEED as int);
    let sx0 = if mirrored < 0 { -sin_val } else { sin_val };
    let sx = if p.idx == 1 { -sx0 } else { sx0 };
    Vec2 {
        x: (sx + scale_ratio(p.velocity.x as int, 1, 2)) as i64,
        y: (cos_val + scale_ratio(p.velocity.y as int, 1, 2)) as i64,
    }
}

/// The world after the ball–player collision stage: the ball rebounds
/// off the first player it overlaps (the left player is tested first;
/// one rebound per tick), is repositioned just above that player's box,
/// and its speed is clamped; untouched otherwise or once finished.
pub open spec fn spec_ball_player_collision(w: World) -> World {
    if w.match_state.spec_is_finished() {
        w
    } else {
        let bx = w.ball_transform.x as int;
        let by = w.ball_transform.y as int;
        let hit0 = spec_hits_player(w.player_transforms[0], bx, by);
        let hit1 = spec_hits_player(w.player_transforms[1], bx, by);
        if hit0 || hit1 {
            let i: int = if hit0 { 0 } else { 1 };
            let nv = spec_player_bounce(w.players[i], w.player_transforms[i], bx);
            World {
                ball: Ball { velocity: spec_clamp_speed(nv) },
                ball_transform: Transform {
                    x: w.ball_transform.x,
                    y: (w.player_transforms[i].y + PLAYER_HEIGHT + BALL_RADIUS + SNAP_PAD) as i64,
                },
                ..w
            }
        } else {
            w
        }
    }
}

/// The bounce velocity's components stay within fixed bounds.
pub proof fn lemma_player_bounce_bounds(p: Player, pt: Transform, bx: int, idx: int)
    requires
        wf_player(p, pt, idx),
    ensures
        iabs(spec_player_bounce(p, pt, bx).x as int) <= 4000,
        iabs(spec_player_bounce(p, pt, bx).y as int) <= 4300,
{
    lemma_player_motion_bounds(p, pt, idx);
    let rel_x = bx - pt.x;
    let offset = clamp_i(scale_ratio(rel_x, 1, 45), -160, 160);
    let mirrored = if p.idx == 1 { -offset } else { offset };
    let mag = iabs(mirrored);
    lemma_scaled_trig_bounds(mag, PLAYER_BOUNCE_SPEED as int);
    lemma_scale_ratio_shrinks(p.velocity.x as int, 1, 2);
    lemma_scale_ratio_shrinks(p.velocity.y as int, 1, 2);
}

/// The ball–player collision keeps the world well formed.
pub proof fn lemma_ball_player_collision_wf(w: World)
    requires
        w.wf(),
    ensures
        spec_ball_player_collision(w).wf(),
        spec_ball_player_collision(w).match_state == w.match_state,
{
    if !w.match_state.spec_is_finished() {
        let bx = w.ball_transform.x as int;
        let by = w.ball_transform.y as int;
        let hit0 = spec_hits_player(w.player_transforms[0], bx, by);
        let hit1 = spec_hits_player(w.player_transforms[1], bx, by);
        if hit0 {
            lemma_player_motion_bounds(w.players[0], w.player_transforms[0], 0);
            lemma_player_bounce_bounds(w.players[0], w.player_transforms[0], bx, 0);
            lemma_spec_clamp_speed_bound(spec_player_bounce(w.players[0],
                w.player_transforms[0], bx));
        } else if hit1 {
            lemma_player_motion_bounds(w.players[1], w.player_transforms[1], 1);
            lemma_player_bounce_bounds(w.players[1], w.player_transforms[1], bx, 1);
            lemma_spec_clamp_speed_bound(spec_player_bounce(w.players[1],
                w.player_transforms[1], bx));
        }
    }
}

/// Tests the axis-aligned overlap of the ball and one player's box.
fn hits_player(pt: &Transform, bx: i64, by: i64) -> (r: bool)
    requires
        -200_000 <= pt.x <= 200_000,
        -200_000 <= pt.y <= 200_000,
        -200_000 <= bx <= 200_000,
        -200_000 <= by <= 200_000,
    ensures
        r == spec_hits_player(*pt, bx as int, by as int),
{
    let pcy = pt.y + PLAYER_HEIGHT / 2;
    let rx = abs_mag(bx - pt.x);
    let ry = abs_mag(by - pcy);
    rx < (PLAYER_WIDTH / 2 + BALL_RADIUS) as u64 && ry < (PLAYER_HEIGHT / 2 + BALL_RADIUS) as u64
}

/// Computes the rebound velocity off one player.
fn player_bounce(p: &Player, pt: &Transform, bx: i64) -> (r: Vec2)
    requires
        wf_player(*p, *pt, p.idx as int),
        -200_000 <= bx <= 200_000,
    ensures
        r == spec_player_bounce(*p, *pt, bx as int),
{
    proof {
        lemma_player_motion_bounds(*p, *pt, p.idx as int);
        lemma_player_bounce_bounds(*p, *pt, bx as int, p.idx as int);
    }
    let rel_x = bx - pt.x;
    let offset = clamp_i64(scale_ratio_i64(rel_x, 1, 45), -160, 160);
    let mirrored = if p.idx == 1 { -offset } else { offset };
    let mag = abs_mag(mirrored);
    let sin_val = scaled_sin(mag, 3240) as i64;
    let cos_val = scaled_cos(mag, 3240) as i64;
    let sx0 = if mirrored < 0 { -sin_val } else { sin_val };
    let sx = if p.idx == 1 { -sx0 } else { sx0 };
    let hx = scale_ratio_i64(p.velocity.x, 1, 2);
    let hy = scale_ratio_i64(p.velocity.y, 1, 2);
    Vec2 { x: sx + hx, y: cos_val + hy }
}

/// Resolves the collision of the ball against the players: the ball can
/// rebound off at most one player per tick, the left player tested
/// first. Does nothing once the match is finished.
pub fn ball_player_collision(world: &mut World)
    requires
        old(world).wf(),
    ensures
        *final(world) == spec_ball_player_collision(*old(world)),
        final(world).wf(),
{
    if world.match_state.is_finished() {
        return ;
    }
    proof {
        lemma_player_motion_bounds(world.players[0], world.player_transforms[0], 0);
        lemma_player_motion_bounds(world.players[1], world.player_transforms[1], 1);
        lemma_ball_player_collision_wf(*world);
    }
    let bx = world.ball_transform.x;
    let by = world.ball_transform.y;
    let hit0 = hits_player(&world.player_transforms[0], bx, by);
    let hit1 = hits_player(&world.player_transforms[1], bx, by);
    if hit0 || hit1 {
        let i: usize = if hit0 { 0 } else { 1 };
        proof {
            lemma_player_bounce_bounds(world.players[i as int],
                world.player_transforms[i as int], bx as int, i as int);
        }
        let nv = player_bounce(&world.players[i], &world.player_transforms[i], bx);
        let cv = clamp_speed(nv);
        let ny = world.player_transforms[i].y + PLAYER_HEIGHT + BALL_RADIUS + SNAP_PAD;
        world.ball = Ball { velocity: cv };
        world.ball_transform = Transform { x: bx, y: ny };
    }
}

} // verus!
