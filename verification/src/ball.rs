//! Ball physics: gravity, integration, boundary, ceiling and floor
//! collisions with scoring, the collision against the net, and the
//! cosmetic visibility of the ball.

use vstd::prelude::*;
use crate::consts::BALL_BOUNCE_NUM;
use crate::consts::BALL_RADIUS;
use crate::consts::BALL_RESET_SPEED;
use crate::consts::BALL_RESET_X;
use crate::consts::BOUNCE_DEN;
use crate::consts::CEILING;
use crate::consts::CENTER_BOUNDARY;
use crate::consts::GRAVITY;
use crate::consts::GROUND_LEVEL;
use crate::consts::LEFT_BOUNDARY;
use crate::consts::MAX_BALL_SPEED;
use crate::consts::NET_HEIGHT;
use crate::consts::NET_WIDTH;
use crate::consts::RIGHT_BOUNDARY;
use crate::consts::SNAP_PAD;
use crate::match_state::MatchState;
use crate::math::abs_mag;
use crate::math::clamp_i;
use crate::math::clamp_i64;
use crate::math::clamp_speed;
use crate::math::iabs;
use crate::math::lemma_abs_sq;
use crate::math::lemma_scale_ratio_shrinks;
use crate::math::lemma_spec_clamp_speed_bound;
use crate::math::lemma_speed_components;
use crate::math::scale_ratio;
use crate::math::scale_ratio_i64;
use crate::math::spec_clamp_speed;
use crate::math::Vec2;
use crate::world::wf_ball;
use crate::world::Ball;
use crate::world::Transform;
use crate::world::World;

verus! {

impl Ball {
    /// Puts the ball back over the side that conceded the point: zero
    /// horizontal velocity, a fixed upward velocity, at the restart
    /// point of the given side.
    pub fn reset(&mut self, reset_to_right: bool, transform: &mut Transform)
        ensures
            final(self).velocity == (Vec2 { x: 0, y: BALL_RESET_SPEED }),
            final(transform).x == if reset_to_right { BALL_RESET_X as int } else { -BALL_RESET_X as int },
            final(transform).y == 0,
    {
        transform.x = if reset_to_right { BALL_RESET_X } else { -BALL_RESET_X };
        transform.y = 0;
        self.velocity = Vec2 { x: 0, y: BALL_RESET_SPEED };
    }
}

/// The ball, its transform and the match state advanced by one tick of
/// ball physics, in the fixed order the engine guarantees: gravity,
/// integration, boundary bounce, ceiling bounce, floor collision with
/// scoring, and last the speed clamp.
pub open spec fn spec_ball_phase(b: Ball, t: Transform, ms: MatchState)
    -> (Ball, Transform, MatchState) {
    let vy1 = b.velocity.y - GRAVITY;
    let x1 = t.x + b.velocity.x;
    let y1 = t.y + vy1;
    let hit_wall = x1 - BALL_RADIUS <= LEFT_BOUNDARY || x1 + BALL_RADIUS >= RIGHT_BOUNDARY;
    let vx2 = if hit_wall {
        -scale_ratio(b.velocity.x as int, BALL_BOUNCE_NUM as int, BOUNCE_DEN as int)
    } else {
        b.velocity.x as int
    };
    let x2 = if hit_wall {
        clamp_i(x1, LEFT_BOUNDARY + BALL_RADIUS, RIGHT_BOUNDARY - BALL_RADIUS)
    } else {
        x1
    };
    let hit_ceiling = y1 + BALL_RADIUS >= CEILING;
    let vy2 = if hit_ceiling {
        -scale_ratio(vy1, BALL_BOUNCE_NUM as int, BOUNCE_DEN as int)
    } else {
        vy1
    };
    let y2 = if hit_ceiling {
        CEILING - BALL_RADIUS
    } else {
        y1
    };
    if y2 - BALL_RADIUS <= GROUND_LEVEL {
        let reset_to_right = x2 > CENTER_BOUNDARY;
        let ms2 = ms.spec_incremented(if reset_to_right { 0 } else { 1 });
        (
            Ball { velocity: Vec2 { x: 0, y: BALL_RESET_SPEED } },
            Transform {
                x: (if reset_to_right { BALL_RESET_X as int } else { -BALL_RESET_X as int }) as i64,
                y: 0,
            },
            ms2,
        )
    } else {
        (
            Ball { velocity: spec_clamp_speed(Vec2 { x: vx2 as i64, y: vy2 as i64 }) },
            Transform { x: x2 as i64, y: y2 as i64 },
            ms,
        )
    }
}

/// The world after the ball-movement stage, or untouched once finished.
pub open spec fn spec_ball_movement(w: World) -> World {
    if w.match_state.spec_is_finished() {
        w
    } else {
        let ph = spec_ball_phase(w.ball, w.ball_transform, w.match_state);
        World { ball: ph.0, ball_transform: ph.1, match_state: ph.2, ..w }
    }
}

/// One tick of ball physics keeps the ball well formed, keeps the match
/// state well formed, and raises at most one score by at most one.
pub proof fn lemma_ball_phase_wf(b: Ball, t: Transform, ms: MatchState)
    requires
        wf_ball(b, t),
        ms.wf(),
        !ms.spec_is_finished(),
    ensures
        wf_ball(spec_ball_phase(b, t, ms).0, spec_ball_phase(b, t, ms).1),
        spec_ball_phase(b, t, ms).2.wf(),
        spec_ball_phase(b, t, ms).2.target_score == ms.target_score,
        spec_ball_phase(b, t, ms).2.player_scores[0] >= ms.player_scores[0],
        spec_ball_phase(b, t, ms).2.player_scores[1] >= ms.player_scores[1],
        spec_ball_phase(b, t, ms).2.player_scores[0] + spec_ball_phase(b, t, ms).2.player_scores[1]
            <= ms.player_scores[0] + ms.player_scores[1] + 1,
{
    lemma_speed_components(b.velocity);
    let vy1 = b.velocity.y - GRAVITY;
    let hit_ceiling = t.y + vy1 + BALL_RADIUS >= CEILING;
    lemma_scale_ratio_shrinks(b.velocity.x as int, BALL_BOUNCE_NUM as int, BOUNCE_DEN as int);
    lemma_scale_ratio_shrinks(vy1, BALL_BOUNCE_NUM as int, BOUNCE_DEN as int);
    let ph = spec_ball_phase(b, t, ms);
    if (if hit_ceiling { CEILING - BALL_RADIUS } else { t.y + vy1 }) - BALL_RADIUS
        <= GROUND_LEVEL {
        assert(ph.0.velocity.speed_sq() <= MAX_BALL_SPEED * MAX_BALL_SPEED)
            by (nonlinear_arith)
            requires
                ph.0.velocity.x == 0,
                ph.0.velocity.y == 1890,
        ;
    } else {
        lemma_spec_clamp_speed_bound(
            Vec2 {
                x: (if t.x + b.velocity.x - BALL_RADIUS <= LEFT_BOUNDARY
                        || t.x + b.velocity.x + BALL_RADIUS >= RIGHT_BOUNDARY {
                    -scale_ratio(b.velocity.x as int, BALL_BOUNCE_NUM as int, BOUNCE_DEN as int)
                } else {
                    b.velocity.x as int
                }) as i64,
                y: (if hit_ceiling {
                    -scale_ratio(vy1, BALL_BOUNCE_NUM as int, BOUNCE_DEN as int)
                } else {
                    vy1
                }) as i64,
            },
        );
    }
}

/// Advances the ball by one tick: applies gravity, integrates the
/// position, resolves boundary, ceiling and floor collisions — a floor
/// breach scores for the side the ball was not on and resets the ball —
/// and clamps the speed last. Does nothing once the match is finished.
pub fn ball_movement(world: &mut World)
    requires
        old(world).wf(),
    ensures
        *final(world) == spec_ball_movement(*old(world)),
        final(world).wf(),
{
    if world.match_state.is_finished() {
        return ;
    }
    proof {
        lemma_speed_components(world.ball.velocity);
        lemma_ball_phase_wf(world.ball, world.ball_transform, world.match_state);
    }
    let vx = world.ball.velocity.x;
    let vy1 = world.ball.velocity.y - GRAVITY;
    let x1 = world.ball_transform.x + vx;
    let y1 = world.ball_transform.y + vy1;

    let hit_wall = x1 - BALL_RADIUS <= LEFT_BOUNDARY || x1 + BALL_RADIUS >= RIGHT_BOUNDARY;
    let vx2 = if hit_wall {
        -scale_ratio_i64(vx, 4, 5)
    } else {
        vx
    };
    let x2 = if hit_wall {
        clamp_i64(x1, LEFT_BOUNDARY + BALL_RADIUS, RIGHT_BOUNDARY - BALL_RADIUS)
    } else {
        x1
    };

    let hit_ceiling = y1 + BALL_RADIUS >= CEILING;
    let vy2 = if hit_ceiling {
        -scale_ratio_i64(vy1, 4, 5)
    } else {
        vy1
    };
    let y2 = if hit_ceiling {
        CEILING - BALL_RADIUS
    } else {
        y1
    };

    if y2 - BALL_RADIUS <= GROUND_LEVEL {
        let reset_to_right = x2 > CENTER_BOUNDARY;
        let scoring_player: usize = if reset_to_right { 0 } else { 1 };
        world.match_state.increment_player_score(scoring_player);
        let mut ball = world.ball;
        let mut transform = world.ball_transform;
        ball.reset(reset_to_right, &mut transform);
        world.ball = ball;
        world.ball_transform = transform;
    } else {
        let cv = clamp_speed(Vec2 { x: vx2, y: vy2 });
        world.ball = Ball { velocity: cv };
        world.ball_transform = Transform { x: x2, y: y2 };
    }
}

/// The world after the ball–net collision stage: a ball inside the
/// net's band bounces off the top (at or above the top minus the
/// radius, with precedence) or off the side it is on, scaled by the
/// surface bounce factor; untouched otherwise or once finished.
pub open spec fn spec_ball_net_collision(w: World) -> World {
    if w.match_state.spec_is_finished() {
        w
    } else {
        let bx = w.ball_transform.x as int;
        let by = w.ball_transform.y as int;
        let nx = w.net_transform.x as int;
        let ny = w.net_transform.y as int;
        if iabs(bx - nx) < NET_WIDTH / 2 + BALL_RADIUS && by > ny
            && by < ny + NET_HEIGHT + BALL_RADIUS {
            if by >= ny + NET_HEIGHT - BALL_RADIUS {
                World {
                    ball: Ball {
                        velocity: Vec2 {
                            x: w.ball.velocity.x,
                            y: (-scale_ratio(w.ball.velocity.y as int, BALL_BOUNCE_NUM as int,
                                BOUNCE_DEN as int)) as i64,
                        },
                    },
                    ball_transform: Transform {
                        x: w.ball_transform.x,
                        y: (ny + NET_HEIGHT + BALL_RADIUS) as i64,
                    },
                    ..w
                }
            } else {
                World {
                    ball: Ball {
                        velocity: Vec2 {
                            x: (-scale_ratio(w.ball.velocity.x as int, BALL_BOUNCE_NUM as int,
                                BOUNCE_DEN as int)) as i64,
                            y: w.ball.velocity.y,
                        },
                    },
                    ball_transform: Transform {
                        x: (if bx < nx {
                            nx - NET_WIDTH / 2 - BALL_RADIUS - SNAP_PAD
                        } else {
                            nx + NET_WIDTH / 2 + BALL_RADIUS + SNAP_PAD
                        }) as i64,
                        y: w.ball_transform.y,
                    },
                    ..w
                }
            }
        } else {
            w
        }
    }
}

/// Scaling one velocity component by the bounce factor never raises the
/// squared speed.
proof fn lemma_bounce_component_speed(v: Vec2, w: Vec2)
    requires
        iabs(w.x as int) <= iabs(v.x as int),
        iabs(w.y as int) <= iabs(v.y as int),
    ensures
        w.speed_sq() <= v.speed_sq(),
{
    lemma_abs_sq(v.x as int);
    lemma_abs_sq(v.y as int);
    lemma_abs_sq(w.x as int);
    lemma_abs_sq(w.y as int);
    let a = iabs(w.x as int);
    let b = iabs(v.x as int);
    let c = iabs(w.y as int);
    let d = iabs(v.y as int);
    assert(a * a <= b * b && c * c <= d * d) by (nonlinear_arith)
        requires
            0 <= a <= b,
            0 <= c <= d,
    ;
}

/// The ball–net collision keeps the world well formed.
pub proof fn lemma_ball_net_collision_wf(w: World)
    requires
        w.wf(),
    ensures
        spec_ball_net_collision(w).wf(),
        spec_ball_net_collision(w).match_state == w.match_state,
{
    lemma_speed_components(w.ball.velocity);
    lemma_scale_ratio_shrinks(w.ball.velocity.x as int, BALL_BOUNCE_NUM as int,
        BOUNCE_DEN as int);
    lemma_scale_ratio_shrinks(w.ball.velocity.y as int, BALL_BOUNCE_NUM as int,
        BOUNCE_DEN as int);
    let nw = spec_ball_net_collision(w);
    lemma_bounce_component_speed(w.ball.velocity, nw.ball.velocity);
}

/// Resolves the ball's collision against the net, if it overlaps the
/// net's band this tick. Does nothing once the match is finished.
pub fn ball_net_collision(world: &mut World)
    requires
        old(world).wf(),
    ensures
        *final(world) == spec_ball_net_collision(*old(world)),
        final(world).wf(),
{
    if world.match_state.is_finished() {
        return ;
    }
    proof {
        lemma_speed_components(world.ball.velocity);
        lemma_ball_net_collision_wf(*world);
    }
    let bx = world.ball_transform.x;
    let by = world.ball_transform.y;
    let nx = world.net_transform.x;
    let ny = world.net_transform.y;
    let dx = abs_mag(bx - nx);
    if dx < (NET_WIDTH / 2 + BALL_RADIUS) as u64 && by > ny
        && by < ny + NET_HEIGHT + BALL_RADIUS {
        if by >= ny + NET_HEIGHT - BALL_RADIUS {
            let vy = -scale_ratio_i64(world.ball.velocity.y, 4, 5);
            world.ball = Ball { velocity: Vec2 { x: world.ball.velocity.x, y: vy } };
            world.ball_transform = Transform { x: bx, y: ny + NET_HEIGHT + BALL_RADIUS };
        } else {
            let vx = -scale_ratio_i64(world.ball.velocity.x, 4, 5);
            let newx = if bx < nx {
                nx - NET_WIDTH / 2 - BALL_RADIUS - SNAP_PAD
            } else {
                nx + NET_WIDTH / 2 + BALL_RADIUS + SNAP_PAD
            };
            world.ball = Ball { velocity: Vec2 { x: vx, y: world.ball.velocity.y } };
            world.ball_transform = Transform { x: newx, y: by };
        }
    }
}

/// The world with the ball's visibility following the match state: the
/// ball fades out once the match is finished.
pub open spec fn spec_update_ball_visibility(w: World) -> World {
    World { ball_visible: !w.match_state.spec_is_finished(), ..w }
}

/// Shows the ball while the match runs and hides it once the match is
/// finished. Purely cosmetic: nothing of the physics reads it.
pub fn update_ball_visibility(world: &mut World)
    ensures
        *final(world) == spec_update_ball_visibility(*old(world)),
        old(world).wf() ==> final(world).wf(),
{
    world.ball_visible = !world.match_state.is_finished();
}

} // verus!
