use volleyball_sim::ball::ball_movement;
use volleyball_sim::ball::ball_net_collision;
use volleyball_sim::ball::update_ball_visibility;
use volleyball_sim::consts::BALL_RESET_SPEED;
use volleyball_sim::consts::GRAVITY;
use volleyball_sim::consts::GROUND_LEVEL;
use volleyball_sim::consts::JUMP_VELOCITY;
use volleyball_sim::input::MatchInputs;
use volleyball_sim::math::Vec2;
use volleyball_sim::player::ball_player_collision;
use volleyball_sim::step::step;
use volleyball_sim::world::Transform;
use volleyball_sim::world::World;

#[test]
fn world_new_matches_startup() {
    let w = World::new();
    assert_eq!(w.ball_transform, Transform { x: -46400, y: 0 });
    assert_eq!(w.ball.velocity, Vec2 { x: 0, y: 1890 });
    assert!(w.ball_visible);
    assert_eq!(w.players[0].idx, 0);
    assert_eq!(w.players[1].idx, 1);
    assert!(w.players[0].is_grounded);
    assert_eq!(w.player_transforms[0], Transform { x: -46400, y: GROUND_LEVEL });
    assert_eq!(w.player_transforms[1], Transform { x: 46400, y: GROUND_LEVEL });
    assert_eq!(w.net_transform, Transform { x: 0, y: -41440 });
    assert_eq!(w.match_state.player_scores, [0, 0]);
    assert_eq!(w.match_state.target_score, 15);
}

#[test]
fn floor_breach_scores_left_player() {
    // Ball at (50, GROUND_LEVEL + 5) with velocity (0, -5): one tick
    // breaches the floor right of center, the left player scores, and
    // the ball restarts on the right with the fixed upward velocity.
    let mut w = World::new();
    w.ball_transform = Transform { x: 50 * 160, y: GROUND_LEVEL + 5 * 160 };
    w.ball.velocity = Vec2 { x: 0, y: -5 * 160 };
    let inputs = MatchInputs::default();
    step(&mut w, &inputs);
    assert_eq!(w.match_state.player_scores, [1, 0]);
    assert_eq!(w.ball_transform, Transform { x: 290 * 160, y: 0 });
    assert_eq!(w.ball.velocity, Vec2 { x: 0, y: GRAVITY * 30 });
    assert_eq!(w.ball.velocity, Vec2 { x: 0, y: BALL_RESET_SPEED });
}

#[test]
fn floor_breach_left_of_center_scores_right_player() {
    let mut w = World::new();
    w.ball_transform = Transform { x: -50 * 160, y: GROUND_LEVEL + 5 * 160 };
    w.ball.velocity = Vec2 { x: 0, y: -5 * 160 };
    let inputs = MatchInputs::default();
    step(&mut w, &inputs);
    assert_eq!(w.match_state.player_scores, [0, 1]);
    assert_eq!(w.ball_transform, Transform { x: -290 * 160, y: 0 });
    assert_eq!(w.ball.velocity, Vec2 { x: 0, y: 1890 });
}

#[test]
fn grounded_jump_sets_velocity_for_one_tick() {
    // A grounded player with a fresh jump press leaves the ground with
    // exactly JUMP_VELOCITY, on that tick only.
    let mut w = World::new();
    let mut inputs = MatchInputs::default();
    let c = inputs.get_control_mut(0);
    c.jump_pressed = true;
    c.jump_just_pressed = true;
    step(&mut w, &inputs);
    assert_eq!(w.players[0].velocity.y, JUMP_VELOCITY);
    assert!(!w.players[0].is_grounded);
    assert_eq!(w.player_transforms[0].y, GROUND_LEVEL + JUMP_VELOCITY);
    // The right player did not jump.
    assert!(w.players[1].is_grounded);
    assert_eq!(w.player_transforms[1].y, GROUND_LEVEL);

    // Next tick: airborne, so a held (or even fresh) press does not
    // set the velocity again; gravity takes over.
    step(&mut w, &inputs);
    assert_eq!(w.players[0].velocity.y, JUMP_VELOCITY - GRAVITY);
    assert!(!w.players[0].is_grounded);
}

#[test]
fn airborne_jump_press_is_ignored() {
    let mut w = World::new();
    let mut inputs = MatchInputs::default();
    inputs.get_control_mut(0).jump_pressed = true;
    inputs.get_control_mut(0).jump_just_pressed = true;
    step(&mut w, &inputs);
    let vy_after_jump = w.players[0].velocity.y;
    step(&mut w, &inputs);
    assert_eq!(w.players[0].velocity.y, vy_after_jump - GRAVITY);
}

#[test]
fn player_moves_right_at_move_speed() {
    let mut w = World::new();
    let mut inputs = MatchInputs::default();
    inputs.get_control_mut(0).right = 63;
    let x0 = w.player_transforms[0].x;
    step(&mut w, &inputs);
    assert_eq!(w.players[0].velocity.x, 696);
    assert_eq!(w.player_transforms[0].x, x0 + 696);
    // Player stays grounded while only moving sideways.
    assert!(w.players[0].is_grounded);
}

#[test]
fn player_clamped_to_half_court() {
    let mut w = World::new();
    let mut inputs = MatchInputs::default();
    inputs.get_control_mut(0).right = 63;
    inputs.get_control_mut(1).right = 63;
    for _ in 0..200 {
        step(&mut w, &inputs);
    }
    // The left player stops at the net side of its half-court, the
    // right player at the right boundary.
    assert_eq!(w.player_transforms[0].x, -8800);
    assert_eq!(w.player_transforms[1].x, 74400);
}

#[test]
fn ball_bounces_off_right_wall() {
    let mut w = World::new();
    w.ball_transform = Transform { x: 80000, y: 0 };
    w.ball.velocity = Vec2 { x: 2000, y: 0 };
    ball_movement(&mut w);
    assert_eq!(w.ball.velocity, Vec2 { x: -1600, y: -63 });
    assert_eq!(w.ball_transform, Transform { x: 80000, y: -63 });
}

#[test]
fn ball_bounces_off_ceiling() {
    let mut w = World::new();
    w.ball_transform = Transform { x: 0, y: 44790 };
    w.ball.velocity = Vec2 { x: 0, y: 1000 };
    ball_movement(&mut w);
    assert_eq!(w.ball.velocity, Vec2 { x: 0, y: -749 });
    assert_eq!(w.ball_transform, Transform { x: 0, y: 44800 });
}

#[test]
fn net_top_collision_reflects_vertical() {
    let mut w = World::new();
    w.ball_transform = Transform { x: 0, y: -30400 };
    w.ball.velocity = Vec2 { x: 0, y: -500 };
    ball_net_collision(&mut w);
    assert_eq!(w.ball.velocity, Vec2 { x: 0, y: 400 });
    assert_eq!(w.ball_transform, Transform { x: 0, y: -29920 });
}

#[test]
fn net_side_collision_reflects_horizontal() {
    let mut w = World::new();
    w.ball_transform = Transform { x: -2000, y: -35000 };
    w.ball.velocity = Vec2 { x: 1000, y: 0 };
    ball_net_collision(&mut w);
    assert_eq!(w.ball.velocity, Vec2 { x: -800, y: 0 });
    assert_eq!(w.ball_transform, Transform { x: -2560, y: -35000 });
}

#[test]
fn ball_misses_net_outside_band() {
    let mut w = World::new();
    w.ball_transform = Transform { x: -10000, y: -35000 };
    w.ball.velocity = Vec2 { x: 1000, y: 0 };
    let before = w.ball_transform;
    ball_net_collision(&mut w);
    assert_eq!(w.ball_transform, before);
    assert_eq!(w.ball.velocity, Vec2 { x: 1000, y: 0 });
}

#[test]
fn player_bounce_straight_up_from_center() {
    // Ball dead-center over the left player: zero bounce angle, so the
    // ball leaves straight up at the player bounce speed, clamped back
    // to the speed limit.
    let mut w = World::new();
    w.ball_transform = Transform { x: -46400, y: -37000 };
    w.ball.velocity = Vec2 { x: 0, y: 0 };
    ball_player_collision(&mut w);
    assert_eq!(w.ball.velocity, Vec2 { x: 0, y: 2700 });
    assert_eq!(w.ball_transform, Transform { x: -46400, y: -35040 });
}

#[test]
fn player_bounce_angled_off_the_side() {
    // Ball right of the left player's center: the bounce angle sends
    // it up and to the right, then the speed clamp rescales it.
    let mut w = World::new();
    w.ball_transform = Transform { x: -42000, y: -37000 };
    w.ball.velocity = Vec2 { x: 0, y: 0 };
    ball_player_collision(&mut w);
    assert_eq!(w.ball.velocity, Vec2 { x: 1237, y: 2399 });
    assert_eq!(w.ball_transform, Transform { x: -42000, y: -35040 });
}

#[test]
fn player_bounce_carries_momentum() {
    // A moving player hands half its velocity to the ball.
    let mut w = World::new();
    w.ball_transform = Transform { x: -46400, y: -37000 };
    w.ball.velocity = Vec2 { x: 0, y: 0 };
    w.players[0].velocity = Vec2 { x: 696, y: 0 };
    w.players[0].is_grounded = true;
    ball_player_collision(&mut w);
    // Unclamped velocity is (0 + 348, 3240 + 0); the clamp rescales it.
    let v = w.ball.velocity;
    assert!(v.x > 0);
    assert!(v.x * v.x + v.y * v.y <= 2700 * 2700);
}

#[test]
fn ball_visibility_follows_match_state() {
    let mut w = World::new();
    update_ball_visibility(&mut w);
    assert!(w.ball_visible);
    w.match_state.player_scores = [15, 3];
    update_ball_visibility(&mut w);
    assert!(!w.ball_visible);
}
