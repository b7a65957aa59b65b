use volleyball_sim::consts::LEFT_BOUNDARY;
use volleyball_sim::consts::BALL_RADIUS;
use volleyball_sim::consts::RIGHT_BOUNDARY;
use volleyball_sim::input::MatchInputs;
use volleyball_sim::math::Vec2;
use volleyball_sim::step::escape_requested;
use volleyball_sim::step::replay;
use volleyball_sim::step::step;
use volleyball_sim::world::Transform;
use volleyball_sim::world::World;

/// A small deterministic generator to vary the inputs of a long run.
struct Lcg(u64);

impl Lcg {
    fn next(&mut self) -> u64 {
        self.0 = self.0.wrapping_mul(6364136223846793005).wrapping_add(1442695040888963407);
        self.0 >> 33
    }
}

fn varied_inputs(ticks: usize, seed: u64) -> Vec<MatchInputs> {
    let mut rng = Lcg(seed);
    let mut out = Vec::new();
    for _ in 0..ticks {
        let mut inputs = MatchInputs::default();
        for idx in 0..2 {
            let bits = rng.next();
            let c = inputs.get_control_mut(idx);
            if bits & 1 != 0 {
                c.left = 63;
            }
            if bits & 2 != 0 {
                c.right = 63;
            }
            if bits & 4 != 0 {
                c.jump_pressed = true;
                c.jump_just_pressed = bits & 8 != 0;
            }
        }
        out.push(inputs);
    }
    out
}

#[test]
fn replay_is_deterministic() {
    // Running the same input sequence twice from the same snapshot
    // gives bit-identical states after every prefix length.
    let script = varied_inputs(400, 7);
    let mut w1 = World::new();
    let mut w2 = World::new();
    for inputs in script.iter() {
        step(&mut w1, inputs);
        step(&mut w2, inputs);
        assert_eq!(w1, w2);
    }
}

#[test]
fn replay_matches_single_steps() {
    let script = varied_inputs(300, 99);
    let mut by_steps = World::new();
    for inputs in script.iter() {
        step(&mut by_steps, inputs);
    }
    let mut by_replay = World::new();
    replay(&mut by_replay, &script);
    assert_eq!(by_steps, by_replay);
}

#[test]
fn rollback_resimulation_is_exact() {
    // Save a snapshot mid-run, keep playing, then re-simulate from the
    // snapshot with the same tail of inputs: the states agree.
    let script = varied_inputs(500, 1234);
    let mut w = World::new();
    for inputs in script.iter().take(250) {
        step(&mut w, inputs);
    }
    let snapshot = w;
    for inputs in script.iter().skip(250) {
        step(&mut w, inputs);
    }
    let mut resim = snapshot;
    for inputs in script.iter().skip(250) {
        step(&mut resim, inputs);
    }
    assert_eq!(w, resim);
}

#[test]
fn long_run_invariants_hold() {
    // Over a long, varied run: ball speed stays within the limit, the
    // ball and both players stay inside their horizontal bounds, scores
    // never decrease, and at most one score rises per tick.
    let script = varied_inputs(3000, 42424242);
    let mut w = World::new();
    for inputs in script.iter() {
        let s0 = w.match_state.player_scores[0];
        let s1 = w.match_state.player_scores[1];
        step(&mut w, inputs);
        let v = w.ball.velocity;
        assert!(v.x * v.x + v.y * v.y <= 2700 * 2700);
        assert!(w.ball_transform.x >= LEFT_BOUNDARY + BALL_RADIUS);
        assert!(w.ball_transform.x <= RIGHT_BOUNDARY - BALL_RADIUS);
        assert!(w.player_transforms[0].x >= -77600 && w.player_transforms[0].x <= -8800);
        assert!(w.player_transforms[1].x >= 8800 && w.player_transforms[1].x <= 74400);
        let n0 = w.match_state.player_scores[0];
        let n1 = w.match_state.player_scores[1];
        assert!(n0 >= s0 && n1 >= s1);
        assert!(n0 + n1 <= s0 + s1 + 1);
    }
}

#[test]
fn finished_match_freezes_everything_but_visibility() {
    let mut w = World::new();
    w.match_state.player_scores = [15, 3];
    let before = w;
    let mut inputs = MatchInputs::default();
    inputs.get_control_mut(0).right = 63;
    inputs.get_control_mut(1).jump_pressed = true;
    inputs.get_control_mut(1).jump_just_pressed = true;
    for _ in 0..10 {
        step(&mut w, &inputs);
        assert_eq!(w.match_state, before.match_state);
        assert_eq!(w.ball, before.ball);
        assert_eq!(w.ball_transform, before.ball_transform);
        assert_eq!(w.players, before.players);
        assert_eq!(w.player_transforms, before.player_transforms);
        assert!(!w.ball_visible);
    }
}

#[test]
fn match_finishes_at_target_score() {
    // Drop the ball straight down on one side over and over: the left
    // player scores each time until the target ends the match.
    let mut w = World::new();
    let inputs = MatchInputs::default();
    let mut guard = 0;
    while !w.match_state.player_scores.iter().any(|s| *s >= 15) {
        w.ball_transform = Transform { x: 8000, y: -38240 };
        w.ball.velocity = Vec2 { x: 0, y: -800 };
        step(&mut w, &inputs);
        guard += 1;
        assert!(guard < 100);
    }
    assert_eq!(w.match_state.player_scores, [15, 0]);
    // Once finished, another drop changes nothing.
    let frozen = w.match_state;
    w.ball_transform = Transform { x: 8000, y: -38240 };
    w.ball.velocity = Vec2 { x: 0, y: -800 };
    let pos = w.ball_transform;
    step(&mut w, &inputs);
    assert_eq!(w.match_state, frozen);
    assert_eq!(w.ball_transform, pos);
}

#[test]
fn escape_detected_from_either_player() {
    let mut inputs = MatchInputs::default();
    assert!(!escape_requested(&inputs));
    inputs.get_control_mut(1).esc_start_just_pressed = true;
    assert!(escape_requested(&inputs));
    let mut inputs2 = MatchInputs::default();
    inputs2.get_control_mut(0).esc_start_just_pressed = true;
    assert!(escape_requested(&inputs2));
}
