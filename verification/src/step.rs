//! The tick orchestrator: one `step` advances the world by one simulated
//! frame, running the stages in the fixed order the engine guarantees —
//! player movement, ball movement with scoring, ball–player collision,
//! ball–net collision, ball visibility. `spec_step` is the mathematical
//! transition function; `step` computes exactly it, which is the replay
//! determinism the rollback host depends on.

use vstd::prelude::*;
use crate::ball::spec_ball_movement;
use crate::ball::spec_ball_net_collision;
use crate::ball::spec_update_ball_visibility;
use crate::ball::ball_movement;
use crate::ball::ball_net_collision;
use crate::ball::lemma_ball_net_collision_wf;
use crate::ball::lemma_ball_phase_wf;
use crate::ball::update_ball_visibility;
use crate::consts::BALL_RADIUS;
use crate::consts::CEILING;
use crate::consts::GROUND_LEVEL;
use crate::consts::LEFT_BOUNDARY;
use crate::consts::MAX_BALL_SPEED;
use crate::consts::RIGHT_BOUNDARY;
use crate::input::MatchInputs;
use crate::player::ball_player_collision;
use crate::player::lemma_ball_player_collision_wf;
use crate::player::lemma_player_step_wf;
use crate::player::player_movement;
use crate::player::spec_ball_player_collision;
use crate::player::spec_player_movement;
use crate::world::player_x_max;
use crate::world::player_x_min;
use crate::world::World;

verus! {

/// The world advanced by one tick under the tick's frozen inputs.
pub open spec fn spec_step(w: World, inputs: MatchInputs) -> World {
    spec_update_ball_visibility(spec_ball_net_collision(spec_ball_player_collision(
        spec_ball_movement(spec_player_movement(w, inputs)))))
}

/// Advances the world by one tick: the fixed stage order above, each
/// stage reading the state the previous one left. The result is exactly
/// `spec_step` of the prior state — the step is a pure function of
/// (snapshot, inputs), so re-simulating from a saved snapshot gives
/// bit-identical results.
pub fn step(world: &mut World, player_inputs: &MatchInputs)
    requires
        old(world).wf(),
    ensures
        *final(world) == spec_step(*old(world), *player_inputs),
        final(world).wf(),
{
    player_movement(world, player_inputs);
    ball_movement(world);
    ball_player_collision(world);
    ball_net_collision(world);
    update_ball_visibility(world);
}

/// The world after running `step` once for each input vector in turn.
pub open spec fn spec_run(w: World, inputs: Seq<MatchInputs>) -> World
    decreases inputs.len(),
{
    if inputs.len() == 0 {
        w
    } else {
        spec_run(spec_step(w, inputs[0]), inputs.drop_first())
    }
}

/// Re-simulates a whole stretch of ticks from a snapshot, one `step`
/// per input vector — the operation a rollback host performs when a
/// remote input arrives late.
pub fn replay(world: &mut World, inputs: &Vec<MatchInputs>)
    requires
        old(world).wf(),
    ensures
        *final(world) == spec_run(*old(world), inputs@),
        final(world).wf(),
{
    let ghost orig = *world;
    let n = inputs.len();
    let mut i: usize = 0;
    proof {
        assert(inputs@.skip(0) =~= inputs@);
    }
    while i < n
        invariant
            i <= n,
            n == inputs@.len(),
            world.wf(),
            spec_run(orig, inputs@) == spec_run(*world, inputs@.skip(i as int)),
        decreases n - i,
    {
        let ghost before = *world;
        let ci = inputs[i];
        step(world, &ci);
        proof {
            assert(inputs@.skip(i as int)[0] == inputs@[i as int]);
            assert(inputs@.skip(i as int).drop_first() =~= inputs@.skip(i as int + 1));
        }
        i = i + 1;
    }
    proof {
        assert(inputs@.skip(n as int).len() == 0);
    }
}

/// Replay determinism: from equal snapshots, equal input sequences give
/// bit-identical resulting states, however often the run is repeated —
/// the transition is a mathematical function of (snapshot, inputs)
/// alone.
pub proof fn lemma_replay_deterministic(w1: World, w2: World, inputs1: Seq<MatchInputs>,
    inputs2: Seq<MatchInputs>)
    requires
        w1 == w2,
        inputs1 == inputs2,
    ensures
        spec_run(w1, inputs1) == spec_run(w2, inputs2),
{
}

/// One tick preserves the well-formedness of the world.
pub proof fn lemma_step_preserves_wf(w: World, inputs: MatchInputs)
    requires
        w.wf(),
    ensures
        spec_step(w, inputs).wf(),
{
    let w1 = spec_player_movement(w, inputs);
    if !w.match_state.spec_is_finished() {
        lemma_player_step_wf(w.players[0], w.player_transforms[0], inputs.players[0], 0);
        lemma_player_step_wf(w.players[1], w.player_transforms[1], inputs.players[1], 1);
    }
    assert(w1.wf());
    let w2 = spec_ball_movement(w1);
    if !w1.match_state.spec_is_finished() {
        lemma_ball_phase_wf(w1.ball, w1.ball_transform, w1.match_state);
    }
    assert(w2.wf());
    lemma_ball_player_collision_wf(w2);
    let w3 = spec_ball_player_collision(w2);
    lemma_ball_net_collision_wf(w3);
}

/// Speed bound: after any tick the ball's squared speed is within
/// `MAX_BALL_SPEED` squared.
pub proof fn lemma_ball_speed_bounded(w: World, inputs: MatchInputs)
    requires
        w.wf(),
    ensures
        spec_step(w, inputs).ball.velocity.speed_sq()
            <= MAX_BALL_SPEED * MAX_BALL_SPEED,
{
    lemma_step_preserves_wf(w, inputs);
}

/// Boundary containment: after any tick the ball's center stays within
/// the playfield shrunk by the ball's radius, and each player stays
/// within that player's half-court.
pub proof fn lemma_boundary_containment(w: World, inputs: MatchInputs)
    requires
        w.wf(),
    ensures
        LEFT_BOUNDARY + BALL_RADIUS <= spec_step(w, inputs).ball_transform.x
            <= RIGHT_BOUNDARY - BALL_RADIUS,
        GROUND_LEVEL + BALL_RADIUS < spec_step(w, inputs).ball_transform.y
            <= CEILING - BALL_RADIUS,
        player_x_min(0) <= spec_step(w, inputs).player_transforms[0].x <= player_x_max(0),
        player_x_min(1) <= spec_step(w, inputs).player_transforms[1].x <= player_x_max(1),
        spec_step(w, inputs).player_transforms[0].y >= GROUND_LEVEL,
        spec_step(w, inputs).player_transforms[1].y >= GROUND_LEVEL,
{
    lemma_step_preserves_wf(w, inputs);
}

/// Score monotonicity: a tick never lowers a score, never touches the
/// target, and raises the score total by at most one — so at most one
/// player's score increments per tick.
pub proof fn lemma_scores_monotonic(w: World, inputs: MatchInputs)
    requires
        w.wf(),
    ensures
        spec_step(w, inputs).match_state.player_scores[0] >= w.match_state.player_scores[0],
        spec_step(w, inputs).match_state.player_scores[1] >= w.match_state.player_scores[1],
        spec_step(w, inputs).match_state.player_scores[0]
            + spec_step(w, inputs).match_state.player_scores[1]
            <= w.match_state.player_scores[0] + w.match_state.player_scores[1] + 1,
        spec_step(w, inputs).match_state.target_score == w.match_state.target_score,
{
    let w1 = spec_player_movement(w, inputs);
    if !w.match_state.spec_is_finished() {
        lemma_player_step_wf(w.players[0], w.player_transforms[0], inputs.players[0], 0);
        lemma_player_step_wf(w.players[1], w.player_transforms[1], inputs.players[1], 1);
    }
    let w2 = spec_ball_movement(w1);
    if !w1.match_state.spec_is_finished() {
        lemma_ball_phase_wf(w1.ball, w1.ball_transform, w1.match_state);
    }
    lemma_ball_player_collision_wf(w2);
    let w3 = spec_ball_player_collision(w2);
    lemma_ball_net_collision_wf(w3);
}

/// Win exclusivity: once the match is finished, a tick changes nothing
/// but the cosmetic visibility of the ball — scores, positions and
/// velocities all stay as they are.
pub proof fn lemma_finished_freezes_match(w: World, inputs: MatchInputs)
    requires
        w.wf(),
        w.match_state.spec_is_finished(),
    ensures
        spec_step(w, inputs) == (World { ball_visible: false, ..w }),
{
}

/// Win exclusivity over a whole run: once the match is finished, any
/// number of further ticks leaves the scores, the ball and both players
/// exactly as they are; only the ball's cosmetic visibility can change.
pub proof fn lemma_finished_freezes_forever(w: World, inputs: Seq<MatchInputs>)
    requires
        w.wf(),
        w.match_state.spec_is_finished(),
    ensures
        spec_run(w, inputs).match_state == w.match_state,
        spec_run(w, inputs).ball == w.ball,
        spec_run(w, inputs).ball_transform == w.ball_transform,
        spec_run(w, inputs).players == w.players,
        spec_run(w, inputs).player_transforms == w.player_transforms,
    decreases inputs.len(),
{
    if inputs.len() > 0 {
        lemma_finished_freezes_match(w, inputs[0]);
        lemma_step_preserves_wf(w, inputs[0]);
        lemma_finished_freezes_forever(spec_step(w, inputs[0]), inputs.drop_first());
    }
}

/// Score monotonicity over a whole run: scores never decrease and the
/// target never changes, over any number of ticks.
pub proof fn lemma_run_scores_monotonic(w: World, inputs: Seq<MatchInputs>)
    requires
        w.wf(),
    ensures
        spec_run(w, inputs).match_state.player_scores[0] >= w.match_state.player_scores[0],
        spec_run(w, inputs).match_state.player_scores[1] >= w.match_state.player_scores[1],
        spec_run(w, inputs).match_state.target_score == w.match_state.target_score,
    decreases inputs.len(),
{
    if inputs.len() > 0 {
        lemma_scores_monotonic(w, inputs[0]);
        lemma_step_preserves_wf(w, inputs[0]);
        lemma_run_scores_monotonic(spec_step(w, inputs[0]), inputs.drop_first());
    }
}

/// True when either player pressed escape/start on this tick; the host
/// then tears the gameplay session down and returns to the menu.
pub fn escape_requested(match_inputs: &MatchInputs) -> (r: bool)
    ensures
        r == (match_inputs.players[0].esc_start_just_pressed
            || match_inputs.players[1].esc_start_just_pressed),
{
    let mut requested = false;
    let mut player_idx: usize = 0;
    while player_idx < 2
        invariant
            player_idx <= 2,
            requested == exists|i: int|
                0 <= i < player_idx && #[trigger] match_inputs.players[i].esc_start_just_pressed,
        decreases 2 - player_idx,
    {
        if match_inputs.players[player_idx].esc_start_just_pressed {
            requested = true;
        }
        player_idx = player_idx + 1;
    }
    requested
}

} // verus!
