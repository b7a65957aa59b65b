//! Score tracking and win detection.
//!
//! A match is in progress while neither player's score has reached the
//! target, and finished the instant one has. The transition is
//! one-directional: nothing ever decrements a score or un-finishes a
//! match, and the tick orchestrator suppresses all physics once a winner
//! exists, so the two scores can never both reach the target.

use vstd::prelude::*;

verus! {

/// The current state of the match: both players' scores and the score
/// needed to win.
#[derive(Clone, Copy, Debug, PartialEq, Eq)]
pub struct MatchState {
    pub player_scores: [u32; 2],
    pub target_score: u32,
}

impl MatchState {
    /// A match state is well formed when the target is positive, no
    /// score has passed the target, and at most one score has reached it.
    pub open spec fn wf(self) -> bool {
        &&& self.target_score >= 1
        &&& self.player_scores[0] <= self.target_score
        &&& self.player_scores[1] <= self.target_score
        &&& !(self.player_scores[0] >= self.target_score
            && self.player_scores[1] >= self.target_score)
    }

    /// True when some player has reached the target score.
    pub open spec fn spec_is_finished(self) -> bool {
        self.player_scores[0] >= self.target_score
            || self.player_scores[1] >= self.target_score
    }

    /// The winner, if any: the first index whose score has reached the
    /// target.
    pub open spec fn spec_winner(self) -> Option<usize> {
        if self.player_scores[0] >= self.target_score {
            Some(0usize)
        } else if self.player_scores[1] >= self.target_score {
            Some(1usize)
        } else {
            None
        }
    }

    /// The state with the given player's score incremented by one.
    pub open spec fn spec_incremented(self, player_idx: int) -> MatchState {
        MatchState {
            player_scores: if player_idx == 0 {
                [(self.player_scores[0] + 1) as u32, self.player_scores[1]]
            } else {
                [self.player_scores[0], (self.player_scores[1] + 1) as u32]
            },
            ..self
        }
    }

    /// A fresh match: both scores zero.
    pub fn new(target_score: u32) -> (r: Self)
        ensures
            r.player_scores[0] == 0,
            r.player_scores[1] == 0,
            r.target_score == target_score,
            target_score >= 1 ==> r.wf() && !r.spec_is_finished(),
    {
        MatchState { player_scores: [0, 0], target_score }
    }

    /// The score of the given player.
    pub fn get_player_score(&self, player_idx: usize) -> (r: u32)
        requires
            player_idx < 2,
        ensures
            r == self.player_scores[player_idx as int],
    {
        self.player_scores[player_idx]
    }

    /// Increments the score of the given player.
    pub fn increment_player_score(&mut self, player_idx: usize)
        requires
            player_idx < 2,
            old(self).player_scores[player_idx as int] < u32::MAX,
        ensures
            *final(self) == old(self).spec_incremented(player_idx as int),
    {
        if player_idx == 0 {
            self.player_scores = [self.player_scores[0] + 1, self.player_scores[1]];
        } else {
            self.player_scores = [self.player_scores[0], self.player_scores[1] + 1];
        }
    }

    /// The winner's index, if some score has reached the target.
    pub fn check_for_match_winner(&self) -> (r: Option<usize>)
        ensures
            r == self.spec_winner(),
            r is Some <==> self.spec_is_finished(),
    {
        if self.player_scores[0] >= self.target_score {
            Some(0)
        } else if self.player_scores[1] >= self.target_score {
            Some(1)
        } else {
            None
        }
    }

    /// True when the match is over.
    pub fn is_finished(&self) -> (r: bool)
        ensures
            r == self.spec_is_finished(),
    {
        self.player_scores[0] >= self.target_score
            || self.player_scores[1] >= self.target_score
    }
}

} // verus!
