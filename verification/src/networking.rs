//! The matchmaking state machine of the online menu. The host performs
//! the network work — starting a search, polling for an opponent — and
//! reports back; every state transition is decided here.

use vstd::prelude::*;

verus! {

/// Where the matchmaking currently stands.
#[derive(Clone, Copy, Debug, PartialEq, Eq, Structural)]
pub enum NetworkGameStatus {
    Idle,
    Searching,
    WaitingForPlayers,
    MatchFound,
}

impl NetworkGameStatus {
    /// True if the status is MatchFound.
    pub fn is_match_found(&self) -> (r: bool)
        ensures
            r == (*self is MatchFound),
    {
        matches!(self, NetworkGameStatus::MatchFound)
    }

    /// True if the status is Idle.
    pub fn is_idle(&self) -> (r: bool)
        ensures
            r == (*self is Idle),
    {
        matches!(self, NetworkGameStatus::Idle)
    }

    /// True if the status is Searching.
    pub fn is_searching(&self) -> (r: bool)
        ensures
            r == (*self is Searching),
    {
        matches!(self, NetworkGameStatus::Searching)
    }

    /// True if the status is WaitingForPlayers.
    pub fn is_waiting_for_players(&self) -> (r: bool)
        ensures
            r == (*self is WaitingForPlayers),
    {
        matches!(self, NetworkGameStatus::WaitingForPlayers)
    }
}

/// The state of the network game.
#[derive(Clone, Copy, Debug, PartialEq, Eq, Structural)]
pub struct NetworkGameState {
    /// The current status of the matchmaking.
    pub status: NetworkGameStatus,
}

impl NetworkGameState {
    /// A fresh state, idle.
    pub fn new() -> (r: Self)
        ensures
            r.status is Idle,
    {
        NetworkGameState { status: NetworkGameStatus::Idle }
    }

    /// Puts the state back to idle.
    pub fn reset(&mut self)
        ensures
            final(self).status is Idle,
    {
        self.status = NetworkGameStatus::Idle;
    }
}

impl Default for NetworkGameState {
    fn default() -> (r: Self)
        ensures
            r.status is Idle,
    {
        NetworkGameState { status: NetworkGameStatus::Idle }
    }
}

/// Network work the host must perform after a matchmaking step.
#[derive(Clone, Copy, Debug, PartialEq, Eq, Structural)]
pub enum MatchmakingAction {
    /// Nothing this frame.
    Wait,
    /// Begin searching for an opponent on the matchmaking server.
    StartSearch,
    /// An opponent was found: build the session runner and start the
    /// gameplay session.
    LaunchGame,
}

/// The matchmaking transition: a searching state asks the host to start
/// the search and waits; a waiting state launches the game and resets to
/// idle once the host reports an opponent (the state passes through
/// MatchFound and is reset before the launch); anything else stays put.
pub open spec fn spec_matchmaking_step(s: NetworkGameState, match_ready: bool)
    -> (NetworkGameState, MatchmakingAction) {
    match s.status {
        NetworkGameStatus::Searching => (
            NetworkGameState { status: NetworkGameStatus::WaitingForPlayers },
            MatchmakingAction::StartSearch,
        ),
        NetworkGameStatus::WaitingForPlayers => {
            if match_ready {
                (
                    NetworkGameState { status: NetworkGameStatus::Idle },
                    MatchmakingAction::LaunchGame,
                )
            } else {
                (s, MatchmakingAction::Wait)
            }
        },
        NetworkGameStatus::MatchFound => (s, MatchmakingAction::Wait),
        NetworkGameStatus::Idle => (
            NetworkGameState { status: NetworkGameStatus::Idle },
            MatchmakingAction::Wait,
        ),
    }
}

/// Advances the matchmaking tied to the online menu by one frame.
/// `match_ready` reports whether the host's poll found an opponent.
pub fn handle_online_menu_matchmaking(network_state: &mut NetworkGameState,
    match_ready: bool) -> (r: MatchmakingAction)
    ensures
        (*final(network_state), r) == spec_matchmaking_step(*old(network_state), match_ready),
{
    match network_state.status {
        NetworkGameStatus::Searching => {
            network_state.status = NetworkGameStatus::WaitingForPlayers;
            MatchmakingAction::StartSearch
        },
        NetworkGameStatus::WaitingForPlayers => {
            if match_ready {
                network_state.status = NetworkGameStatus::MatchFound;
                network_state.reset();
                MatchmakingAction::LaunchGame
            } else {
                MatchmakingAction::Wait
            }
        },
        NetworkGameStatus::MatchFound => MatchmakingAction::Wait,
        NetworkGameStatus::Idle => {
            network_state.reset();
            MatchmakingAction::Wait
        },
    }
}

} // verus!
