use volleyball_sim::input::PlayerControl;
use volleyball_sim::match_state::MatchState;
use volleyball_sim::menu::menu_selection;
use volleyball_sim::menu::MenuAction;
use volleyball_sim::menu::MenuData;
use volleyball_sim::menu::MenuState;
use volleyball_sim::networking::handle_online_menu_matchmaking;
use volleyball_sim::networking::MatchmakingAction;
use volleyball_sim::networking::NetworkGameState;
use volleyball_sim::networking::NetworkGameStatus;

#[test]
fn menu_navigation_with_scroll_delay() {
    let mut data = MenuData::default();
    let mut net = NetworkGameState::new();
    let mut c = PlayerControl::default();
    c.down_pressed = true;
    let a = menu_selection(&mut data, &mut net, &c, 16);
    assert_eq!(a, MenuAction::Stay);
    assert_eq!(data.selected_option, 1);
    assert_eq!(data.scroll_timer_ms, 200);
    // Within the scroll delay the selection does not move again.
    menu_selection(&mut data, &mut net, &c, 100);
    assert_eq!(data.selected_option, 1);
    assert_eq!(data.scroll_timer_ms, 100);
    // After the delay it reacts again, staying at the last option.
    menu_selection(&mut data, &mut net, &c, 150);
    assert_eq!(data.selected_option, 1);
    let mut up = PlayerControl::default();
    up.up_pressed = true;
    menu_selection(&mut data, &mut net, &up, 500);
    assert_eq!(data.selected_option, 0);
}

#[test]
fn menu_confirm_opens_online_config() {
    let mut data = MenuData::default();
    let mut net = NetworkGameState::new();
    let mut c = PlayerControl::default();
    c.enter_just_pressed = true;
    let a = menu_selection(&mut data, &mut net, &c, 16);
    assert_eq!(a, MenuAction::Stay);
    assert_eq!(data.state, MenuState::OnlinePlayConfig);
    assert!(net.status.is_idle());
}

#[test]
fn menu_exit_option_returns_exit_action() {
    let mut data = MenuData::default();
    data.selected_option = 1;
    let mut net = NetworkGameState::new();
    let mut c = PlayerControl::default();
    c.jump_just_pressed = true;
    let a = menu_selection(&mut data, &mut net, &c, 16);
    assert_eq!(a, MenuAction::ExitGame);
}

#[test]
fn online_config_adjusts_input_delay() {
    let mut data = MenuData::default();
    data.state = MenuState::OnlinePlayConfig;
    let mut net = NetworkGameState::new();
    let mut right = PlayerControl::default();
    right.right_pressed = true;
    menu_selection(&mut data, &mut net, &right, 16);
    assert_eq!(data.input_delay_frames, 3);
    let mut left = PlayerControl::default();
    left.left_pressed = true;
    menu_selection(&mut data, &mut net, &left, 300);
    menu_selection(&mut data, &mut net, &left, 300);
    menu_selection(&mut data, &mut net, &left, 300);
    // The delay never goes under one frame.
    assert_eq!(data.input_delay_frames, 1);
    menu_selection(&mut data, &mut net, &left, 300);
    assert_eq!(data.input_delay_frames, 1);
}

#[test]
fn online_config_confirm_starts_search_and_escape_cancels() {
    let mut data = MenuData::default();
    data.state = MenuState::OnlinePlayConfig;
    let mut net = NetworkGameState::new();
    let mut c = PlayerControl::default();
    c.enter_just_pressed = true;
    menu_selection(&mut data, &mut net, &c, 16);
    assert!(net.status.is_searching());
    // While matchmaking runs, escape backs out to the main menu.
    let mut esc = PlayerControl::default();
    esc.esc_start_pressed = true;
    menu_selection(&mut data, &mut net, &esc, 16);
    assert!(net.status.is_idle());
    assert_eq!(data.state, MenuState::MainMenu);
}

#[test]
fn escape_leaves_online_config_when_idle() {
    let mut data = MenuData::default();
    data.state = MenuState::OnlinePlayConfig;
    let mut net = NetworkGameState::new();
    let mut esc = PlayerControl::default();
    esc.esc_start_pressed = true;
    menu_selection(&mut data, &mut net, &esc, 16);
    assert_eq!(data.state, MenuState::MainMenu);
    assert_eq!(data.selected_option, 0);
}

#[test]
fn matchmaking_transitions() {
    let mut net = NetworkGameState { status: NetworkGameStatus::Searching };
    let a = handle_online_menu_matchmaking(&mut net, false);
    assert_eq!(a, MatchmakingAction::StartSearch);
    assert!(net.status.is_waiting_for_players());

    let a = handle_online_menu_matchmaking(&mut net, false);
    assert_eq!(a, MatchmakingAction::Wait);
    assert!(net.status.is_waiting_for_players());

    let a = handle_online_menu_matchmaking(&mut net, true);
    assert_eq!(a, MatchmakingAction::LaunchGame);
    assert!(net.status.is_idle());

    let a = handle_online_menu_matchmaking(&mut net, true);
    assert_eq!(a, MatchmakingAction::Wait);
    assert!(net.status.is_idle());
}

#[test]
fn network_state_constructors() {
    let mut s = NetworkGameState::default();
    assert!(s.status.is_idle());
    s.status = NetworkGameStatus::MatchFound;
    assert!(s.status.is_match_found());
    s.reset();
    assert!(s.status.is_idle());
}

#[test]
fn match_state_scores_and_winner() {
    let mut ms = MatchState::new(15);
    assert_eq!(ms.get_player_score(0), 0);
    assert_eq!(ms.get_player_score(1), 0);
    assert!(!ms.is_finished());
    assert_eq!(ms.check_for_match_winner(), None);
    for _ in 0..14 {
        ms.increment_player_score(1);
    }
    assert!(!ms.is_finished());
    ms.increment_player_score(1);
    assert!(ms.is_finished());
    assert_eq!(ms.check_for_match_winner(), Some(1));
    assert_eq!(ms.get_player_score(1), 15);
}

#[test]
fn match_state_first_winner_by_index() {
    let ms = MatchState { player_scores: [15, 15], target_score: 15 };
    assert_eq!(ms.check_for_match_winner(), Some(0));
}
