//! The menu's decision logic: navigation, option selection and the
//! transitions into and out of matchmaking. The host draws the menu and
//! supplies the per-frame control state and elapsed time; every decision
//! is computed here. Actions the host must perform (such as quitting)
//! are returned as values.

use vstd::prelude::*;
use crate::input::PlayerControl;
use crate::input::PlayerInputCollector;
use crate::input::RawControlState;
use crate::networking::NetworkGameState;
use crate::networking::NetworkGameStatus;

verus! {

/// Milliseconds of delay between two menu navigation steps.
pub const SCROLL_DELAY_MS: u64 = 200;

/// Which screen of the menu is shown.
#[derive(Clone, Copy, Debug, PartialEq, Eq, Structural)]
pub enum MenuState {
    MainMenu,
    OnlinePlayConfig,
}

/// The menu's persistent state.
#[derive(Clone, Copy, Debug, PartialEq, Eq, Structural)]
pub struct MenuData {
    pub state: MenuState,
    pub selected_option: usize,
    /// Milliseconds left until navigation reacts again.
    pub scroll_timer_ms: u64,
    /// Input delay the player configured for online play, in frames.
    pub input_delay_frames: usize,
}

impl Default for MenuData {
    fn default() -> (r: Self)
        ensures
            r == (MenuData {
                state: MenuState::MainMenu,
                selected_option: 0usize,
                scroll_timer_ms: 0u64,
                input_delay_frames: 2usize,
            }),
    {
        MenuData {
            state: MenuState::MainMenu,
            selected_option: 0,
            scroll_timer_ms: 0,
            input_delay_frames: 2,
        }
    }
}

/// Something the menu asks the host to do.
#[derive(Clone, Copy, Debug, PartialEq, Eq, Structural)]
pub enum MenuAction {
    /// Nothing beyond drawing the menu again.
    Stay,
    /// Quit the game: the player chose the exit option.
    ExitGame,
}

/// The menu state after one frame of navigation: the scroll timer runs
/// down by the elapsed time, and once it has run out, held directions
/// move the selection or adjust the configured input delay.
pub open spec fn spec_menu_navigation(data: MenuData, control: PlayerControl, delta_ms: u64)
    -> MenuData {
    let timer = if delta_ms >= data.scroll_timer_ms {
        0
    } else {
        (data.scroll_timer_ms - delta_ms) as u64
    };
    let ticked = MenuData { scroll_timer_ms: timer, ..data };
    if timer != 0 {
        ticked
    } else {
        match data.state {
            MenuState::MainMenu => {
                if control.up_pressed {
                    MenuData {
                        selected_option: if data.selected_option >= 1 {
                            (data.selected_option - 1) as usize
                        } else {
                            0
                        },
                        scroll_timer_ms: SCROLL_DELAY_MS,
                        ..data
                    }
                } else if control.down_pressed {
                    MenuData {
                        selected_option: if data.selected_option >= 1 {
                            1
                        } else {
                            (data.selected_option + 1) as usize
                        },
                        scroll_timer_ms: SCROLL_DELAY_MS,
                        ..data
                    }
                } else {
                    ticked
                }
            },
            MenuState::OnlinePlayConfig => {
                if control.left_pressed {
                    MenuData {
                        input_delay_frames: if data.input_delay_frames <= 1 {
                            1
                        } else {
                            (data.input_delay_frames - 1) as usize
                        },
                        scroll_timer_ms: SCROLL_DELAY_MS,
                        ..data
                    }
                } else if control.right_pressed {
                    MenuData {
                        input_delay_frames: if data.input_delay_frames >= 60 {
                            60
                        } else {
                            (data.input_delay_frames + 1) as usize
                        },
                        scroll_timer_ms: SCROLL_DELAY_MS,
                        ..data
                    }
                } else {
                    ticked
                }
            },
        }
    }
}

/// The menu and network state after one frame of selection handling,
/// applied to the state navigation left: confirming on the main menu
/// opens the online configuration or exits; confirming on the online
/// configuration starts the search; escape backs out of the
/// configuration, or cancels a running search.
pub open spec fn spec_menu_selection(data: MenuData, net: NetworkGameState,
    control: PlayerControl) -> (MenuData, NetworkGameState, MenuAction) {
    if net.status is Idle {
        if control.jump_just_pressed || control.enter_just_pressed {
            match data.state {
                MenuState::MainMenu => {
                    if data.selected_option == 0 {
                        (
                            MenuData {
                                state: MenuState::OnlinePlayConfig,
                                selected_option: 0usize,
                                ..data
                            },
                            net,
                            MenuAction::Stay,
                        )
                    } else if data.selected_option == 1 {
                        (data, net, MenuAction::ExitGame)
                    } else {
                        (data, net, MenuAction::Stay)
                    }
                },
                MenuState::OnlinePlayConfig => {
                    (
                        data,
                        NetworkGameState { status: NetworkGameStatus::Searching },
                        MenuAction::Stay,
                    )
                },
            }
        } else if control.esc_start_pressed {
            if data.state is OnlinePlayConfig {
                (
                    MenuData { state: MenuState::MainMenu, selected_option: 0usize, ..data },
                    net,
                    MenuAction::Stay,
                )
            } else {
                (data, net, MenuAction::Stay)
            }
        } else {
            (data, net, MenuAction::Stay)
        }
    } else {
        if control.esc_start_pressed {
            (
                MenuData { state: MenuState::MainMenu, ..data },
                NetworkGameState { status: NetworkGameStatus::Idle },
                MenuAction::Stay,
            )
        } else {
            (data, net, MenuAction::Stay)
        }
    }
}

/// One frame of the menu: navigation under the scroll timer, then
/// selection handling, exactly in that order.
pub open spec fn spec_menu_frame(data: MenuData, net: NetworkGameState,
    control: PlayerControl, delta_ms: u64) -> (MenuData, NetworkGameState, MenuAction) {
    spec_menu_selection(spec_menu_navigation(data, control, delta_ms), net, control)
}

/// Runs one frame of menu decisions against the player's control state
/// and the elapsed time, updating the menu and network state in place
/// and returning what the host must do.
pub fn menu_selection(menu_data: &mut MenuData, network_state: &mut NetworkGameState,
    player_control: &PlayerControl, delta_ms: u64) -> (r: MenuAction)
    ensures
        (*final(menu_data), *final(network_state), r)
            == spec_menu_frame(*old(menu_data), *old(network_state), *player_control,
                delta_ms),
{
    if delta_ms >= menu_data.scroll_timer_ms {
        menu_data.scroll_timer_ms = 0;
    } else {
        menu_data.scroll_timer_ms = menu_data.scroll_timer_ms - delta_ms;
    }
    if menu_data.scroll_timer_ms == 0 {
        match menu_data.state {
            MenuState::MainMenu => {
                if player_control.up_pressed {
                    menu_data.selected_option = if menu_data.selected_option >= 1 {
                        menu_data.selected_option - 1
                    } else {
                        0
                    };
                    menu_data.scroll_timer_ms = SCROLL_DELAY_MS;
                } else if player_control.down_pressed {
                    menu_data.selected_option = if menu_data.selected_option >= 1 {
                        1
                    } else {
                        menu_data.selected_option + 1
                    };
                    menu_data.scroll_timer_ms = SCROLL_DELAY_MS;
                }
            },
            MenuState::OnlinePlayConfig => {
                if player_control.left_pressed {
                    menu_data.input_delay_frames = if menu_data.input_delay_frames <= 1 {
                        1
                    } else {
                        menu_data.input_delay_frames - 1
                    };
                    menu_data.scroll_timer_ms = SCROLL_DELAY_MS;
                } else if player_control.right_pressed {
                    menu_data.input_delay_frames = if menu_data.input_delay_frames >= 60 {
                        60
                    } else {
                        menu_data.input_delay_frames + 1
                    };
                    menu_data.scroll_timer_ms = SCROLL_DELAY_MS;
                }
            },
        }
    }
    if network_state.status.is_idle() {
        if player_control.jump_just_pressed || player_control.enter_just_pressed {
            match menu_data.state {
                MenuState::MainMenu => {
                    if menu_data.selected_option == 0 {
                        menu_data.state = MenuState::OnlinePlayConfig;
                        menu_data.selected_option = 0;
                    } else if menu_data.selected_option == 1 {
                        return MenuAction::ExitGame;
                    }
                },
                MenuState::OnlinePlayConfig => {
                    network_state.status = NetworkGameStatus::Searching;
                },
            }
        } else if player_control.esc_start_pressed {
            if matches!(menu_data.state, MenuState::OnlinePlayConfig) {
                menu_data.state = MenuState::MainMenu;
                menu_data.selected_option = 0;
            }
        }
    } else {
        if player_control.esc_start_pressed {
            network_state.status = NetworkGameStatus::Idle;
            menu_data.state = MenuState::MainMenu;
        }
    }
    MenuAction::Stay
}

/// Feeds one frame of raw device state through the input collector:
/// apply the inputs, derive the edge-triggered flags, advance the frame.
pub fn handle_menu_input(input_collector: &mut PlayerInputCollector, raw: &RawControlState)
    ensures
        final(input_collector).current_controls == crate::input::spec_just_pressed(
            crate::input::spec_apply_raw(old(input_collector).current_controls, *raw),
            old(input_collector).last_controls),
        final(input_collector).last_controls == final(input_collector).current_controls,
{
    input_collector.apply_inputs(raw);
    input_collector.update_just_pressed();
    input_collector.advance_frame();
}

} // verus!
