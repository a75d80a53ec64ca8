use cornhacks24_game::menu::{buttons, press, starts_game, AppState, Button, MenuOutcome};

#[test]
fn game_opens_on_main_menu() {
    assert_eq!(AppState::initial(), AppState::MainMenu);
}

#[test]
fn buttons_of_each_screen() {
    assert_eq!(buttons(AppState::MainMenu), vec![Button::Start, Button::Options, Button::Exit]);
    assert_eq!(buttons(AppState::Options), vec![Button::MainMenu]);
    assert!(buttons(AppState::Game).is_empty());
}

#[test]
fn main_menu_clicks() {
    assert_eq!(press(AppState::MainMenu, Button::Start), MenuOutcome::Switch(AppState::Game));
    assert_eq!(press(AppState::MainMenu, Button::Options), MenuOutcome::Switch(AppState::Options));
    assert_eq!(press(AppState::MainMenu, Button::Exit), MenuOutcome::Quit);
    assert_eq!(press(AppState::MainMenu, Button::MainMenu), MenuOutcome::Stay);
}

#[test]
fn options_round_trip() {
    let MenuOutcome::Switch(s) = press(AppState::MainMenu, Button::Options) else { panic!() };
    assert_eq!(press(s, Button::MainMenu), MenuOutcome::Switch(AppState::MainMenu));
}

#[test]
fn hidden_buttons_do_nothing() {
    let all = [Button::Start, Button::Options, Button::Exit, Button::MainMenu];
    for state in [AppState::MainMenu, AppState::Options, AppState::Game] {
        let shown = buttons(state);
        for b in all {
            if !shown.contains(&b) {
                assert_eq!(press(state, b), MenuOutcome::Stay);
            }
        }
    }
}

#[test]
fn game_is_final() {
    for b in [Button::Start, Button::Options, Button::Exit, Button::MainMenu] {
        assert_eq!(press(AppState::Game, b), MenuOutcome::Stay);
    }
}

#[test]
fn only_the_game_starts_a_game() {
    assert!(starts_game(AppState::Game));
    assert!(!starts_game(AppState::MainMenu));
    assert!(!starts_game(AppState::Options));
}
