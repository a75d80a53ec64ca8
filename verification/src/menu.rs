//! The screens of the game and the buttons that move between them.

use vstd::prelude::*;

verus! {

/// The screen shown.
#[derive(Clone, Copy, PartialEq, Eq, Structural, Debug)]
pub enum AppState {
    MainMenu,
    Options,
    Game,
}

/// A button of the menus.
#[derive(Clone, Copy, PartialEq, Eq, Structural, Debug)]
pub enum Button {
    Start,
    Options,
    Exit,
    /// "Main menu", on the settings screen.
    MainMenu,
}

/// What a click leads to.
#[derive(Clone, Copy, PartialEq, Eq, Structural, Debug)]
pub enum MenuOutcome {
    /// Nothing changes.
    Stay,
    /// The game moves to another screen.
    Switch(AppState),
    /// The program ends.
    Quit,
}

impl AppState {
    /// The screen the game opens on.
    pub fn initial() -> (s: AppState)
        ensures
            s == AppState::MainMenu,
    {
        AppState::MainMenu
    }
}

/// The buttons a screen shows, top to bottom.
pub open spec fn buttons_spec(state: AppState) -> Seq<Button> {
    match state {
        AppState::MainMenu => seq![Button::Start, Button::Options, Button::Exit],
        AppState::Options => seq![Button::MainMenu],
        AppState::Game => Seq::empty(),
    }
}

/// What clicking `button` on the screen `state` leads to.
pub open spec fn press_spec(state: AppState, button: Button) -> MenuOutcome {
    match (state, button) {
        (AppState::MainMenu, Button::Start) => MenuOutcome::Switch(AppState::Game),
        (AppState::MainMenu, Button::Options) => MenuOutcome::Switch(AppState::Options),
        (AppState::MainMenu, Button::Exit) => MenuOutcome::Quit,
        (AppState::Options, Button::MainMenu) => MenuOutcome::Switch(AppState::MainMenu),
        _ => MenuOutcome::Stay,
    }
}

pub fn buttons(state: AppState) -> (b: Vec<Button>)
    ensures
        b@ == buttons_spec(state),
        state == AppState::MainMenu ==> b@ == seq![Button::Start, Button::Options, Button::Exit],
        state == AppState::Options ==> b@ == seq![Button::MainMenu],
        state == AppState::Game ==> b@.len() == 0,
{
    match state {
        AppState::MainMenu => vec![Button::Start, Button::Options, Button::Exit],
        AppState::Options => vec![Button::MainMenu],
        AppState::Game => Vec::new(),
    }
}

/// The effect of a click: a button that the screen does not show does nothing.
pub fn press(state: AppState, button: Button) -> (o: MenuOutcome)
    ensures
        o == press_spec(state, button),
        state == AppState::MainMenu && button == Button::Start ==> o == MenuOutcome::Switch(AppState::Game),
        state == AppState::MainMenu && button == Button::Options ==> o == MenuOutcome::Switch(AppState::Options),
        state == AppState::MainMenu && button == Button::Exit ==> o == MenuOutcome::Quit,
        state == AppState::Options && button == Button::MainMenu ==> o == MenuOutcome::Switch(AppState::MainMenu),
        o == MenuOutcome::Quit ==> button == Button::Exit,
        o != MenuOutcome::Stay ==> buttons_spec(state).contains(button),
{
    proof {
        if !buttons_spec(state).contains(button) {
            lemma_hidden_buttons_do_nothing(state, button);
        }
    }
    match (state, button) {
        (AppState::MainMenu, Button::Start) => MenuOutcome::Switch(AppState::Game),
        (AppState::MainMenu, Button::Options) => MenuOutcome::Switch(AppState::Options),
        (AppState::MainMenu, Button::Exit) => MenuOutcome::Quit,
        (AppState::Options, Button::MainMenu) => MenuOutcome::Switch(AppState::MainMenu),
        _ => MenuOutcome::Stay,
    }
}

/// Whether entering the screen starts a new game at the server.
pub fn starts_game(state: AppState) -> (b: bool)
    ensures
        b == (state == AppState::Game),
{
    match state {
        AppState::Game => true,
        _ => false,
    }
}

/// Only a button that the screen shows has an effect.
pub proof fn lemma_hidden_buttons_do_nothing(state: AppState, button: Button)
    requires
        !buttons_spec(state).contains(button),
    ensures
        press_spec(state, button) == MenuOutcome::Stay,
{
    if state == AppState::MainMenu {
        assert(buttons_spec(state)[0] == Button::Start);
        assert(buttons_spec(state)[1] == Button::Options);
        assert(buttons_spec(state)[2] == Button::Exit);
    } else if state == AppState::Options {
        assert(buttons_spec(state)[0] == Button::MainMenu);
    }
}

/// The clicks that change something: from the main menu, Start enters the
/// game, Options opens the settings and Exit quits; from the settings, Main
/// menu goes back. Only Exit quits.
pub proof fn lemma_clicks(state: AppState, button: Button)
    ensures
        press_spec(AppState::MainMenu, Button::Start) == MenuOutcome::Switch(AppState::Game),
        press_spec(AppState::MainMenu, Button::Exit) == MenuOutcome::Quit,
        press_spec(state, button) == MenuOutcome::Quit ==> state == AppState::MainMenu && button == Button::Exit,
        press_spec(state, button) matches MenuOutcome::Switch(next) ==> next != state,
{
}

/// Opening the settings and going back to the main menu returns to where the
/// game started.
pub proof fn lemma_options_round_trip()
    ensures
        press_spec(AppState::MainMenu, Button::Options) == MenuOutcome::Switch(AppState::Options),
        press_spec(AppState::Options, Button::MainMenu) == MenuOutcome::Switch(AppState::MainMenu),
{
}

/// The game, once entered, cannot be left through the menus.
pub proof fn lemma_game_is_final(button: Button)
    ensures
        press_spec(AppState::Game, button) == MenuOutcome::Stay,
{
}

} // verus!
