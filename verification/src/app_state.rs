use vstd::prelude::*;

verus! {

/// Pages of the main menu.
#[derive(Clone, Copy, Debug, PartialEq, Eq, Structural, Hash)]
pub enum MenuState {
    Main,
    Game,
    PlayAgainstBot,
    PlayOverNetwork,
    Settings,
}

impl MenuState {
    /// Menu pages that lead into a game.
    pub open spec fn spec_is_game_menu(self) -> bool {
        self == MenuState::Game || self == MenuState::PlayOverNetwork || self
            == MenuState::PlayAgainstBot
    }

    pub fn is_game_menu(&self) -> (r: bool)
        ensures
            r == self.spec_is_game_menu(),
    {
        *self == MenuState::Game || *self == MenuState::PlayOverNetwork || *self
            == MenuState::PlayAgainstBot
    }
}

impl Default for MenuState {
    fn default() -> (r: MenuState)
        ensures
            r == MenuState::Main,
    {
        MenuState::Main
    }
}

/// Top-level state of the application.
#[derive(Clone, Copy, Debug, PartialEq, Eq, Structural, Hash)]
pub enum AppState {
    Menu(MenuState),
    Game,
    Paused,
}

impl Default for AppState {
    fn default() -> (r: AppState)
        ensures
            r == AppState::Menu(MenuState::Main),
    {
        AppState::Menu(MenuState::default())
    }
}

/// Requested transition to another application state, if any.
#[derive(Clone, Copy, Debug, PartialEq, Eq, Structural)]
pub struct AppStateTransition(pub Option<AppState>);

} // verus!
