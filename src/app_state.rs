//! The top-level screens of the program.
use vstd::prelude::*;

verus! {

/// Which screen the program is on. Camera control only runs in game.
#[derive(Clone, Copy, Debug, PartialEq, Eq, Structural, Hash)]
pub enum AppState {
    MainMenu,
    LoadingScreen,
    InGame,
}

impl Default for AppState {
    /// The program starts in game.
    fn default() -> (r: Self)
        ensures
            r == AppState::InGame,
    {
        AppState::InGame
    }
}

impl AppState {
    /// Camera look and movement run on this screen.
    pub fn controls_camera(&self) -> (r: bool)
        ensures
            r == (*self == AppState::InGame),
    {
        *self == AppState::InGame
    }
}

} // verus!
