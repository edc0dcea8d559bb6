use vstd::prelude::*;

verus! {

/// Errors of the game logic.
#[derive(Clone, Copy, Debug, PartialEq, Eq, Structural)]
pub enum GameError {
    /// The user does not belong to the game.
    ForeignGame { user: u64, game: u64 },
}

} // verus!
