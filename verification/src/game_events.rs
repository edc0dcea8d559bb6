use vstd::prelude::*;

use crate::board::PlayerPosition;
use crate::tic_tac_toe::GameState;

verus! {

// Entities of the ECS world are carried by their 64-bit identity.

/// Signals that all data required to create a game entity is ready.
#[derive(Clone, Copy, Debug, PartialEq, Eq, Structural)]
pub struct GameDataReady {
    pub id: Option<u64>,
    pub current_user: u64,
    pub context: u64,
}

impl GameDataReady {
    pub fn new(id: Option<u64>, current_user: u64, ctx: u64) -> (r: Self)
        ensures
            r == (GameDataReady { id, current_user, context: ctx }),
    {
        GameDataReady { id, current_user, context: ctx }
    }

    pub fn new_over_network(id: u64, current_user: u64, ctx: u64) -> (r: Self)
        ensures
            r == (GameDataReady { id: Some(id), current_user, context: ctx }),
    {
        Self::new(Some(id), current_user, ctx)
    }

    pub fn new_local(current_user: u64, ctx: u64) -> (r: Self)
        ensures
            r == (GameDataReady { id: None, current_user, context: ctx }),
    {
        Self::new(None, current_user, ctx)
    }
}

/// Signals that a bot is ready to make some action in a game.
#[derive(Clone, Copy, Debug, PartialEq, Eq, Structural)]
pub struct BotReady {
    pub bot: u64,
    pub game: u64,
    pub player_position: PlayerPosition,
}

impl BotReady {
    pub fn new(bot: u64, game: u64, player_position: PlayerPosition) -> (r: Self)
        ensures
            r == (BotReady { bot, game, player_position }),
    {
        BotReady { bot, game, player_position }
    }
}

/// Defines what actions should have their status reverted.
#[derive(Clone, Copy, Debug, PartialEq, Eq)]
pub enum ActionStatusRevertPolicy<T> {
    All,
    Single(T),
}

/// Signals that an action (or all waiting actions) of a game could not be confirmed.
#[derive(Clone, Copy, Debug)]
pub struct ActionConfirmationFailed<T> {
    pub game: u64,
    pub revert_policy: ActionStatusRevertPolicy<T>,
}

impl<T> ActionConfirmationFailed<T> {
    pub fn revert_all(game: u64) -> (r: Self)
        ensures
            r == (ActionConfirmationFailed::<T> {
                game,
                revert_policy: ActionStatusRevertPolicy::All,
            }),
    {
        ActionConfirmationFailed { game, revert_policy: ActionStatusRevertPolicy::All }
    }

    pub fn revert_single(game: u64, action: T) -> (r: Self)
        ensures
            r == (ActionConfirmationFailed { game, revert_policy: ActionStatusRevertPolicy::Single(action) }),
    {
        ActionConfirmationFailed { game, revert_policy: ActionStatusRevertPolicy::Single(action) }
    }

    pub fn game(&self) -> (r: u64)
        ensures
            r == self.game,
    {
        self.game
    }

    pub fn revert_policy(&self) -> (r: &ActionStatusRevertPolicy<T>)
        ensures
            *r == self.revert_policy,
    {
        &self.revert_policy
    }
}

/// Event data shared by the action events: the game, the player and the action.
#[derive(Clone, Copy, Debug, PartialEq, Eq)]
pub struct GameAction<T> {
    pub game: u64,
    pub player: PlayerPosition,
    pub action: T,
}

impl<T> GameAction<T> {
    pub fn new(game: u64, player: PlayerPosition, action: T) -> (r: Self)
        ensures
            r == (GameAction { game, player, action }),
    {
        GameAction { game, player, action }
    }

    pub fn game(&self) -> (r: u64)
        ensures
            r == self.game,
    {
        self.game
    }

    pub fn player(&self) -> (r: PlayerPosition)
        ensures
            r == self.player,
    {
        self.player
    }

    pub fn action(&self) -> (r: &T)
        ensures
            *r == self.action,
    {
        &self.action
    }
}

/// `player` wants to make a game action.
pub type ActionInitialized<T> = GameAction<T>;

/// A new pending action was added to the queue.
pub type ActionEnqueued<T> = GameAction<T>;

/// A pending action was confirmed.
pub type ActionConfirmed<T> = GameAction<T>;

/// An action of `player` was applied to the game.
pub type ActionApplied<T> = GameAction<T>;

/// A pending action failed to execute and was removed from the queue.
#[derive(Clone, Debug)]
pub struct ActionDropped<T> {
    pub game: u64,
    pub player: PlayerPosition,
    pub action: T,
    pub reason: String,
}

impl<T> ActionDropped<T> {
    pub fn new(game: u64, player: PlayerPosition, action: T, reason: String) -> (r: Self)
        ensures
            r.game == game,
            r.player == player,
            r.action == action,
            r.reason@ == reason@,
    {
        ActionDropped { game, player, action, reason }
    }

    pub fn reason(&self) -> (r: &String)
        ensures
            r@ == self.reason@,
    {
        &self.reason
    }
}

/// Signals that the game state is updated.
#[derive(Clone, Copy, Debug, PartialEq, Eq, Structural)]
pub struct StateUpdated {
    pub game: u64,
    pub state: GameState,
}

/// What a new game state announces.
#[derive(Clone, Copy, Debug, PartialEq, Eq, Structural)]
pub enum StateEvent {
    /// `player` is now authorized to make actions in the game.
    TurnStart { game: u64, player: PlayerPosition },
    /// The game is finished with a win of `player`.
    PlayerWon { game: u64, player: PlayerPosition },
    /// The game is finished with a draw.
    Draw { game: u64 },
}

/// Signals that the user id in the settings changed.
#[derive(Clone, Copy, Debug, PartialEq, Eq, Structural)]
pub struct UserIdChanged {
    pub new_user_id: Option<u64>,
}

impl UserIdChanged {
    pub fn new(user_id: Option<u64>) -> (r: Self)
        ensures
            r.new_user_id == user_id,
    {
        UserIdChanged { new_user_id: user_id }
    }

    pub fn new_user_id(&self) -> (r: Option<u64>)
        ensures
            r == self.new_user_id,
    {
        self.new_user_id
    }
}

/// An action of a game session, and the session entity it concerns.
#[derive(Clone, Copy, Debug, PartialEq, Eq)]
pub struct SessionAction<T> {
    pub session_entity: u64,
    pub action: T,
}

impl<T> SessionAction<T> {
    pub fn new(entity: u64, action: T) -> (r: Self)
        ensures
            r == (SessionAction { session_entity: entity, action }),
    {
        SessionAction { session_entity: entity, action }
    }

    pub fn session_entity(&self) -> (r: u64)
        ensures
            r == self.session_entity,
    {
        self.session_entity
    }

    pub fn action(&self) -> (r: &T)
        ensures
            *r == self.action,
    {
        &self.action
    }
}

/// An error occurred while sending an action over a game session.
pub type SessionActionSendFailed<T> = SessionAction<T>;

/// An action is ready to be sent to the server over a game session.
pub type SessionActionReadyToSend<T> = SessionAction<T>;

/// An action executed by the server, received over a game session.
#[derive(Clone, Copy, Debug, PartialEq, Eq)]
pub struct SessionUpdateReceived<T> {
    pub session_entity: u64,
    pub player: PlayerPosition,
    pub action: T,
}

impl<T> SessionUpdateReceived<T> {
    pub fn new(entity: u64, player: PlayerPosition, action: T) -> (r: Self)
        ensures
            r == (SessionUpdateReceived { session_entity: entity, player, action }),
    {
        SessionUpdateReceived { session_entity: entity, player, action }
    }

    pub fn session_entity(&self) -> (r: u64)
        ensures
            r == self.session_entity,
    {
        self.session_entity
    }

    pub fn player(&self) -> (r: PlayerPosition)
        ensures
            r == self.player,
    {
        self.player
    }

    pub fn action(&self) -> (r: &T)
        ensures
            *r == self.action,
    {
        &self.action
    }
}

/// An error sent by the server over a game session, and the session entity it concerns.
#[derive(Clone, Debug, PartialEq, Eq)]
pub struct SessionErrorReceived<E> {
    pub session_entity: u64,
    pub error: E,
}

impl<E> SessionErrorReceived<E> {
    pub fn new(entity: u64, error: E) -> (r: Self)
        ensures
            r == (SessionErrorReceived { session_entity: entity, error }),
    {
        SessionErrorReceived { session_entity: entity, error }
    }

    pub fn session_entity(&self) -> (r: u64)
        ensures
            r == self.session_entity,
    {
        self.session_entity
    }

    pub fn error(&self) -> (r: &E)
        ensures
            *r == self.error,
    {
        &self.error
    }
}

/// Request to open the game session of a game; `delayed` postpones the opening.
#[derive(Clone, Copy, Debug, PartialEq, Eq, Structural)]
pub struct OpenSession {
    pub game: u64,
    pub delayed: bool,
}

impl OpenSession {
    pub fn new(game: u64) -> (r: Self)
        ensures
            r == (OpenSession { game, delayed: false }),
    {
        OpenSession { game, delayed: false }
    }

    pub fn new_delayed(game: u64) -> (r: Self)
        ensures
            r == (OpenSession { game, delayed: true }),
    {
        OpenSession { game, delayed: true }
    }
}

} // verus!
