use vstd::prelude::*;

use crate::bot::{BotDifficulty, Strategy};
use crate::game_info::{CreateGameContext, EnemyType};
use crate::small_lists::{
    difficulty_options, difficulty_options_contains, difficulty_options_new,
    difficulty_options_push, DifficultyOptions,
};

verus! {

/// Signals that the strategy setting was updated; stores the setting entity and the
/// [`BotDifficulty`] options available for the new strategy.
pub struct StrategyUpdated {
    setting: u64,
    difficulty_options: DifficultyOptions,
}

impl StrategyUpdated {
    /// The difficulties the new strategy supports.
    pub closed spec fn options(&self) -> Seq<BotDifficulty> {
        difficulty_options(self.difficulty_options)
    }

    pub closed spec fn spec_setting(&self) -> u64 {
        self.setting
    }

    pub fn new(setting: u64, options: DifficultyOptions) -> (r: Self)
        ensures
            r.spec_setting() == setting,
            r.options() == difficulty_options(options),
    {
        StrategyUpdated { setting, difficulty_options: options }
    }

    pub fn setting(&self) -> (r: u64)
        ensures
            r == self.spec_setting(),
    {
        self.setting
    }

    pub fn difficulty_supported(&self, difficulty: &BotDifficulty) -> (r: bool)
        ensures
            r == self.options().contains(*difficulty),
    {
        difficulty_options_contains(&self.difficulty_options, *difficulty)
    }
}

/// Difficulties for which a trained model is loaded, in the order easy, medium, hard.
pub open spec fn loaded_difficulties(easy: bool, medium: bool, hard: bool) -> Seq<BotDifficulty> {
    let s0 = Seq::<BotDifficulty>::empty();
    let s1 = if easy {
        s0.push(BotDifficulty::Easy)
    } else {
        s0
    };
    let s2 = if medium {
        s1.push(BotDifficulty::Medium)
    } else {
        s1
    };
    if hard {
        s2.push(BotDifficulty::Hard)
    } else {
        s2
    }
}

/// Difficulty options of a strategy: the Q-learning strategy offers the difficulties whose
/// model is loaded; other strategies (or none) offer no difficulty.
pub fn strategy_difficulty_options(
    strategy: Option<Strategy>,
    easy_loaded: bool,
    medium_loaded: bool,
    hard_loaded: bool,
) -> (r: DifficultyOptions)
    ensures
        difficulty_options(r) == if strategy == Some(Strategy::QLearning) {
            loaded_difficulties(easy_loaded, medium_loaded, hard_loaded)
        } else {
            Seq::<BotDifficulty>::empty()
        },
{
    let mut options = difficulty_options_new();
    match strategy {
        Some(Strategy::QLearning) => {
            if easy_loaded {
                difficulty_options_push(&mut options, BotDifficulty::Easy);
            }
            if medium_loaded {
                difficulty_options_push(&mut options, BotDifficulty::Medium);
            }
            if hard_loaded {
                difficulty_options_push(&mut options, BotDifficulty::Hard);
            }
        },
        _ => {},
    }
    options
}

/// The difficulty setting after a strategy update: it is reset when the new strategy does not
/// support the current difficulty.
pub fn difficulty_after_strategy_update(
    current: Option<BotDifficulty>,
    event: &StrategyUpdated,
) -> (r: Option<BotDifficulty>)
    ensures
        r == match current {
            Some(d) => if event.options().contains(d) {
                Some(d)
            } else {
                None
            },
            None => None,
        },
{
    match current {
        Some(d) => {
            if event.difficulty_supported(&d) {
                Some(d)
            } else {
                None
            }
        },
        None => None,
    }
}

/// Why a bot game cannot be created from the menu settings.
#[derive(Clone, Copy, Debug, PartialEq, Eq, Structural)]
pub enum BotGameError {
    StrategyNotSet,
    DifficultyNotSet,
}

/// Context of a bot game created from the menu settings: a strategy is needed, and a
/// difficulty too when the strategy has difficulties; the user plays first.
pub fn create_bot_game_context(
    strategy: Option<Strategy>,
    difficulty: Option<BotDifficulty>,
) -> (r: Result<CreateGameContext, BotGameError>)
    ensures
        strategy is None ==> r matches Err(BotGameError::StrategyNotSet),
        strategy == Some(Strategy::QLearning) && difficulty is None ==> r matches Err(
            BotGameError::DifficultyNotSet,
        ),
        r is Ok <==> (strategy is Some && !(strategy == Some(Strategy::QLearning)
            && difficulty is None)),
        r matches Ok(ctx) ==> ctx.enemy == (EnemyType::Bot { strategy: strategy->0, difficulty })
            && ctx.user_first && ctx.game is None,
{
    let strategy = match strategy {
        Some(s) => s,
        None => {
            return Err(BotGameError::StrategyNotSet);
        },
    };
    if strategy.has_difficulty() {
        if difficulty.is_none() {
            return Err(BotGameError::DifficultyNotSet);
        }
    }
    Ok(CreateGameContext::new(EnemyType::Bot { strategy, difficulty }, true, None))
}

/// Why a network game cannot be requested from the menu settings.
#[derive(Clone, Copy, Debug, PartialEq, Eq, Structural)]
pub enum NetworkGameError {
    NotLoggedIn,
    OpponentNotSet,
    NotConnected,
}

/// The `(user, opponent)` pair of a CreateGame request made from the menu: the user must be
/// logged in, the opponent set and the client connected, checked in that order.
pub fn network_game_request(
    user_id: Option<u64>,
    opponent: Option<u64>,
    client_connected: bool,
) -> (r: Result<(u64, u64), NetworkGameError>)
    ensures
        r == match (user_id, opponent) {
            (None, _) => Err(NetworkGameError::NotLoggedIn),
            (Some(_), None) => Err(NetworkGameError::OpponentNotSet),
            (Some(u), Some(o)) => if client_connected {
                Ok((u, o))
            } else {
                Err(NetworkGameError::NotConnected)
            },
        },
{
    let user = match user_id {
        Some(u) => u,
        None => {
            return Err(NetworkGameError::NotLoggedIn);
        },
    };
    let opponent = match opponent {
        Some(o) => o,
        None => {
            return Err(NetworkGameError::OpponentNotSet);
        },
    };
    if client_connected {
        Ok((user, opponent))
    } else {
        Err(NetworkGameError::NotConnected)
    }
}

/// Entity of the loaded network game with server id `game_id`, among `(entity, id)` pairs.
pub fn find_network_game(games: &Vec<(u64, u64)>, game_id: u64) -> (r: Option<u64>)
    ensures
        r matches Some(e) ==> exists|i: int|
            0 <= i < games@.len() && games@[i] == (e, game_id) && forall|j: int|
                0 <= j < i ==> (#[trigger] games@[j]).1 != game_id,
        r is None ==> forall|i: int| 0 <= i < games@.len() ==> (#[trigger] games@[i]).1 != game_id,
{
    let mut i: usize = 0;
    while i < games.len()
        invariant
            i <= games@.len(),
            forall|j: int| 0 <= j < i ==> (#[trigger] games@[j]).1 != game_id,
        decreases games@.len() - i,
    {
        let (entity, id) = games[i];
        if id == game_id {
            assert(games@[i as int] == (entity, game_id));
            return Some(entity);
        }
        i += 1;
    }
    None
}

/// What the game list of the menu shows or asks for.
#[derive(Clone, Debug)]
pub enum GameListAction {
    /// Request the games of this user from the server.
    Request(u64),
    /// Show this message in place of the list.
    Message(String),
}

/// The game list asks the server for the games of the logged-in user when the client is
/// connected, and shows why not otherwise.
pub fn game_list_action(user_id: Option<u64>, client_connected: bool) -> (r: GameListAction)
    ensures
        match user_id {
            None => r matches GameListAction::Message(m) && m@ == "No user id provided"@,
            Some(id) => if client_connected {
                r matches GameListAction::Request(u) && u == id
            } else {
                r matches GameListAction::Message(m) && m@ == "Server is down"@
            },
        },
{
    match user_id {
        None => GameListAction::Message("No user id provided".to_owned()),
        Some(id) => {
            if client_connected {
                GameListAction::Request(id)
            } else {
                GameListAction::Message("Server is down".to_owned())
            }
        },
    }
}

} // verus!
