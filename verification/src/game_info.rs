use vstd::prelude::*;

use crate::board::{
    BoardCell, PlayerPosition, TTTBoard, BOARD_PROTO_SIZE, PLAYERS_SIZE,
};
use crate::bot::{BotDifficulty, Strategy};
use crate::tic_tac_toe::{GameState, TicTacToe};

verus! {

/// Why a game description received from the server cannot be used.
#[derive(Clone, Debug)]
pub enum ProtobufError {
    /// A required field of the message is absent.
    MessageDataMissing { missing_field: String },
    /// The message does not list exactly one player per position.
    InvalidPlayersLength { expected: usize, found: usize },
    /// The board does not hold exactly one value per cell.
    InvalidBoardLength { expected: usize, found: usize },
}

/// Description of a game stored on the server.
#[derive(Clone, Copy, Debug)]
pub struct GameInfo {
    pub id: u64,
    pub players: [u64; 2],
    pub state: GameState,
}

impl GameInfo {
    /// Id of the user that plays at position `game_player_id`.
    pub fn get_user_id(&self, game_player_id: PlayerPosition) -> (r: Option<u64>)
        ensures
            game_player_id < 2 ==> r == Some(self.players@[game_player_id as int]),
            game_player_id >= 2 ==> r is None,
    {
        let i = game_player_id as usize;
        if i < PLAYERS_SIZE {
            Some(self.players[i])
        } else {
            None
        }
    }

    /// Game info built from the fields of a server message: its id, the list of player ids
    /// (one per position) and its decoded state, absent when the message had none.
    pub fn try_from_parts(game_id: u64, players: Vec<u64>, state: Option<GameState>) -> (r: Result<
        GameInfo,
        ProtobufError,
    >)
        ensures
            state is None ==> (r matches Err(ProtobufError::MessageDataMissing { missing_field })
                && missing_field@ == "game_state"@),
            state is Some && players@.len() != 2 ==> (r matches Err(
                ProtobufError::InvalidPlayersLength { expected, found },
            ) && expected == 2 && found == players@.len()),
            r is Ok <==> state is Some && players@.len() == 2,
            r matches Ok(info) ==> info.id == game_id && info.players@ == players@ && Some(
                info.state,
            ) == state,
    {
        let state = match state {
            Some(s) => s,
            None => {
                return Err(
                    ProtobufError::MessageDataMissing { missing_field: "game_state".to_owned() },
                );
            },
        };
        if players.len() != PLAYERS_SIZE {
            return Err(
                ProtobufError::InvalidPlayersLength { expected: PLAYERS_SIZE, found: players.len() },
            );
        }
        let arr: [u64; 2] = [players[0], players[1]];
        assert(arr@ =~= players@);
        Ok(GameInfo { id: game_id, players: arr, state })
    }
}

/// Game info together with the board of the game.
#[derive(Clone, Debug)]
pub struct FullGameInfo {
    pub info: GameInfo,
    pub board: TTTBoard,
}

impl FullGameInfo {
    /// Full game info built from the fields of a server message; `board` holds the decoded
    /// cells row by row.
    pub fn try_from_parts(
        game_id: u64,
        players: Vec<u64>,
        state: Option<GameState>,
        board: Vec<BoardCell>,
    ) -> (r: Result<FullGameInfo, ProtobufError>)
        ensures
            state is None ==> (r matches Err(ProtobufError::MessageDataMissing { missing_field })
                && missing_field@ == "game_state"@),
            state is Some && players@.len() != 2 ==> (r matches Err(
                ProtobufError::InvalidPlayersLength { expected, found },
            ) && expected == 2 && found == players@.len()),
            state is Some && players@.len() == 2 && board@.len() == 0 ==> (r matches Err(
                ProtobufError::MessageDataMissing { missing_field },
            ) && missing_field@ == "board"@),
            state is Some && players@.len() == 2 && board@.len() != 0 && board@.len() != 9 ==> (r
                matches Err(ProtobufError::InvalidBoardLength { expected, found }) && expected
                == 9 && found == board@.len()),
            r is Ok <==> state is Some && players@.len() == 2 && board@.len() == 9,
            r matches Ok(full) ==> full.info.id == game_id && full.info.players@ == players@
                && Some(full.info.state) == state && full.board@ == board@,
    {
        let info = match GameInfo::try_from_parts(game_id, players, state) {
            Ok(info) => info,
            Err(e) => {
                return Err(e);
            },
        };
        if board.len() == 0 {
            return Err(ProtobufError::MessageDataMissing { missing_field: "board".to_owned() });
        }
        let len = board.len();
        if len != BOARD_PROTO_SIZE {
            return Err(ProtobufError::InvalidBoardLength { expected: BOARD_PROTO_SIZE, found: len });
        }
        match TTTBoard::from_cells(board) {
            Some(b) => Ok(FullGameInfo { info, board: b }),
            None => Err(ProtobufError::InvalidBoardLength { expected: BOARD_PROTO_SIZE, found: len }),
        }
    }
}

/// Who the opponent of the user is.
#[derive(Clone, Copy, Debug, PartialEq, Eq, Structural)]
pub enum EnemyType {
    User(u64),
    Bot { strategy: Strategy, difficulty: Option<BotDifficulty> },
}

/// Data needed to create a tic-tac-toe game entity.
#[derive(Debug)]
pub struct CreateGameContext {
    pub enemy: EnemyType,
    pub user_first: bool,
    pub game: Option<TicTacToe>,
}

impl Clone for CreateGameContext {
    fn clone(&self) -> (r: CreateGameContext)
        ensures
            r.enemy == self.enemy,
            r.user_first == self.user_first,
            r.game is Some <==> self.game is Some,
            r.game is Some ==> r.game->0@ == self.game->0@,
    {
        let game = match &self.game {
            Some(g) => Some(g.clone()),
            None => None,
        };
        CreateGameContext { enemy: self.enemy, user_first: self.user_first, game }
    }
}

/// Context for a user taking part in a network game described by `info`: the opponent is the
/// other player, and the user goes first if he holds the first position.
pub open spec fn context_from_info(user: u64, info: GameInfo) -> Option<(EnemyType, bool)> {
    if info.players@[0] == user {
        Some((EnemyType::User(info.players@[1]), true))
    } else if info.players@[1] == user {
        Some((EnemyType::User(info.players@[0]), false))
    } else {
        None
    }
}

impl CreateGameContext {
    pub fn new(enemy: EnemyType, user_first: bool, game: Option<TicTacToe>) -> (r: Self)
        ensures
            r.enemy == enemy,
            r.user_first == user_first,
            r.game == game,
    {
        CreateGameContext { enemy, user_first, game }
    }

    /// Context for `user` in the game described by `game_info`; `None` when the user does not
    /// play in it.
    pub fn new_from_game_info(user: u64, game_info: GameInfo) -> (r: Option<Self>)
        ensures
            match context_from_info(user, game_info) {
                Some((enemy, first)) => (r matches Some(ctx) && ctx.enemy == enemy
                    && ctx.user_first == first && ctx.game is None),
                None => r is None,
            },
    {
        let p0 = game_info.players[0];
        let p1 = game_info.players[1];
        let (enemy, user_first) = if p0 == user {
            (p1, true)
        } else if p1 == user {
            (p0, false)
        } else {
            return None;
        };
        Some(CreateGameContext { enemy: EnemyType::User(enemy), user_first, game: None })
    }

    /// Like [`Self::new_from_game_info`], with the game restored from the board and the state
    /// that the server holds.
    pub fn new_from_full_game_info(user: u64, game_info: FullGameInfo) -> (r: Option<Self>)
        ensures
            match context_from_info(user, game_info.info) {
                Some((enemy, first)) => (r matches Some(ctx) && ctx.enemy == enemy
                    && ctx.user_first == first && (ctx.game matches Some(g) && g@ == (
                    game_info.board@,
                    game_info.info.state,
                ))),
                None => r is None,
            },
    {
        let FullGameInfo { info, board } = game_info;
        let mut ttt = TicTacToe::new();
        ttt.set_state(info.state);
        ttt.set_board(board);
        match Self::new_from_game_info(user, info) {
            Some(mut ctx) => {
                ctx.game = Some(ttt);
                Some(ctx)
            },
            None => None,
        }
    }

    pub fn enemy(&self) -> (r: EnemyType)
        ensures
            r == self.enemy,
    {
        self.enemy
    }

    pub fn user_first(&self) -> (r: bool)
        ensures
            r == self.user_first,
    {
        self.user_first
    }

    pub fn game(&self) -> (r: Option<&TicTacToe>)
        ensures
            r is Some <==> self.game is Some,
            r is Some ==> *r->0 == self.game->0,
    {
        match &self.game {
            Some(g) => Some(g),
            None => None,
        }
    }
}

/// Receive the CreateGame reply of the server: the game created for `user`, as the id of the
/// game and the context to create it from; `None` when the user does not play in it.
pub fn create_reply_context(user: u64, info: GameInfo) -> (r: Option<(u64, CreateGameContext)>)
    ensures
        match context_from_info(user, info) {
            Some((enemy, first)) => (r matches Some((id, ctx)) && id == info.id && ctx.enemy
                == enemy && ctx.user_first == first && ctx.game is None),
            None => r is None,
        },
{
    let id = info.id;
    match CreateGameContext::new_from_game_info(user, info) {
        Some(ctx) => Some((id, ctx)),
        None => None,
    }
}

/// Receive the GetGame reply for the network game `pending_game` that the user joins: the
/// context to create it from, when the reply describes that game and the user plays in it;
/// a reply about another game is dropped.
pub fn join_reply_context(user: u64, pending_game: u64, info: FullGameInfo) -> (r: Option<
    CreateGameContext,
>)
    ensures
        info.info.id != pending_game ==> r is None,
        info.info.id == pending_game ==> match context_from_info(user, info.info) {
            Some((enemy, first)) => (r matches Some(ctx) && ctx.enemy == enemy && ctx.user_first
                == first && (ctx.game matches Some(g) && g@ == (info.board@, info.info.state))),
            None => r is None,
        },
{
    if info.info.id != pending_game {
        return None;
    }
    CreateGameContext::new_from_full_game_info(user, info)
}

} // verus!
