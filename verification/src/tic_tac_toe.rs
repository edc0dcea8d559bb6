use vstd::prelude::*;

use crate::board::{
    empty_board, filled_count, filled_prefix, has_won, is_full, BoardCell, GridIndex,
    PlayerPosition, TTTBoard,
};

verus! {

/// How a finished game ended.
#[derive(Clone, Copy, Debug, PartialEq, Eq, Structural)]
pub enum FinishedState {
    Win(PlayerPosition),
    Draw,
}

/// State of a game: whose turn it is, or how it ended.
#[derive(Clone, Copy, Debug, PartialEq, Eq, Structural)]
pub enum GameState {
    Turn(PlayerPosition),
    Finished(FinishedState),
}

/// Why a move was rejected by the game rules.
#[derive(Clone, Copy, Debug, PartialEq, Eq, Structural)]
pub enum MoveError {
    /// The game is already finished.
    GameFinished,
    /// It is not the turn of the player that made the move.
    NotPlayerTurn,
    /// The position lies outside the board.
    InvalidPosition,
    /// The cell is already filled.
    CellOccupied,
}

impl MoveError {
    /// Human-readable description of the error.
    pub fn message(&self) -> (r: String)
        ensures
            r@ == self.spec_message(),
    {
        match self {
            MoveError::GameFinished => "game is finished".to_owned(),
            MoveError::NotPlayerTurn => "it is not the turn of this player".to_owned(),
            MoveError::InvalidPosition => "position is outside the board".to_owned(),
            MoveError::CellOccupied => "cell is already filled".to_owned(),
        }
    }

    pub open spec fn spec_message(self) -> Seq<char> {
        match self {
            MoveError::GameFinished => "game is finished"@,
            MoveError::NotPlayerTurn => "it is not the turn of this player"@,
            MoveError::InvalidPosition => "position is outside the board"@,
            MoveError::CellOccupied => "cell is already filled"@,
        }
    }
}

/// The player whose turn follows the turn of `p`.
pub open spec fn next_player(p: PlayerPosition) -> PlayerPosition {
    ((p + 1) % 2) as PlayerPosition
}

/// Board and state of a game.
pub type GameView = (Seq<BoardCell>, GameState);

/// The tic-tac-toe rules: what a move of `player` at `pos` does to a game.
pub open spec fn spec_update(g: GameView, player: PlayerPosition, pos: GridIndex) -> Result<
    GameView,
    MoveError,
> {
    let (board, state) = g;
    match state {
        GameState::Finished(_) => Err(MoveError::GameFinished),
        GameState::Turn(p) => {
            if p != player {
                Err(MoveError::NotPlayerTurn)
            } else if !pos.is_valid() {
                Err(MoveError::InvalidPosition)
            } else if board[pos.flat()].0 is Some {
                Err(MoveError::CellOccupied)
            } else {
                let b2 = board.update(pos.flat(), BoardCell(Some(player)));
                let s2 = if has_won(b2, player) {
                    GameState::Finished(FinishedState::Win(player))
                } else if is_full(b2) {
                    GameState::Finished(FinishedState::Draw)
                } else {
                    GameState::Turn(next_player(player))
                };
                Ok((b2, s2))
            }
        },
    }
}

/// A tic-tac-toe game: the board and the state.
#[derive(Debug)]
pub struct TicTacToe {
    board: TTTBoard,
    state: GameState,
}

impl View for TicTacToe {
    type V = GameView;

    closed spec fn view(&self) -> GameView {
        (self.board@, self.state)
    }
}

impl Clone for TicTacToe {
    fn clone(&self) -> (r: TicTacToe)
        ensures
            r@ == self@,
    {
        TicTacToe { board: self.board.clone(), state: self.state }
    }
}

impl Default for TicTacToe {
    fn default() -> (r: TicTacToe)
        ensures
            r@ == (empty_board(), GameState::Turn(0)),
    {
        TicTacToe::new()
    }
}

impl TicTacToe {
    /// A new game: empty board, first player's turn.
    pub fn new() -> (r: TicTacToe)
        ensures
            r@ == (empty_board(), GameState::Turn(0)),
    {
        TicTacToe { board: TTTBoard::new(), state: GameState::Turn(0) }
    }

    pub fn board(&self) -> (r: &TTTBoard)
        ensures
            r@ == self@.0,
    {
        &self.board
    }

    pub fn state(&self) -> (r: GameState)
        ensures
            r == self@.1,
    {
        self.state
    }

    pub fn set_state(&mut self, state: GameState)
        ensures
            final(self)@ == (old(self)@.0, state),
    {
        self.state = state;
    }

    pub fn set_board(&mut self, board: TTTBoard)
        ensures
            final(self)@ == (board@, old(self)@.1),
    {
        self.board = board;
    }

    /// Write `cell` at `pos` without consulting the rules (synchronisation with the server).
    pub fn set_cell(&mut self, pos: GridIndex, cell: BoardCell)
        requires
            pos.is_valid(),
        ensures
            final(self)@ == (old(self)@.0.update(pos.flat(), cell), old(self)@.1),
    {
        self.board.set(pos, cell);
    }

    /// Apply the move of `player` at `pos` by the rules of [`spec_update`]; a rejected move
    /// leaves the game unchanged.
    pub fn update(&mut self, player: PlayerPosition, pos: GridIndex) -> (r: Result<
        GameState,
        MoveError,
    >)
        ensures
            match spec_update(old(self)@, player, pos) {
                Ok(g) => r == Ok::<GameState, MoveError>(g.1) && final(self)@ == g,
                Err(e) => r == Err::<GameState, MoveError>(e) && final(self)@ == old(self)@,
            },
    {
        match self.state {
            GameState::Finished(_) => {
                return Err(MoveError::GameFinished);
            },
            GameState::Turn(p) => {
                if p != player {
                    return Err(MoveError::NotPlayerTurn);
                }
            },
        }
        if pos.row >= 3 || pos.col >= 3 {
            return Err(MoveError::InvalidPosition);
        }
        if self.board.get(pos).is_some() {
            return Err(MoveError::CellOccupied);
        }
        self.board.set(pos, BoardCell(Some(player)));
        let state = if self.board.player_has_line(player) {
            GameState::Finished(FinishedState::Win(player))
        } else if self.board.is_full() {
            GameState::Finished(FinishedState::Draw)
        } else {
            GameState::Turn(((player as u16 + 1) % 2) as u8)
        };
        self.state = state;
        Ok(state)
    }
}

/// A finished game rejects every move.
pub proof fn law_finished_game_rejects_moves(g: GameView, player: PlayerPosition, pos: GridIndex)
    requires
        g.1 is Finished,
    ensures
        spec_update(g, player, pos) == Err::<GameView, MoveError>(MoveError::GameFinished),
{
}

/// Filling an empty cell adds one to the number of filled cells among the first `n`, when the
/// cell is among them, and nothing otherwise.
proof fn lemma_filled_prefix_update(b: Seq<BoardCell>, i: int, c: BoardCell, n: int)
    requires
        0 <= i < b.len(),
        0 <= n <= b.len(),
        b[i].0 is None,
        c.0 is Some,
    ensures
        filled_prefix(b.update(i, c), n) == filled_prefix(b, n) + if i < n {
            1nat
        } else {
            0nat
        },
    decreases n,
{
    if n > 0 {
        lemma_filled_prefix_update(b, i, c, n - 1);
    }
}

/// A legal move fills exactly the chosen cell, which was empty, with the mover, leaves every
/// other cell as it was, and adds one to the number of filled cells.
pub proof fn law_move_fills_one_cell(g: GameView, player: PlayerPosition, pos: GridIndex)
    requires
        g.0.len() == 9,
        spec_update(g, player, pos) is Ok,
    ensures
        ({
            let g2 = spec_update(g, player, pos)->Ok_0;
            &&& g.0[pos.flat()].0 is None
            &&& g2.0[pos.flat()] == BoardCell(Some(player))
            &&& g2.0.len() == 9
            &&& forall|i: int| 0 <= i < 9 && i != pos.flat() ==> #[trigger] g2.0[i] == g.0[i]
            &&& filled_count(g2.0) == filled_count(g.0) + 1
        }),
{
    lemma_filled_prefix_update(g.0, pos.flat(), BoardCell(Some(player)), 9);
}

/// Only the player that just moved can win, and a win means a complete line of that player.
pub proof fn law_winner_made_the_last_move(
    g: GameView,
    player: PlayerPosition,
    pos: GridIndex,
    winner: PlayerPosition,
)
    requires
        spec_update(g, player, pos) is Ok,
        spec_update(g, player, pos)->Ok_0.1 == GameState::Finished(FinishedState::Win(winner)),
    ensures
        winner == player,
        has_won(spec_update(g, player, pos)->Ok_0.0, winner),
{
}

/// When a legal move does not end the game, the turn passes to the other player and the board
/// still has an empty cell.
pub proof fn law_turn_passes(g: GameView, player: PlayerPosition, pos: GridIndex)
    requires
        spec_update(g, player, pos) is Ok,
        spec_update(g, player, pos)->Ok_0.1 is Turn,
    ensures
        spec_update(g, player, pos)->Ok_0.1 == GameState::Turn(next_player(player)),
        !is_full(spec_update(g, player, pos)->Ok_0.0),
        !has_won(spec_update(g, player, pos)->Ok_0.0, player),
{
}

/// A legal move after which the mover owns a complete line wins the game for the mover, even
/// when that move fills the last cell: the win is checked before the draw.
pub proof fn law_completed_line_wins(g: GameView, player: PlayerPosition, pos: GridIndex)
    requires
        spec_update(g, player, pos) is Ok,
        has_won(spec_update(g, player, pos)->Ok_0.0, player),
    ensures
        spec_update(g, player, pos)->Ok_0.1 == GameState::Finished(FinishedState::Win(player)),
{
}

/// A legal move ends in a draw exactly when it fills the board without giving the mover a line.
pub proof fn law_draw_is_a_full_board_without_line(
    g: GameView,
    player: PlayerPosition,
    pos: GridIndex,
)
    requires
        spec_update(g, player, pos) is Ok,
    ensures
        (spec_update(g, player, pos)->Ok_0.1 == GameState::Finished(FinishedState::Draw)) <==> (
        is_full(spec_update(g, player, pos)->Ok_0.0) && !has_won(
            spec_update(g, player, pos)->Ok_0.0,
            player,
        )),
{
}

/// Number of cells among the first `n` that hold player `p`.
pub open spec fn marks_prefix(b: Seq<BoardCell>, p: PlayerPosition, n: int) -> nat
    decreases n,
{
    if n <= 0 {
        0
    } else if b[n - 1] == BoardCell(Some(p)) {
        marks_prefix(b, p, n - 1) + 1
    } else {
        marks_prefix(b, p, n - 1)
    }
}

/// Number of cells of the board that hold player `p`.
pub open spec fn marks(b: Seq<BoardCell>, p: PlayerPosition) -> nat {
    marks_prefix(b, p, b.len() as int)
}

/// A game that can arise by play from a new game: nine cells holding only the two players,
/// the first player never behind and at most one mark ahead, and the turn held by the player
/// that is behind (the first player when the marks are even).
pub open spec fn is_balanced(g: GameView) -> bool {
    let (b, state) = g;
    &&& b.len() == 9
    &&& forall|i: int| 0 <= i < 9 ==> ((#[trigger] b[i]).0 matches Some(p) ==> p < 2)
    &&& (marks(b, 0) == marks(b, 1) || marks(b, 0) == marks(b, 1) + 1)
    &&& match state {
        GameState::Turn(p) => {
            &&& p < 2
            &&& p == 0 ==> marks(b, 0) == marks(b, 1)
            &&& p == 1 ==> marks(b, 0) == marks(b, 1) + 1
        },
        GameState::Finished(_) => true,
    }
}

/// Writing player `q`'s mark into an empty cell adds one mark of `q` among the first `n`
/// cells when the cell is among them, and changes the marks of other players in no way.
proof fn lemma_marks_prefix_update(b: Seq<BoardCell>, i: int, q: PlayerPosition, p: PlayerPosition, n: int)
    requires
        0 <= i < b.len(),
        0 <= n <= b.len(),
        b[i].0 is None,
    ensures
        marks_prefix(b.update(i, BoardCell(Some(q))), p, n) == marks_prefix(b, p, n) + if i < n
            && p == q {
            1nat
        } else {
            0nat
        },
    decreases n,
{
    if n > 0 {
        lemma_marks_prefix_update(b, i, q, p, n - 1);
    }
}

/// The empty board holds no mark of any player.
proof fn lemma_marks_prefix_empty(p: PlayerPosition, n: int)
    requires
        0 <= n <= 9,
    ensures
        marks_prefix(empty_board(), p, n) == 0,
    decreases n,
{
    if n > 0 {
        lemma_marks_prefix_empty(p, n - 1);
    }
}

/// A new game is balanced.
pub proof fn law_new_game_balanced()
    ensures
        is_balanced((empty_board(), GameState::Turn(0))),
{
    lemma_marks_prefix_empty(0, 9);
    lemma_marks_prefix_empty(1, 9);
}

/// Every legal move keeps a game balanced: players alternate, the first player starting.
pub proof fn law_move_keeps_balance(g: GameView, player: PlayerPosition, pos: GridIndex)
    requires
        is_balanced(g),
        spec_update(g, player, pos) is Ok,
    ensures
        is_balanced(spec_update(g, player, pos)->Ok_0),
{
    let (b, state) = g;
    let b2 = spec_update(g, player, pos)->Ok_0.0;
    lemma_marks_prefix_update(b, pos.flat(), player, 0, 9);
    lemma_marks_prefix_update(b, pos.flat(), player, 1, 9);
    assert forall|i: int| 0 <= i < 9 implies ((#[trigger] b2[i]).0 matches Some(p) ==> p < 2) by {
        if i != pos.flat() {
            assert(b2[i] == b[i]);
        }
    }
}

} // verus!
