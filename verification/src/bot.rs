use rand::rngs::ThreadRng;
use rand::Rng;
use vstd::prelude::*;
use vstd::string::StringExecFns;

use crate::board::{empty_cells, GridIndex, TTTBoard};

verus! {

/// Lower bound (inclusive) of the human-like delay before a bot acts, in milliseconds.
pub const MIN_ACTION_DELAY: u64 = 500;

/// Upper bound (exclusive) of the human-like delay before a bot acts, in milliseconds.
pub const MAX_ACTION_DELAY: u64 = 1500;

/// Difficulty of a bot.
#[derive(Clone, Copy, Debug, PartialEq, Eq, Structural, Hash)]
pub enum BotDifficulty {
    Easy,
    Medium,
    Hard,
}

impl BotDifficulty {
    /// Base name of the weights file of the model trained for this difficulty.
    pub fn filename(&self) -> (r: String)
        ensures
            r@ == self.spec_filename(),
    {
        match self {
            BotDifficulty::Easy => "easy".to_owned(),
            BotDifficulty::Medium => "medium".to_owned(),
            BotDifficulty::Hard => "hard".to_owned(),
        }
    }

    /// Name of the file that holds the weights of the model trained for this difficulty.
    pub fn weights_file_name(&self) -> (r: String)
        ensures
            r@ == self.spec_filename() + ".weights"@,
    {
        self.filename().concat(".weights")
    }

    pub open spec fn spec_filename(self) -> Seq<char> {
        match self {
            BotDifficulty::Easy => "easy"@,
            BotDifficulty::Medium => "medium"@,
            BotDifficulty::Hard => "hard"@,
        }
    }

    /// Name shown on the difficulty buttons.
    pub fn to_string(&self) -> (r: String)
        ensures
            r@ == match *self {
                BotDifficulty::Easy => "Easy"@,
                BotDifficulty::Medium => "Medium"@,
                BotDifficulty::Hard => "Hard"@,
            },
    {
        match self {
            BotDifficulty::Easy => "Easy".to_owned(),
            BotDifficulty::Medium => "Medium".to_owned(),
            BotDifficulty::Hard => "Hard".to_owned(),
        }
    }
}

/// The logic that is used to choose bot actions.
#[derive(Clone, Copy, Debug, PartialEq, Eq, Structural, Hash)]
pub enum Strategy {
    Random,
    QLearning,
}

impl Strategy {
    /// Whether the strategy needs a difficulty to choose its actions.
    pub fn has_difficulty(&self) -> (r: bool)
        ensures
            r == (*self == Strategy::QLearning),
    {
        match self {
            Strategy::Random => false,
            Strategy::QLearning => true,
        }
    }

    /// Name shown on the strategy buttons.
    pub fn to_string(&self) -> (r: String)
        ensures
            r@ == match *self {
                Strategy::Random => "Random"@,
                Strategy::QLearning => "QLearning"@,
            },
    {
        match self {
            Strategy::Random => "Random".to_owned(),
            Strategy::QLearning => "QLearning".to_owned(),
        }
    }
}

#[verifier::external_type_specification]
#[verifier::external_body]
pub struct ExThreadRng(ThreadRng);

/// Calls `rand::thread_rng`: the generator local to the current thread. Nothing is claimed of
/// its state.
#[verifier::external_body]
fn thread_rng() -> ThreadRng {
    rand::thread_rng()
}

/// Calls `Rng::gen_range` on `low..high`: a number drawn from the half-open range. The range
/// must not be empty, as `gen_range` panics on an empty range; which number comes out is left
/// to chance.
#[verifier::external_body]
fn gen_range(rng: &mut ThreadRng, low: u64, high: u64) -> (r: u64)
    requires
        low < high,
    ensures
        low <= r < high,
{
    rng.gen_range(low..high)
}

/// The empty cell number `draw` of the board, counting row by row from zero; `None` when the
/// board has fewer empty cells.
pub fn empty_cell_at(board: &TTTBoard, draw: u64) -> (r: Option<GridIndex>)
    ensures
        r == if draw < empty_cells(board@).len() {
            Some(empty_cells(board@)[draw as int])
        } else {
            None::<GridIndex>
        },
{
    let cells = board.empty_cells();
    if draw < cells.len() as u64 {
        Some(cells[draw as usize])
    } else {
        None
    }
}

/// Chooses a random empty cell of the board; `None` when the board has no empty cell.
pub fn get_random_action(board: &TTTBoard) -> (r: Option<GridIndex>)
    ensures
        r is None <==> empty_cells(board@).len() == 0,
        r matches Some(pos) ==> empty_cells(board@).contains(pos),
{
    let count = board.empty_cells().len();
    if count == 0 {
        return None;
    }
    let mut rng = thread_rng();
    let draw = gen_range(&mut rng, 0, count as u64);
    let r = empty_cell_at(board, draw);
    assert(r == Some(empty_cells(board@)[draw as int]));
    r
}

/// Chooses a random empty cell of a board that has one (the move of the random strategy).
pub fn get_random_position(board: &TTTBoard) -> (r: GridIndex)
    requires
        empty_cells(board@).len() > 0,
    ensures
        empty_cells(board@).contains(r),
{
    get_random_action(board).unwrap()
}

/// A random delay, in milliseconds, in `MIN_ACTION_DELAY..MAX_ACTION_DELAY`.
pub fn random_delay_ms() -> (r: u64)
    ensures
        MIN_ACTION_DELAY <= r < MAX_ACTION_DELAY,
{
    let mut rng = thread_rng();
    gen_range(&mut rng, MIN_ACTION_DELAY, MAX_ACTION_DELAY)
}

} // verus!
