use vstd::prelude::*;
use vstd::std_specs::cmp::PartialEqSpecImpl;

verus! {

/// Position of a player in the game player queue.
pub type PlayerPosition = u8;

/// Side length of the tic-tac-toe board.
pub const BOARD_SIZE: usize = 3;

/// Number of cells in the board as it travels over the wire (row by row).
pub const BOARD_PROTO_SIZE: usize = 9;

/// Number of players of a tic-tac-toe game.
pub const PLAYERS_SIZE: usize = 2;

/// Row and column of a board cell.
#[derive(Clone, Copy, Debug, Eq, Hash)]
pub struct GridIndex {
    pub row: usize,
    pub col: usize,
}

impl PartialEq for GridIndex {
    fn eq(&self, other: &GridIndex) -> (r: bool) {
        self.row == other.row && self.col == other.col
    }
}

impl PartialEqSpecImpl for GridIndex {
    open spec fn obeys_eq_spec() -> bool {
        true
    }

    open spec fn eq_spec(&self, other: &GridIndex) -> bool {
        self.row == other.row && self.col == other.col
    }
}

impl GridIndex {
    /// Whether the index lies inside the 3x3 board.
    pub open spec fn is_valid(self) -> bool {
        self.row < 3 && self.col < 3
    }

    /// Row-major offset of the cell.
    pub open spec fn flat(self) -> int {
        self.row * 3 + self.col
    }

    pub fn new(row: usize, col: usize) -> (r: GridIndex)
        ensures
            r.row == row,
            r.col == col,
    {
        GridIndex { row, col }
    }

    pub fn row(&self) -> (r: usize)
        ensures
            r == self.row,
    {
        self.row
    }

    pub fn col(&self) -> (r: usize)
        ensures
            r == self.col,
    {
        self.col
    }
}

/// Grid index of the cell at a row-major offset.
pub open spec fn index_at(i: int) -> GridIndex {
    GridIndex { row: (i / 3) as usize, col: (i % 3) as usize }
}

/// Content of a board cell: the player that filled it, if any.
#[derive(Clone, Copy, Debug, PartialEq, Eq, Structural, Hash)]
pub struct BoardCell(pub Option<PlayerPosition>);

impl BoardCell {
    pub fn is_none(&self) -> (r: bool)
        ensures
            r == (self.0 is None),
    {
        self.0.is_none()
    }

    pub fn is_some(&self) -> (r: bool)
        ensures
            r == (self.0 is Some),
    {
        self.0.is_some()
    }
}

/// Row-major offsets of the three cells of the `k`-th winning line:
/// three rows, three columns, then the two diagonals.
pub open spec fn line(k: int) -> (int, int, int) {
    if k == 0 {
        (0, 1, 2)
    } else if k == 1 {
        (3, 4, 5)
    } else if k == 2 {
        (6, 7, 8)
    } else if k == 3 {
        (0, 3, 6)
    } else if k == 4 {
        (1, 4, 7)
    } else if k == 5 {
        (2, 5, 8)
    } else if k == 6 {
        (0, 4, 8)
    } else {
        (2, 4, 6)
    }
}

/// Number of winning lines of the board.
pub open spec fn num_lines() -> int {
    8
}

/// All three cells of line `k` hold the same player.
pub open spec fn line_complete(b: Seq<BoardCell>, k: int) -> bool {
    let (x, y, z) = line(k);
    &&& b[x].0 is Some
    &&& b[x] == b[y]
    &&& b[y] == b[z]
}

/// All three cells of line `k` hold player `p`.
pub open spec fn line_won_by(b: Seq<BoardCell>, k: int, p: PlayerPosition) -> bool {
    let (x, y, z) = line(k);
    &&& b[x] == BoardCell(Some(p))
    &&& b[y] == BoardCell(Some(p))
    &&& b[z] == BoardCell(Some(p))
}

/// Player `p` owns a complete line.
pub open spec fn has_won(b: Seq<BoardCell>, p: PlayerPosition) -> bool {
    exists|k: int| 0 <= k < num_lines() && #[trigger] line_won_by(b, k, p)
}

/// Every cell of the board is filled.
pub open spec fn is_full(b: Seq<BoardCell>) -> bool {
    forall|i: int| 0 <= i < b.len() ==> (#[trigger] b[i]).0 is Some
}

/// Number of filled cells among the first `n` cells.
pub open spec fn filled_prefix(b: Seq<BoardCell>, n: int) -> nat
    decreases n,
{
    if n <= 0 {
        0
    } else if b[n - 1].0 is Some {
        filled_prefix(b, n - 1) + 1
    } else {
        filled_prefix(b, n - 1)
    }
}

/// Number of filled cells of the board.
pub open spec fn filled_count(b: Seq<BoardCell>) -> nat {
    filled_prefix(b, b.len() as int)
}

/// The empty board.
pub open spec fn empty_board() -> Seq<BoardCell> {
    Seq::new(9, |i: int| BoardCell(None))
}

/// Grid indices of the empty cells of `b`, in row-major order.
pub open spec fn empty_cells_prefix(b: Seq<BoardCell>, n: int) -> Seq<GridIndex>
    decreases n,
{
    if n <= 0 {
        Seq::empty()
    } else if b[n - 1].0 is None {
        empty_cells_prefix(b, n - 1).push(index_at(n - 1))
    } else {
        empty_cells_prefix(b, n - 1)
    }
}

pub open spec fn empty_cells(b: Seq<BoardCell>) -> Seq<GridIndex> {
    empty_cells_prefix(b, b.len() as int)
}

/// Board of a tic-tac-toe game: nine cells stored row by row.
#[derive(Debug)]
pub struct TTTBoard {
    cells: Vec<BoardCell>,
}

impl View for TTTBoard {
    type V = Seq<BoardCell>;

    closed spec fn view(&self) -> Seq<BoardCell> {
        self.cells@
    }
}

impl Clone for TTTBoard {
    fn clone(&self) -> (r: TTTBoard)
        ensures
            r@ == self@,
    {
        proof {
            use_type_invariant(self);
        }
        TTTBoard { cells: self.cells.clone() }
    }
}

impl Default for TTTBoard {
    fn default() -> (r: TTTBoard)
        ensures
            r@ == empty_board(),
    {
        TTTBoard::new()
    }
}

impl TTTBoard {
    #[verifier::type_invariant]
    closed spec fn nine_cells(self) -> bool {
        self.cells@.len() == 9
    }

    /// Number of cells of the board.
    pub fn len(&self) -> (r: usize)
        ensures
            r == self@.len(),
            r == 9,
    {
        proof {
            use_type_invariant(self);
        }
        self.cells.len()
    }

    /// An empty board.
    pub fn new() -> (r: TTTBoard)
        ensures
            r@ == empty_board(),
    {
        let mut cells: Vec<BoardCell> = Vec::new();
        let mut i: usize = 0;
        while i < 9
            invariant
                i <= 9,
                cells@.len() == i,
                forall|j: int| 0 <= j < i ==> cells@[j] == BoardCell(None),
            decreases 9 - i,
        {
            cells.push(BoardCell(None));
            i += 1;
        }
        assert(cells@ =~= empty_board());
        TTTBoard { cells }
    }

    /// A board with the given cells, row by row; `None` unless there are exactly nine.
    pub fn from_cells(cells: Vec<BoardCell>) -> (r: Option<TTTBoard>)
        ensures
            r is Some <==> cells@.len() == 9,
            r matches Some(b) ==> b@ == cells@,
    {
        if cells.len() == 9 {
            Some(TTTBoard { cells })
        } else {
            None
        }
    }

    /// Cell at `pos`.
    pub fn get(&self, pos: GridIndex) -> (r: BoardCell)
        requires
            pos.is_valid(),
        ensures
            r == self@[pos.flat()],
    {
        proof {
            use_type_invariant(self);
        }
        self.cells[pos.row * 3 + pos.col]
    }

    /// Cell at the row-major offset `i`.
    pub fn get_flat(&self, i: usize) -> (r: BoardCell)
        requires
            i < 9,
        ensures
            r == self@[i as int],
    {
        proof {
            use_type_invariant(self);
        }
        self.cells[i]
    }

    /// Write `cell` at `pos`.
    pub fn set(&mut self, pos: GridIndex, cell: BoardCell)
        requires
            pos.is_valid(),
        ensures
            final(self)@ == old(self)@.update(pos.flat(), cell),
    {
        proof {
            use_type_invariant(&*self);
        }
        let mut cells = self.cells.clone();
        cells.set(pos.row * 3 + pos.col, cell);
        self.cells = cells;
    }

    /// Whether every cell is filled.
    pub fn is_full(&self) -> (r: bool)
        ensures
            r == is_full(self@),
    {
        proof {
            use_type_invariant(self);
        }
        let mut i: usize = 0;
        while i < 9
            invariant
                i <= 9,
                self@.len() == 9,
                forall|j: int| 0 <= j < i ==> (#[trigger] self@[j]).0 is Some,
            decreases 9 - i,
        {
            if self.cells[i].0.is_none() {
                return false;
            }
            i += 1;
        }
        true
    }

    /// Grid indices of the empty cells, in row-major order.
    pub fn empty_cells(&self) -> (r: Vec<GridIndex>)
        ensures
            r@ == empty_cells(self@),
    {
        proof {
            use_type_invariant(self);
        }
        let mut r: Vec<GridIndex> = Vec::new();
        let mut i: usize = 0;
        while i < 9
            invariant
                i <= 9,
                self@.len() == 9,
                r@ == empty_cells_prefix(self@, i as int),
            decreases 9 - i,
        {
            if self.cells[i].0.is_none() {
                r.push(GridIndex { row: i / 3, col: i % 3 });
            }
            i += 1;
        }
        r
    }

    /// Whether player `p` owns a complete line.
    pub fn player_has_line(&self, p: PlayerPosition) -> (r: bool)
        ensures
            r == has_won(self@, p),
    {
        proof {
            use_type_invariant(self);
        }
        let lines = winning_combinations();
        let mut k: usize = 0;
        while k < 8
            invariant
                k <= 8,
                self@.len() == 9,
                lines@.len() == 8,
                forall|j: int|
                    0 <= j < 8 ==> #[trigger] lines@[j] == (
                        index_at(line(j).0),
                        index_at(line(j).1),
                        index_at(line(j).2),
                    ),
                forall|j: int| 0 <= j < k ==> !#[trigger] line_won_by(self@, j, p),
            decreases 8 - k,
        {
            let (a, b, c) = lines[k];
            assert(a.flat() == line(k as int).0 && b.flat() == line(k as int).1 && c.flat() == line(
                k as int,
            ).2);
            if self.get(a) == BoardCell(Some(p)) && self.get(b) == BoardCell(Some(p)) && self.get(c)
                == BoardCell(Some(p)) {
                assert(line_won_by(self@, k as int, p));
                return true;
            }
            k += 1;
        }
        false
    }
}

/// The eight winning lines of the board, as triples of grid indices.
pub fn winning_combinations() -> (r: Vec<(GridIndex, GridIndex, GridIndex)>)
    ensures
        r@.len() == num_lines(),
        forall|k: int|
            0 <= k < num_lines() ==> #[trigger] r@[k] == (
                index_at(line(k).0),
                index_at(line(k).1),
                index_at(line(k).2),
            ),
{
    let mut r: Vec<(GridIndex, GridIndex, GridIndex)> = Vec::new();
    r.push((GridIndex::new(0, 0), GridIndex::new(0, 1), GridIndex::new(0, 2)));
    r.push((GridIndex::new(1, 0), GridIndex::new(1, 1), GridIndex::new(1, 2)));
    r.push((GridIndex::new(2, 0), GridIndex::new(2, 1), GridIndex::new(2, 2)));
    r.push((GridIndex::new(0, 0), GridIndex::new(1, 0), GridIndex::new(2, 0)));
    r.push((GridIndex::new(0, 1), GridIndex::new(1, 1), GridIndex::new(2, 1)));
    r.push((GridIndex::new(0, 2), GridIndex::new(1, 2), GridIndex::new(2, 2)));
    r.push((GridIndex::new(0, 0), GridIndex::new(1, 1), GridIndex::new(2, 2)));
    r.push((GridIndex::new(0, 2), GridIndex::new(1, 1), GridIndex::new(2, 0)));
    r
}

/// First winning line (in the order of [`winning_combinations`]) whose three cells hold the
/// same player; the win animation is drawn along it.
pub fn find_winning_line(board: &TTTBoard) -> (r: Option<(GridIndex, GridIndex, GridIndex)>)
    ensures
        match r {
            Some(t) => exists|k: int|
                0 <= k < num_lines() && line_complete(board@, k) && t == (
                    index_at(line(k).0),
                    index_at(line(k).1),
                    index_at(line(k).2),
                ) && forall|j: int| 0 <= j < k ==> !#[trigger] line_complete(board@, j),
            None => forall|k: int| 0 <= k < num_lines() ==> !#[trigger] line_complete(board@, k),
        },
{
    proof {
        use_type_invariant(board);
    }
    let lines = winning_combinations();
    let mut k: usize = 0;
    while k < 8
        invariant
            k <= 8,
            board@.len() == 9,
            lines@.len() == 8,
            forall|j: int|
                0 <= j < 8 ==> #[trigger] lines@[j] == (
                    index_at(line(j).0),
                    index_at(line(j).1),
                    index_at(line(j).2),
                ),
            forall|j: int| 0 <= j < k ==> !#[trigger] line_complete(board@, j),
        decreases 8 - k,
    {
        let (a, b, c) = lines[k];
        assert(a.flat() == line(k as int).0 && b.flat() == line(k as int).1 && c.flat() == line(
            k as int,
        ).2);
        let ca = board.get(a);
        let cb = board.get(b);
        let cc = board.get(c);
        if ca == cb && cb == cc && ca.is_some() {
            assert(line_complete(board@, k as int));
            return Some((a, b, c));
        }
        k += 1;
    }
    None
}

} // verus!
