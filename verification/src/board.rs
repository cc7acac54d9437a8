//! The board: nine cells in three rows of three, numbered 1 to 9 row by row,
//! and the search for a line of three that one player holds.

use crate::utils::{is_position, is_valid_num};
use vstd::prelude::*;

verus! {

/// One of the two players.
#[derive(Clone, Copy, Debug, PartialEq, Eq, Structural)]
pub enum Player {
    X,
    O,
}

impl Player {
    /// The opponent of this player.
    pub open spec fn other(self) -> Player {
        match self {
            Player::X => Player::O,
            Player::O => Player::X,
        }
    }

    /// Returns the opponent of this player.
    pub fn flip(&self) -> (flipped: Self)
        ensures
            flipped == self.other(),
    {
        match self {
            Player::X => Player::O,
            Player::O => Player::X,
        }
    }
}

/// What one cell of the board holds.
#[derive(Clone, Copy, Debug, PartialEq, Eq, Structural)]
pub enum Cell {
    Occupied(Player),
    Vacant,
}

/// The nine cells. Position `p` (1 to 9) is `cells[p - 1]`: row `(p - 1) / 3`,
/// column `(p - 1) % 3`.
#[derive(Clone, Copy, Debug, PartialEq, Eq)]
pub struct Board {
    pub cells: [Cell; 9],
}

/// The text of the error that answers a position outside 1 to 9.
pub open spec fn out_of_range_text() -> Seq<char> {
    "Index out of bounds, choose a number between 1-9"@
}

fn out_of_range() -> (message: String)
    ensures
        message@ == out_of_range_text(),
{
    "Index out of bounds, choose a number between 1-9".to_string()
}

/// Whether `player` occupies each of the three cells of `line`.
fn all_occupied_by(line: &[Cell; 3], player: Player) -> (all: bool)
    ensures
        all == (forall|i: int| 0 <= i < 3 ==> line[i] == Cell::Occupied(player)),
{
    let mut i: usize = 0;
    while i < 3
        invariant
            i <= 3,
            forall|k: int| 0 <= k < i ==> line[k] == Cell::Occupied(player),
        decreases 3 - i,
    {
        if line[i] != Cell::Occupied(player) {
            return false;
        }
        i += 1;
    }
    true
}

impl Board {
    /// The cell at `position`, for a position from 1 to 9.
    pub open spec fn at(self, position: int) -> Cell
        recommends
            is_position(position),
    {
        self.cells@[position - 1]
    }

    /// This board with `cell` written at `position`, and every other cell as it was.
    pub open spec fn with_cell(self, position: int, cell: Cell) -> Board
        recommends
            is_position(position),
    {
        Board { cells: vstd::array::spec_array_update(self.cells, position - 1, cell) }
    }

    /// Whether every cell is vacant.
    pub open spec fn is_blank(self) -> bool {
        forall|position: int| is_position(position) ==> #[trigger] self.at(position) == Cell::Vacant
    }

    /// Whether no cell is vacant.
    pub open spec fn is_full(self) -> bool {
        forall|position: int| is_position(position) ==> #[trigger] self.at(position) != Cell::Vacant
    }

    /// How many cells are vacant.
    pub open spec fn vacancies(self) -> nat {
        self.vacancy(1) + self.vacancy(2) + self.vacancy(3) + self.vacancy(4) + self.vacancy(5)
            + self.vacancy(6) + self.vacancy(7) + self.vacancy(8) + self.vacancy(9)
    }

    /// 1 where the cell at `position` is vacant, 0 where it is occupied.
    pub open spec fn vacancy(self, position: int) -> nat {
        if self.at(position) == Cell::Vacant {
            1
        } else {
            0
        }
    }

    /// Whether `player` occupies all three of the positions `a`, `b` and `c`.
    pub open spec fn holds_line(self, player: Player, a: int, b: int, c: int) -> bool {
        &&& self.at(a) == Cell::Occupied(player)
        &&& self.at(b) == Cell::Occupied(player)
        &&& self.at(c) == Cell::Occupied(player)
    }

    /// Whether `player` holds row `row` (0 to 2, from the top): positions
    /// `3 * row + 1` to `3 * row + 3`.
    pub open spec fn holds_row(self, player: Player, row: int) -> bool {
        self.holds_line(player, 3 * row + 1, 3 * row + 2, 3 * row + 3)
    }

    /// Whether `player` holds column `column` (0 to 2, from the left): positions
    /// `column + 1`, `column + 4` and `column + 7`.
    pub open spec fn holds_column(self, player: Player, column: int) -> bool {
        self.holds_line(player, column + 1, column + 4, column + 7)
    }

    /// Whether `player` holds one of the three rows.
    pub open spec fn has_row(self, player: Player) -> bool {
        self.holds_row(player, 0) || self.holds_row(player, 1) || self.holds_row(player, 2)
    }

    /// Whether `player` holds one of the three columns.
    pub open spec fn has_column(self, player: Player) -> bool {
        self.holds_column(player, 0) || self.holds_column(player, 1)
            || self.holds_column(player, 2)
    }

    /// Whether `player` holds the main diagonal, positions 1, 5 and 9, or the
    /// anti-diagonal, positions 3, 5 and 7.
    pub open spec fn has_diagonal(self, player: Player) -> bool {
        self.holds_line(player, 1, 5, 9) || self.holds_line(player, 3, 5, 7)
    }

    /// Whether `player` holds one of the eight lines.
    pub open spec fn has_line(self, player: Player) -> bool {
        self.has_row(player) || self.has_column(player) || self.has_diagonal(player)
    }

    /// The player who holds a line, X before O; `None` where neither holds one.
    pub open spec fn winner(self) -> Option<Player> {
        if self.has_line(Player::X) {
            Some(Player::X)
        } else if self.has_line(Player::O) {
            Some(Player::O)
        } else {
            None
        }
    }

    /// The three rows from the top, each from left to right.
    pub fn rows(&self) -> (rows: [[Cell; 3]; 3])
        ensures
            forall|row: int, column: int|
                0 <= row < 3 && 0 <= column < 3
                    ==> #[trigger] rows[row][column] == self.at(3 * row + column + 1),
    {
        [
            [self.cells[0], self.cells[1], self.cells[2]],
            [self.cells[3], self.cells[4], self.cells[5]],
            [self.cells[6], self.cells[7], self.cells[8]],
        ]
    }

    /// The three columns from the left, each from top to bottom.
    pub fn columns(&self) -> (columns: [[Cell; 3]; 3])
        ensures
            forall|column: int, row: int|
                0 <= column < 3 && 0 <= row < 3
                    ==> #[trigger] columns[column][row] == self.at(3 * row + column + 1),
    {
        [
            [self.cells[0], self.cells[3], self.cells[6]],
            [self.cells[1], self.cells[4], self.cells[7]],
            [self.cells[2], self.cells[5], self.cells[8]],
        ]
    }

    /// Reads the cell at position `cell`; a position outside 1 to 9 is an error.
    pub fn get_cell(&self, cell: usize) -> (result: Result<Cell, String>)
        ensures
            is_position(cell as int) ==> result == Ok::<Cell, String>(self.at(cell as int)),
            !is_position(cell as int) ==> result is Err && result->Err_0@ == out_of_range_text(),
    {
        if !is_valid_num(cell) {
            return Err(out_of_range());
        }
        Ok(self.cells[cell - 1])
    }

    /// Writes `new` at position `cell`, whatever the cell held; a position
    /// outside 1 to 9 is an error and leaves the board as it was.
    pub fn set_cell(&mut self, cell: usize, new: Cell) -> (result: Result<(), String>)
        ensures
            is_position(cell as int) ==> result is Ok
                && *final(self) == old(self).with_cell(cell as int, new),
            !is_position(cell as int) ==> result is Err && result->Err_0@ == out_of_range_text()
                && *final(self) == *old(self),
    {
        if !is_valid_num(cell) {
            return Err(out_of_range());
        }
        self.cells[cell - 1] = new;

        Ok(())
    }

    /// Whether the cell at position `cell` is vacant; a position outside 1 to 9
    /// is an error.
    pub fn is_cell_vacant(&self, cell: usize) -> (result: Result<bool, String>)
        ensures
            is_position(cell as int)
                ==> result == Ok::<bool, String>(self.at(cell as int) == Cell::Vacant),
            !is_position(cell as int) ==> result is Err && result->Err_0@ == out_of_range_text(),
    {
        match self.get_cell(cell) {
            Ok(Cell::Vacant) => Ok(true),
            Ok(Cell::Occupied(_)) => Ok(false),
            Err(message) => Err(message),
        }
    }

    /// The player who holds a line of three, if one does. X is looked at first.
    pub fn check_winner(&self) -> (winner: Option<Player>)
        ensures
            winner == self.winner(),
    {
        let players = [Player::X, Player::O];
        let mut i: usize = 0;
        while i < 2
            invariant
                i <= 2,
                players[0] == Player::X,
                players[1] == Player::O,
                forall|k: int| 0 <= k < i ==> !self.has_line(#[trigger] players[k]),
            decreases 2 - i,
        {
            let player = players[i];
            if self.has_winning_row(player) || self.has_winning_column(player)
                || self.has_winning_diagonal(player) {
                return Some(player);
            }
            i += 1;
        }
        None
    }

    fn has_winning_row(&self, player: Player) -> (found: bool)
        ensures
            found == self.has_row(player),
    {
        let rows = self.rows();
        let mut row: usize = 0;
        while row < 3
            invariant
                row <= 3,
                forall|r: int, c: int|
                    0 <= r < 3 && 0 <= c < 3 ==> #[trigger] rows[r][c] == self.at(3 * r + c + 1),
                forall|r: int| 0 <= r < row ==> !#[trigger] self.holds_row(player, r),
            decreases 3 - row,
        {
            proof {
                let cells = rows[row as int];
                assert(cells[0] == self.at(3 * row + 1));
                assert(cells[1] == self.at(3 * row + 2));
                assert(cells[2] == self.at(3 * row + 3));
            }
            if all_occupied_by(&rows[row], player) {
                return true;
            }
            row += 1;
        }
        false
    }

    fn has_winning_column(&self, player: Player) -> (found: bool)
        ensures
            found == self.has_column(player),
    {
        let columns = self.columns();
        let mut column: usize = 0;
        while column < 3
            invariant
                column <= 3,
                forall|c: int, r: int|
                    0 <= c < 3 && 0 <= r < 3 ==> #[trigger] columns[c][r] == self.at(3 * r + c + 1),
                forall|c: int| 0 <= c < column ==> !#[trigger] self.holds_column(player, c),
            decreases 3 - column,
        {
            proof {
                let cells = columns[column as int];
                assert(cells[0] == self.at(column + 1));
                assert(cells[1] == self.at(column + 4));
                assert(cells[2] == self.at(column + 7));
            }
            if all_occupied_by(&columns[column], player) {
                return true;
            }
            column += 1;
        }
        false
    }

    fn has_winning_diagonal(&self, player: Player) -> (found: bool)
        ensures
            found == self.has_diagonal(player),
    {
        let mut main_diag = true;
        let mut anti_diag = true;
        let mut i: usize = 0;
        while i < 3
            invariant
                i <= 3,
                main_diag == {
                    &&& (i > 0 ==> self.at(1) == Cell::Occupied(player))
                    &&& (i > 1 ==> self.at(5) == Cell::Occupied(player))
                    &&& (i > 2 ==> self.at(9) == Cell::Occupied(player))
                },
                anti_diag == {
                    &&& (i > 0 ==> self.at(3) == Cell::Occupied(player))
                    &&& (i > 1 ==> self.at(5) == Cell::Occupied(player))
                    &&& (i > 2 ==> self.at(7) == Cell::Occupied(player))
                },
            decreases 3 - i,
        {
            main_diag = main_diag && self.cells[i * 3 + i] == Cell::Occupied(player);
            anti_diag = anti_diag && self.cells[(i + 1) * 2] == Cell::Occupied(player);
            i += 1;
        }
        main_diag || anti_diag
    }
}

impl Default for Board {
    /// A board on which every cell is vacant.
    fn default() -> (board: Self)
        ensures
            board.is_blank(),
    {
        Self { cells: [Cell::Vacant; 9] }
    }
}

/// A cell that was just written reads back as what was written, and every
/// other cell reads as it did before.
pub proof fn lemma_set_then_get(board: Board, position: int, cell: Cell)
    requires
        is_position(position),
    ensures
        board.with_cell(position, cell).at(position) == cell,
        forall|other: int|
            is_position(other) && other != position
                ==> #[trigger] board.with_cell(position, cell).at(other) == board.at(other),
{
}

/// Of the nine cells of an empty board all are vacant, of a full board none;
/// so a game that fills one cell with each move is over after nine.
pub proof fn lemma_vacancies_count(board: Board)
    ensures
        board.vacancies() <= 9,
        board.is_blank() <==> board.vacancies() == 9,
        board.is_full() <==> board.vacancies() == 0,
{
    if board.vacancies() == 9 {
        assert forall|position: int| is_position(position) implies #[trigger] board.at(position)
            == Cell::Vacant by {
            assert(board.vacancy(position) == 1);
        }
    }
    if board.vacancies() == 0 {
        assert forall|position: int| is_position(position) implies #[trigger] board.at(position)
            != Cell::Vacant by {
            assert(board.vacancy(position) == 0);
        }
    }
}

/// A line held by X decides the game for X, whatever the other cells hold.
pub proof fn lemma_line_of_x_wins(board: Board)
    requires
        board.has_line(Player::X),
    ensures
        board.winner() == Some(Player::X),
{
}

/// Who holds a diagonal is the winner: each of the eight lines has a cell on
/// either diagonal, so the opponent holds no line at all.
pub proof fn lemma_diagonal_wins(board: Board, player: Player)
    requires
        board.has_diagonal(player),
    ensures
        !board.has_line(player.other()),
        board.winner() == Some(player),
{
}

} // verus!
