//! The text of a player, of a cell and of the whole board.

use crate::board::{Board, Cell, Player};
use crate::utils::is_position;
use vstd::prelude::*;
use vstd::string::StringExecFns;

verus! {

/// The line that stands above, between and below the rows of the board.
pub open spec fn border_text() -> Seq<char> {
    "+---+---+---+\n"@
}

/// The digit that names `position`, for a position from 1 to 9.
pub open spec fn position_text(position: int) -> Seq<char> {
    if position == 1 {
        "1"@
    } else if position == 2 {
        "2"@
    } else if position == 3 {
        "3"@
    } else if position == 4 {
        "4"@
    } else if position == 5 {
        "5"@
    } else if position == 6 {
        "6"@
    } else if position == 7 {
        "7"@
    } else if position == 8 {
        "8"@
    } else {
        "9"@
    }
}

fn position_label(position: usize) -> (label: &'static str)
    requires
        is_position(position as int),
    ensures
        label@ == position_text(position as int),
{
    match position {
        1 => "1",
        2 => "2",
        3 => "3",
        4 => "4",
        5 => "5",
        6 => "6",
        7 => "7",
        8 => "8",
        _ => "9",
    }
}

impl Player {
    /// The letter of this player.
    pub open spec fn text(self) -> Seq<char> {
        match self {
            Player::X => "X"@,
            Player::O => "O"@,
        }
    }

    fn label(&self) -> (label: &'static str)
        ensures
            label@ == self.text(),
    {
        match self {
            Player::X => "X",
            Player::O => "O",
        }
    }

    /// The letter of this player, `X` or `O`.
    pub fn to_string(&self) -> (text: String)
        ensures
            text@ == self.text(),
    {
        self.label().to_string()
    }
}

impl Cell {
    /// The letter of the player who occupies this cell, or one space.
    pub open spec fn text(self) -> Seq<char> {
        match self {
            Cell::Occupied(player) => player.text(),
            Cell::Vacant => " "@,
        }
    }

    /// The letter of the player who occupies this cell, or one space for a
    /// vacant cell.
    pub fn to_string(&self) -> (text: String)
        ensures
            text@ == self.text(),
    {
        match self {
            Cell::Occupied(player) => player.to_string(),
            Cell::Vacant => " ".to_string(),
        }
    }
}

impl Board {
    /// What the board shows at `position`: the letter of the player who occupies
    /// the cell, or, for a vacant cell, the position's digit between the escape
    /// sequences that switch dim text on and off.
    pub open spec fn cell_text(self, position: int) -> Seq<char> {
        match self.at(position) {
            Cell::Occupied(player) => player.text(),
            Cell::Vacant => "\x1b[2m"@ + position_text(position) + "\x1b[0m"@,
        }
    }

    /// Row `row` (0 to 2) of the board as one line of text.
    pub open spec fn row_text(self, row: int) -> Seq<char> {
        "| "@ + self.cell_text(3 * row + 1) + " | "@ + self.cell_text(3 * row + 2) + " | "@
            + self.cell_text(3 * row + 3) + " |\n"@
    }

    /// The board as text: three rows, with a border above, between and below.
    pub open spec fn text(self) -> Seq<char> {
        border_text() + self.row_text(0) + border_text() + self.row_text(1) + border_text()
            + self.row_text(2) + border_text()
    }

    /// The first `count` rows of the board, each followed by a border.
    spec fn rows_text(self, count: int) -> Seq<char>
        decreases count,
    {
        if count <= 0 {
            Seq::empty()
        } else {
            self.rows_text(count - 1) + self.row_text(count - 1) + border_text()
        }
    }

    fn push_cell(&self, text: &mut String, position: usize)
        requires
            is_position(position as int),
        ensures
            final(text)@ == old(text)@ + self.cell_text(position as int),
    {
        match self.cells[position - 1] {
            Cell::Occupied(player) => {
                text.append(player.label());
            },
            Cell::Vacant => {
                text.append("\x1b[2m");
                text.append(position_label(position));
                text.append("\x1b[0m");
            },
        }
    }

    fn push_row(&self, text: &mut String, row: usize)
        requires
            row < 3,
        ensures
            final(text)@ == old(text)@ + self.row_text(row as int),
    {
        text.append("| ");
        self.push_cell(text, 3 * row + 1);
        text.append(" | ");
        self.push_cell(text, 3 * row + 2);
        text.append(" | ");
        self.push_cell(text, 3 * row + 3);
        text.append(" |\n");
        assert(text@ =~= old(text)@ + self.row_text(row as int));
    }

    /// Draws the board: a grid of three rows, in which an occupied cell shows
    /// its player's letter and a vacant cell shows, dimmed, its position.
    pub fn to_string(&self) -> (text: String)
        ensures
            text@ == self.text(),
    {
        let mut text = String::new();
        text.append("+---+---+---+\n");
        let mut row: usize = 0;
        while row < 3
            invariant
                row <= 3,
                text@ == border_text() + self.rows_text(row as int),
            decreases 3 - row,
        {
            let ghost before = text@;
            self.push_row(&mut text, row);
            text.append("+---+---+---+\n");
            assert(text@ =~= border_text() + self.rows_text(row + 1)) by {
                assert(text@ == before + self.row_text(row as int) + border_text());
            }
            row += 1;
        }
        assert(text@ =~= self.text()) by {
            reveal_with_fuel(Board::rows_text, 4);
        }
        text
    }
}

} // verus!
