//! The game: a board, the player whose turn it is, and the one transition
//! between its states, a move.

use crate::board::{Board, Cell, Player};
use crate::utils::{is_position, is_valid_num};
use vstd::prelude::*;
use vstd::std_specs::convert::FromSpecImpl;
use vstd::string::StringExecFns;

verus! {

/// How the game stands after a move.
#[derive(Clone, Copy, Debug, PartialEq, Eq, Structural)]
pub enum WinType {
    X,
    O,
    Draw,
    Ongoing,
}

impl Player {
    /// How the game stands once this player holds a line.
    pub open spec fn win(self) -> WinType {
        match self {
            Player::X => WinType::X,
            Player::O => WinType::O,
        }
    }
}

impl From<Player> for WinType {
    /// The win of `player`.
    fn from(player: Player) -> (win: WinType) {
        match player {
            Player::X => WinType::X,
            Player::O => WinType::O,
        }
    }
}

impl FromSpecImpl<Player> for WinType {
    open spec fn obeys_from_spec() -> bool {
        true
    }

    open spec fn from_spec(player: Player) -> WinType {
        player.win()
    }
}

impl WinType {
    /// Whether the game is over: won or drawn.
    pub open spec fn is_terminal(self) -> bool {
        self != WinType::Ongoing
    }

    /// The player who has won, if either has.
    pub open spec fn winner(self) -> Option<Player> {
        match self {
            WinType::X => Some(Player::X),
            WinType::O => Some(Player::O),
            WinType::Draw | WinType::Ongoing => None,
        }
    }
}

/// What a move came to: who made it, and how the game stands after it.
#[derive(Clone, Copy, Debug, PartialEq, Eq, Structural)]
pub struct RoundResult {
    pub player: Player,
    pub result: WinType,
}

/// Why a move was turned down. The game is as it was, and the player may
/// choose again.
#[derive(Clone, Copy, Debug, PartialEq, Eq, Structural)]
pub enum InvalidMove {
    /// The position is not one of 1 to 9.
    OutOfRange,
    /// The cell at the position is occupied.
    Occupied,
}

impl InvalidMove {
    /// What the player is told.
    pub open spec fn text(self) -> Seq<char> {
        match self {
            InvalidMove::OutOfRange => "Please choose a number 1 through 9!\n"@,
            InvalidMove::Occupied => "Please choose a free cell!\n"@,
        }
    }

    /// What to tell the player before asking again.
    pub fn message(&self) -> (text: String)
        ensures
            text@ == self.text(),
    {
        match self {
            InvalidMove::OutOfRange => "Please choose a number 1 through 9!\n".to_string(),
            InvalidMove::Occupied => "Please choose a free cell!\n".to_string(),
        }
    }
}

/// What the winner is told.
pub open spec fn congratulation_text(winner: Player) -> Seq<char> {
    "Congratulations "@ + winner.text() + ", you have won!"@
}

fn congratulation(winner: Player) -> (text: String)
    ensures
        text@ == congratulation_text(winner),
{
    let mut text = "Congratulations ".to_string();
    text.append(winner.to_string().as_str());
    text.append(", you have won!");
    text
}

impl RoundResult {
    /// What is announced when the game ends with this move: the winner's win,
    /// or a draw. `None` while the game goes on.
    pub open spec fn announcement_text(self) -> Option<Seq<char>> {
        match self.result {
            WinType::X => Some(congratulation_text(Player::X)),
            WinType::O => Some(congratulation_text(Player::O)),
            WinType::Draw => Some("It's a draw."@),
            WinType::Ongoing => None,
        }
    }

    /// Decides whether the game ends with this move. If it does, returns what
    /// to announce; if not, returns `None` and the next move is due.
    pub fn announcement(&self) -> (text: Option<String>)
        ensures
            text is Some <==> self.result.is_terminal(),
            match text {
                Some(text) => self.announcement_text() == Some(text@),
                None => self.announcement_text() is None,
            },
    {
        match self.result {
            WinType::X => Some(congratulation(Player::X)),
            WinType::O => Some(congratulation(Player::O)),
            WinType::Draw => Some("It's a draw.".to_string()),
            WinType::Ongoing => None,
        }
    }
}

/// A game in progress.
#[derive(Clone, Copy, Debug, PartialEq, Eq)]
pub struct Game {
    pub board: Board,
    pub current_player_turn: Player,
}

impl Game {
    /// Why a move to `position` is turned down; `None` where it is accepted:
    /// the position is one of 1 to 9 and its cell is vacant.
    pub open spec fn rejection(self, position: int) -> Option<InvalidMove> {
        if !is_position(position) {
            Some(InvalidMove::OutOfRange)
        } else if self.board.at(position) != Cell::Vacant {
            Some(InvalidMove::Occupied)
        } else {
            None
        }
    }

    /// The game after the player to move has taken `position`: that cell is
    /// theirs, and the turn is the opponent's.
    pub open spec fn after_move(self, position: int) -> Game {
        Game {
            board: self.board.with_cell(position, Cell::Occupied(self.current_player_turn)),
            current_player_turn: self.current_player_turn.other(),
        }
    }

    /// Whether the board is full and nobody holds a line.
    pub open spec fn is_drawn(self) -> bool {
        self.board.is_full() && self.board.winner() is None
    }

    /// How the game stands: won by the player who holds a line, else drawn if
    /// the board is full, else going on.
    pub open spec fn outcome(self) -> WinType {
        match self.board.winner() {
            Some(player) => player.win(),
            None => if self.board.is_full() {
                WinType::Draw
            } else {
                WinType::Ongoing
            },
        }
    }

    /// What the move to `position` comes to, where it is accepted.
    pub open spec fn round(self, position: int) -> RoundResult {
        RoundResult {
            player: self.current_player_turn,
            result: self.after_move(position).outcome(),
        }
    }

    /// What a move to `position` is answered with: the reason why it is turned
    /// down, or what it comes to.
    pub open spec fn reply(self, position: int) -> Result<RoundResult, InvalidMove> {
        match self.rejection(position) {
            Some(reason) => Err(reason),
            None => Ok(self.round(position)),
        }
    }

    /// The game after a move to `position` was asked for: moved on where the
    /// move is accepted, unchanged where it is turned down.
    pub open spec fn played(self, position: int) -> Game {
        if self.rejection(position) is None {
            self.after_move(position)
        } else {
            self
        }
    }

    /// A game on an empty board, in which `starting_player` moves first.
    pub fn new(starting_player: Player) -> (game: Self)
        ensures
            game.board.is_blank(),
            game.current_player_turn == starting_player,
    {
        Self { board: Board::default(), current_player_turn: starting_player }
    }

    /// Whether the board is full with no line held by either player.
    pub fn is_draw(&self) -> (draw: bool)
        ensures
            draw == self.is_drawn(),
    {
        let mut is_board_filled = true;
        let mut i: usize = 0;
        while i < 9
            invariant
                i <= 9,
                is_board_filled == (forall|position: int|
                    1 <= position <= i ==> #[trigger] self.board.at(position) != Cell::Vacant),
            decreases 9 - i,
        {
            if let Cell::Vacant = self.board.cells[i] {
                assert(self.board.at(i + 1) == Cell::Vacant);
                is_board_filled = false;
            }
            i += 1;
        }

        is_board_filled && self.board.check_winner().is_none()
    }

    /// Makes the move of the player whose turn it is to `position`.
    ///
    /// A position outside 1 to 9, or one whose cell is occupied, is turned
    /// down and the game stays as it was. Otherwise the cell becomes the
    /// mover's, the turn passes to the opponent, and the result says who moved
    /// and how the game stands now. A move is not refused because the game is
    /// already won: to stop asking for moves is the caller's part.
    pub fn play_move(&mut self, position: usize) -> (result: Result<RoundResult, InvalidMove>)
        ensures
            result == old(self).reply(position as int),
            *final(self) == old(self).played(position as int),
    {
        if !is_valid_num(position) {
            return Err(InvalidMove::OutOfRange);
        }
        if !self.board.is_cell_vacant(position).unwrap() {
            return Err(InvalidMove::Occupied);
        }
        let current_player = self.current_player_turn;

        self.board.set_cell(position, Cell::Occupied(current_player)).unwrap();

        let mut result: WinType = WinType::Ongoing;
        if self.is_draw() {
            result = WinType::Draw;
        }
        if let Some(player) = self.board.check_winner() {
            if player == current_player {
                result = current_player.into();
            } else {
                result = current_player.flip().into();
            }
        }
        self.switch_current_player();

        Ok(RoundResult { player: current_player, result })
    }

    /// Passes the turn to the other player.
    pub fn switch_current_player(&mut self)
        ensures
            final(self).current_player_turn == old(self).current_player_turn.other(),
            final(self).board == old(self).board,
    {
        match self.current_player_turn {
            Player::X => self.current_player_turn = Player::O,
            Player::O => self.current_player_turn = Player::X,
        }
    }
}

/// The turn passes with every accepted move: after one it is the opponent's,
/// after two it is the first mover's again. A move that is turned down leaves
/// the turn where it was.
pub proof fn lemma_turns_alternate(game: Game, first: int, second: int)
    ensures
        game.rejection(first) is None ==> game.played(first).current_player_turn
            == game.current_player_turn.other(),
        game.rejection(first) is None && game.played(first).rejection(second) is None
            ==> game.played(first).played(second).current_player_turn
            == game.current_player_turn,
        game.rejection(first) is Some ==> game.played(first).current_player_turn
            == game.current_player_turn,
{
}

/// An accepted move fills one vacant cell with the mover's mark and touches
/// no other, so what was occupied stays as it was and one cell fewer is vacant.
pub proof fn lemma_move_fills_one_cell(game: Game, position: int)
    requires
        game.rejection(position) is None,
    ensures
        game.board.at(position) == Cell::Vacant,
        game.played(position).board.at(position) == Cell::Occupied(game.current_player_turn),
        forall|other: int|
            is_position(other) && other != position
                ==> #[trigger] game.played(position).board.at(other) == game.board.at(other),
        game.played(position).board.vacancies() == game.board.vacancies() - 1,
{
}

/// A cell cannot be taken twice: once a move to a position is accepted, the
/// next move to it is turned down as occupied and changes nothing.
pub proof fn lemma_same_cell_twice(game: Game, position: int)
    requires
        game.rejection(position) is None,
    ensures
        game.played(position).reply(position)
            == Err::<RoundResult, InvalidMove>(InvalidMove::Occupied),
        game.played(position).played(position) == game.played(position),
{
}

/// While nobody holds a line, a move can complete a line only for the player
/// who makes it: the move is won by the mover, drawn, or leaves the game open,
/// and a win that is announced is the mover's.
pub proof fn lemma_line_is_the_movers(game: Game, position: int)
    requires
        game.board.winner() is None,
        game.rejection(position) is None,
    ensures
        !game.played(position).board.has_line(game.current_player_turn.other()),
        game.round(position).result.winner() is Some ==> game.round(position).result.winner()
            == Some(game.round(position).player),
{
}

/// A full board on which nobody holds a line is a draw, and has no winner.
pub proof fn lemma_full_board_without_line_is_drawn(game: Game)
    requires
        game.board.is_full(),
        !game.board.has_line(Player::X),
        !game.board.has_line(Player::O),
    ensures
        game.is_drawn(),
        game.board.winner() is None,
        game.outcome() == WinType::Draw,
{
}

/// A full board ends the game, won or drawn; and the game is drawn exactly
/// when the board is full and nobody holds a line.
pub proof fn lemma_full_board_ends_the_game(game: Game)
    ensures
        game.board.is_full() ==> game.outcome().is_terminal(),
        game.outcome() == WinType::Draw <==> game.is_drawn(),
{
}

/// On a full board every move is turned down, so a drawn game stays as it is
/// whatever is played next.
pub proof fn lemma_full_board_takes_no_move(game: Game, position: int)
    requires
        game.board.is_full(),
    ensures
        game.reply(position) is Err,
        game.played(position) == game,
{
}

} // verus!
