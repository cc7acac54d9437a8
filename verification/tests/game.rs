use tictactoe::board::{Board, Cell, Player};
use tictactoe::game::{Game, InvalidMove, RoundResult, WinType};

fn play_all(game: &mut Game, positions: &[usize]) -> Vec<RoundResult> {
    let mut rounds = Vec::new();
    for &position in positions {
        rounds.push(game.play_move(position).unwrap());
    }
    rounds
}

#[test]
fn new_game_is_empty_with_the_starter_to_move() {
    for starter in [Player::X, Player::O] {
        let game = Game::new(starter);
        assert_eq!(game.board, Board::default());
        assert_eq!(game.board.cells, [Cell::Vacant; 9]);
        assert_eq!(game.current_player_turn, starter);
        assert!(!game.is_draw());
    }
}

#[test]
fn x_wins_with_the_top_row() {
    let mut game = Game::new(Player::X);
    let rounds = play_all(&mut game, &[1, 4, 2, 5, 3]);
    let ongoing = |player| RoundResult { player, result: WinType::Ongoing };
    assert_eq!(rounds[0], ongoing(Player::X));
    assert_eq!(rounds[1], ongoing(Player::O));
    assert_eq!(rounds[2], ongoing(Player::X));
    assert_eq!(rounds[3], ongoing(Player::O));
    assert_eq!(rounds[4], RoundResult { player: Player::X, result: WinType::X });
    assert_eq!(game.board.check_winner(), Some(Player::X));
    let text = game.board.to_string();
    let lines: Vec<&str> = text.lines().collect();
    assert_eq!(lines[1], "| X | X | X |");
    assert!(lines[1].contains("X | X | X"));
    assert_eq!(lines[3], "| O | O | \u{1b}[2m6\u{1b}[0m |");
}

#[test]
fn o_wins_a_column_when_o_starts_second() {
    let mut game = Game::new(Player::X);
    let rounds = play_all(&mut game, &[1, 2, 3, 5, 4, 8]);
    assert_eq!(rounds[5], RoundResult { player: Player::O, result: WinType::O });
    assert_eq!(game.current_player_turn, Player::X);
}

#[test]
fn o_wins_when_o_starts() {
    let mut game = Game::new(Player::O);
    let rounds = play_all(&mut game, &[5, 1, 3, 2, 7]);
    assert_eq!(rounds[0].player, Player::O);
    assert_eq!(rounds[1].player, Player::X);
    assert_eq!(rounds[4], RoundResult { player: Player::O, result: WinType::O });
}

#[test]
fn occupied_cell_is_turned_down_and_nothing_changes() {
    let mut game = Game::new(Player::X);
    assert_eq!(
        game.play_move(1),
        Ok(RoundResult { player: Player::X, result: WinType::Ongoing })
    );
    let before = game;
    assert_eq!(game.play_move(1), Err(InvalidMove::Occupied));
    assert_eq!(game, before);
    assert_eq!(game.board.get_cell(1), Ok(Cell::Occupied(Player::X)));
    assert_eq!(game.current_player_turn, Player::O);
}

#[test]
fn out_of_range_move_is_turned_down_and_nothing_changes() {
    let mut game = Game::new(Player::X);
    play_all(&mut game, &[5, 1]);
    let before = game;
    for position in [0, 10, 42, usize::MAX] {
        assert_eq!(game.play_move(position), Err(InvalidMove::OutOfRange));
        assert_eq!(game, before);
    }
}

#[test]
fn turn_passes_to_the_opponent_after_a_valid_move() {
    let mut game = Game::new(Player::X);
    game.play_move(5).unwrap();
    assert_eq!(game.current_player_turn, Player::O);
    game.play_move(1).unwrap();
    assert_eq!(game.current_player_turn, Player::X);
}

#[test]
fn turn_passes_even_when_the_move_wins() {
    let mut game = Game::new(Player::X);
    let rounds = play_all(&mut game, &[1, 4, 2, 5, 3]);
    assert_eq!(rounds[4].result, WinType::X);
    assert_eq!(game.current_player_turn, Player::O);
}

#[test]
fn switch_current_player_flips_the_turn_only() {
    let mut game = Game::new(Player::X);
    game.play_move(3).unwrap();
    let board = game.board;
    game.switch_current_player();
    assert_eq!(game.current_player_turn, Player::X);
    game.switch_current_player();
    assert_eq!(game.current_player_turn, Player::O);
    assert_eq!(game.board, board);
}

#[test]
fn full_board_without_a_line_is_a_draw() {
    let mut game = Game::new(Player::X);
    let rounds = play_all(&mut game, &[1, 2, 3, 5, 4, 6, 8, 7, 9]);
    for round in &rounds[..8] {
        assert_eq!(round.result, WinType::Ongoing);
    }
    assert_eq!(rounds[8], RoundResult { player: Player::X, result: WinType::Draw });
    assert!(game.is_draw());
    assert_eq!(game.board.check_winner(), None);
}

#[test]
fn no_move_is_accepted_after_a_draw() {
    let mut game = Game::new(Player::X);
    play_all(&mut game, &[1, 2, 3, 5, 4, 6, 8, 7, 9]);
    let before = game;
    for position in 0..=10 {
        assert!(game.play_move(position).is_err());
        assert_eq!(game, before);
    }
}

#[test]
fn win_on_the_last_cell_is_a_win_and_no_draw() {
    let mut game = Game::new(Player::X);
    let rounds = play_all(&mut game, &[1, 4, 2, 5, 6, 8, 7, 9, 3]);
    assert_eq!(rounds[7].result, WinType::Ongoing);
    assert_eq!(rounds[8], RoundResult { player: Player::X, result: WinType::X });
    assert!(!game.is_draw());
}

#[test]
fn is_draw_needs_a_full_board() {
    let mut game = Game::new(Player::X);
    assert!(!game.is_draw());
    play_all(&mut game, &[1, 2, 3, 5, 4, 6, 8, 7]);
    assert!(!game.is_draw());
}

#[test]
fn game_does_not_refuse_a_move_after_a_win() {
    let mut game = Game::new(Player::X);
    play_all(&mut game, &[1, 4, 2, 5, 3]);
    assert_eq!(
        game.play_move(6),
        Ok(RoundResult { player: Player::O, result: WinType::X })
    );
}

#[test]
fn player_converts_into_its_win() {
    let x: WinType = Player::X.into();
    let o: WinType = Player::O.into();
    assert_eq!(x, WinType::X);
    assert_eq!(o, WinType::O);
    assert_eq!(WinType::from(Player::X), WinType::X);
}

#[test]
fn announcement_names_the_mover_or_the_draw() {
    let won = RoundResult { player: Player::X, result: WinType::X };
    assert_eq!(won.announcement(), Some("Congratulations X, you have won!".to_string()));
    let won = RoundResult { player: Player::O, result: WinType::O };
    assert_eq!(won.announcement(), Some("Congratulations O, you have won!".to_string()));
    let drawn = RoundResult { player: Player::X, result: WinType::Draw };
    assert_eq!(drawn.announcement(), Some("It's a draw.".to_string()));
    let open = RoundResult { player: Player::O, result: WinType::Ongoing };
    assert_eq!(open.announcement(), None);
}

#[test]
fn announcement_congratulates_the_winner() {
    let late = RoundResult { player: Player::O, result: WinType::X };
    assert_eq!(late.announcement(), Some("Congratulations X, you have won!".to_string()));
}

#[test]
fn game_played_to_a_win_announces_the_mover() {
    let mut game = Game::new(Player::O);
    let rounds = play_all(&mut game, &[1, 2, 5, 3, 9]);
    for round in &rounds[..4] {
        assert_eq!(round.announcement(), None);
    }
    assert_eq!(rounds[4].player, Player::O);
    assert_eq!(rounds[4].announcement(), Some("Congratulations O, you have won!".to_string()));
}

#[test]
fn turned_down_moves_say_why() {
    assert_eq!(InvalidMove::OutOfRange.message(), "Please choose a number 1 through 9!\n");
    assert_eq!(InvalidMove::Occupied.message(), "Please choose a free cell!\n");
}
