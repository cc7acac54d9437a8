use tictactoe::board::{Board, Cell, Player};

#[test]
fn player_text_is_its_letter() {
    assert_eq!(Player::X.to_string(), "X");
    assert_eq!(Player::O.to_string(), "O");
}

#[test]
fn cell_text_is_the_letter_or_a_space() {
    assert_eq!(Cell::Occupied(Player::X).to_string(), "X");
    assert_eq!(Cell::Occupied(Player::O).to_string(), "O");
    assert_eq!(Cell::Vacant.to_string(), " ");
}

#[test]
fn blank_board_shows_every_position_dimmed() {
    let d = |n: usize| format!("\x1b[2m{}\x1b[0m", n);
    let expected = format!(
        "+---+---+---+\n| {} | {} | {} |\n+---+---+---+\n| {} | {} | {} |\n+---+---+---+\n| {} | {} | {} |\n+---+---+---+\n",
        d(1), d(2), d(3), d(4), d(5), d(6), d(7), d(8), d(9)
    );
    assert_eq!(Board::default().to_string(), expected);
}

#[test]
fn board_shows_letters_where_cells_are_occupied() {
    let mut board = Board::default();
    board.set_cell(1, Cell::Occupied(Player::X)).unwrap();
    board.set_cell(5, Cell::Occupied(Player::O)).unwrap();
    board.set_cell(9, Cell::Occupied(Player::X)).unwrap();
    let expected = "+---+---+---+\n\
                    | X | \x1b[2m2\x1b[0m | \x1b[2m3\x1b[0m |\n\
                    +---+---+---+\n\
                    | \x1b[2m4\x1b[0m | O | \x1b[2m6\x1b[0m |\n\
                    +---+---+---+\n\
                    | \x1b[2m7\x1b[0m | \x1b[2m8\x1b[0m | X |\n\
                    +---+---+---+\n";
    assert_eq!(board.to_string(), expected);
}

#[test]
fn full_board_shows_no_digit() {
    let mut board = Board::default();
    for (i, mark) in "XOXXOOOXX".chars().enumerate() {
        let player = if mark == 'X' { Player::X } else { Player::O };
        board.set_cell(i + 1, Cell::Occupied(player)).unwrap();
    }
    let expected = "+---+---+---+\n\
                    | X | O | X |\n\
                    +---+---+---+\n\
                    | X | O | O |\n\
                    +---+---+---+\n\
                    | O | X | X |\n\
                    +---+---+---+\n";
    assert_eq!(board.to_string(), expected);
}

#[test]
fn board_text_has_seven_lines_with_borders_around_each_row() {
    let text = Board::default().to_string();
    let lines: Vec<&str> = text.lines().collect();
    assert_eq!(lines.len(), 7);
    for i in [0, 2, 4, 6] {
        assert_eq!(lines[i], "+---+---+---+");
    }
    for i in [1, 3, 5] {
        assert!(lines[i].starts_with("| "));
        assert!(lines[i].ends_with(" |"));
    }
    assert!(text.ends_with('\n'));
}
