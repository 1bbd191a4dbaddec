use tictactoe::board::{Player, State};
use tictactoe::outcome::Outcome;

/// Builds a board from a nine-character picture: 'X', 'O' or '.' per cell.
fn board_of(picture: &str, turn: Player) -> State {
    assert_eq!(picture.len(), 9);
    let cells: Vec<Option<Player>> = picture
        .chars()
        .map(|c| match c {
            'X' => Some(Player::X),
            'O' => Some(Player::O),
            _ => None,
        })
        .collect();
    State { board: cells, turn }
}

const PATTERNS: [[usize; 3]; 8] = [
    [0, 1, 2],
    [3, 4, 5],
    [6, 7, 8],
    [0, 3, 6],
    [1, 4, 7],
    [2, 5, 8],
    [0, 4, 8],
    [2, 4, 6],
];

#[test]
fn every_winning_pattern_decides_for_its_mark() {
    for pattern in PATTERNS.iter() {
        for &(mark, expected) in
            [(Player::X, Outcome::XWins), (Player::O, Outcome::OWins)].iter()
        {
            let mut cells: Vec<Option<Player>> = vec![None; 9];
            for &i in pattern.iter() {
                cells[i] = Some(mark);
            }
            let s = State { board: cells, turn: Player::X };
            assert_eq!(s.outcome(), expected);
        }
    }
}

#[test]
fn full_board_without_a_line_is_a_draw() {
    let s = board_of("XOXXOOOXX", Player::X);
    assert_eq!(s.outcome(), Outcome::Draw);
    assert_eq!(s.absolute_score(), Some(0));
    assert_eq!(s.score(), Some(0));
}

#[test]
fn partial_board_without_a_line_is_undecided() {
    let s = board_of("X........", Player::O);
    assert_eq!(s.outcome(), Outcome::Undecided);
    assert_eq!(s.absolute_score(), None);
    assert_eq!(s.score(), None);

    let nearly_full = board_of("XOXXOOOX.", Player::X);
    assert_eq!(nearly_full.outcome(), Outcome::Undecided);
}

#[test]
fn score_is_relative_to_the_mover() {
    let s = board_of("XXXOO....", Player::O);
    assert_eq!(s.absolute_score(), Some(1));
    assert_eq!(s.score(), Some(-1));

    let s = board_of("OOOXX.X..", Player::X);
    assert_eq!(s.absolute_score(), Some(-1));
    assert_eq!(s.score(), Some(-1));
}

#[test]
fn patterns_are_scanned_in_documented_order() {
    // Both rows are full; the topmost row is found first.
    let s = board_of("XXXOOO...", Player::X);
    assert_eq!(s.outcome(), Outcome::XWins);
    let s = board_of("OOOXXX...", Player::X);
    assert_eq!(s.outcome(), Outcome::OWins);
}

#[test]
fn fresh_state_is_empty_with_x_to_move() {
    let s = State::new();
    assert_eq!(s.board, vec![None; 9]);
    assert!(matches!(s.turn, Player::X));
    assert_eq!(s.outcome(), Outcome::Undecided);
}

#[test]
fn move_then_retract_restores_the_state() {
    let mut s = State::new();
    s.do_move(4);
    s.do_move(0);
    let board_before = s.board.clone();
    let turn_before = s.turn;
    s.do_move(7);
    s.undo_move(7);
    assert_eq!(s.board, board_before);
    assert_eq!(s.turn, turn_before);
}

#[test]
fn do_move_places_the_mover_and_flips_the_turn() {
    let mut s = State::new();
    s.do_move(4);
    assert_eq!(s.board[4], Some(Player::X));
    assert!(matches!(s.turn, Player::O));
    s.do_move(0);
    assert_eq!(s.board[0], Some(Player::O));
    assert!(matches!(s.turn, Player::X));
}
