use tictactoe::board::{Player, State};
use tictactoe::outcome::Outcome;

#[test]
fn empty_board_ties_everywhere_and_the_lowest_cell_wins_the_tie() {
    let mut s = State::new();
    assert_eq!(s.best_move(), 0);
    // The search restores the state it explored.
    assert_eq!(s.board, vec![None; 9]);
    assert!(matches!(s.turn, Player::X));
}

#[test]
fn completes_a_winning_row() {
    // X X .    X to move: playing cell 2 wins at once.
    // O O .
    // . . .
    let mut s = State::new();
    s.do_move(0); // X
    s.do_move(3); // O
    s.do_move(1); // X
    s.do_move(4); // O
    assert_eq!(s.best_move(), 2);
}

#[test]
fn blocks_an_opposing_row() {
    // X X .    O to move: only cell 2 stops the row.
    // O . .
    // . . .
    let mut s = State::new();
    s.do_move(0); // X
    s.do_move(3); // O
    s.do_move(1); // X
    assert_eq!(s.best_move(), 2);
}

#[test]
fn search_reports_the_value_negated_into_the_callers_frame() {
    let mut s = State::new();
    s.do_move(0); // X
    s.do_move(3); // O
    s.do_move(1); // X
    s.do_move(4); // O
    // X to move and winning: the mover's value is +1, returned negated.
    assert_eq!(s.search(-2, 2), (-1, 2));

    let mut s = State::new();
    // The empty board is a draw under optimal play.
    assert_eq!(s.search(-2, 2), (0, 0));
}

#[test]
fn self_play_from_the_empty_board_ends_in_a_draw() {
    let mut s = State::new();
    let mut plies = 0;
    while s.score().is_none() {
        let mv = s.best_move();
        assert!(mv < 9 && s.board[mv].is_none());
        s.do_move(mv);
        plies += 1;
        assert!(plies <= 9);
    }
    assert_eq!(s.outcome(), Outcome::Draw);
    assert_eq!(s.score(), Some(0));
    assert_eq!(plies, 9);
}

#[test]
fn optimal_play_never_loses_to_any_opponent_line() {
    // Against every possible first reply, the engine as X never loses.
    for reply in 0..9 {
        let mut s = State::new();
        let first = s.best_move();
        s.do_move(first);
        if s.board[reply].is_some() {
            continue;
        }
        s.do_move(reply);
        // X plays optimally for the rest of the game.
        loop {
            if s.score().is_some() {
                break;
            }
            let mv = s.best_move();
            s.do_move(mv); // X
            if s.score().is_some() {
                break;
            }
            let omv = s.best_move();
            s.do_move(omv); // O
        }
        assert_ne!(s.outcome(), Outcome::OWins);
    }
}
