//! Terminal-outcome detection: the eight winning lines, scanned in the fixed
//! order rows top-to-bottom, columns left-to-right, then the two diagonals,
//! and the derived absolute and mover-relative scores.

use crate::board::{Player, State};
use vstd::prelude::*;

verus! {

/// The result of scanning a board: a decided winner, a draw on a full board,
/// or an undecided game.
#[derive(Clone, Copy, Debug, PartialEq, Eq, Structural)]
pub enum Outcome {
    XWins,
    OWins,
    Draw,
    Undecided,
}

/// The three cells `i`, `j`, `k` all hold the mark of `p`.
pub open spec fn line_is(b: Seq<Option<Player>>, p: Player, i: int, j: int, k: int) -> bool {
    b[i] == Some(p) && b[j] == Some(p) && b[k] == Some(p)
}

/// The winner on the single line `i`, `j`, `k`, if either player fills it.
pub open spec fn line_winner(b: Seq<Option<Player>>, i: int, j: int, k: int) -> Option<Player> {
    if line_is(b, Player::X, i, j, k) {
        Some(Player::X)
    } else if line_is(b, Player::O, i, j, k) {
        Some(Player::O)
    } else {
        None
    }
}

/// `p` fills at least one of the eight winning lines.
pub open spec fn wins(b: Seq<Option<Player>>, p: Player) -> bool {
    ||| line_is(b, p, 0, 1, 2)
    ||| line_is(b, p, 3, 4, 5)
    ||| line_is(b, p, 6, 7, 8)
    ||| line_is(b, p, 0, 3, 6)
    ||| line_is(b, p, 1, 4, 7)
    ||| line_is(b, p, 2, 5, 8)
    ||| line_is(b, p, 0, 4, 8)
    ||| line_is(b, p, 2, 4, 6)
}

/// Every cell holds a mark.
pub open spec fn full(b: Seq<Option<Player>>) -> bool {
    forall|i: int| 0 <= i < 9 ==> b[i] is Some
}

/// The winner of the first full line, scanning the eight lines in the fixed
/// documented order: three rows, three columns, diagonal from cell 0,
/// diagonal from cell 2.
pub open spec fn first_winner(b: Seq<Option<Player>>) -> Option<Player> {
    if line_winner(b, 0, 1, 2) is Some {
        line_winner(b, 0, 1, 2)
    } else if line_winner(b, 3, 4, 5) is Some {
        line_winner(b, 3, 4, 5)
    } else if line_winner(b, 6, 7, 8) is Some {
        line_winner(b, 6, 7, 8)
    } else if line_winner(b, 0, 3, 6) is Some {
        line_winner(b, 0, 3, 6)
    } else if line_winner(b, 1, 4, 7) is Some {
        line_winner(b, 1, 4, 7)
    } else if line_winner(b, 2, 5, 8) is Some {
        line_winner(b, 2, 5, 8)
    } else if line_winner(b, 0, 4, 8) is Some {
        line_winner(b, 0, 4, 8)
    } else {
        line_winner(b, 2, 4, 6)
    }
}

/// The outcome of a board: the first winner found in scan order, else a draw
/// on a full board, else undecided.
pub open spec fn outcome_spec(b: Seq<Option<Player>>) -> Outcome {
    match first_winner(b) {
        Some(Player::X) => Outcome::XWins,
        Some(Player::O) => Outcome::OWins,
        None => if full(b) {
            Outcome::Draw
        } else {
            Outcome::Undecided
        },
    }
}

/// The absolute score from X's point of view: +1 if the first winning line
/// belongs to X, -1 if to O, 0 for a draw, and no score while undecided.
pub open spec fn abs_score_spec(b: Seq<Option<Player>>) -> Option<int> {
    match first_winner(b) {
        Some(Player::X) => Some(1),
        Some(Player::O) => Some(-1),
        None => if full(b) {
            Some(0)
        } else {
            None
        },
    }
}

/// The score from the point of view of the player to move: the absolute
/// score, negated when O is the mover.
pub open spec fn rel_score_spec(b: Seq<Option<Player>>, t: Player) -> Option<int> {
    match abs_score_spec(b) {
        Some(v) => Some(
            if t == Player::O {
                -v
            } else {
                v
            },
        ),
        None => None,
    }
}

impl State {
    /// The winner on the single line `i`, `j`, `k`, if any.
    fn check_line(&self, i: usize, j: usize, k: usize) -> (r: Option<Player>)
        requires
            self.board@.len() == 9,
            i < 9,
            j < 9,
            k < 9,
        ensures
            r == line_winner(self.board@, i as int, j as int, k as int),
    {
        match (self.board[i], self.board[j], self.board[k]) {
            (Some(Player::X), Some(Player::X), Some(Player::X)) => Some(Player::X),
            (Some(Player::O), Some(Player::O), Some(Player::O)) => Some(Player::O),
            _ => None,
        }
    }

    /// The absolute score from X's point of view: `Some(1)` when the first
    /// full line in scan order is X's, `Some(-1)` when it is O's, `Some(0)`
    /// on a full board with no full line, `None` otherwise.
    pub fn absolute_score(&self) -> (r: Option<i8>)
        requires
            self.board@.len() == 9,
        ensures
            match r {
                Some(v) => abs_score_spec(self.board@) == Some(v as int),
                None => abs_score_spec(self.board@) is None,
            },
    {
        if let Some(p) = self.check_line(0, 1, 2) {
            return Some(mark_value(p));
        }
        if let Some(p) = self.check_line(3, 4, 5) {
            return Some(mark_value(p));
        }
        if let Some(p) = self.check_line(6, 7, 8) {
            return Some(mark_value(p));
        }
        if let Some(p) = self.check_line(0, 3, 6) {
            return Some(mark_value(p));
        }
        if let Some(p) = self.check_line(1, 4, 7) {
            return Some(mark_value(p));
        }
        if let Some(p) = self.check_line(2, 5, 8) {
            return Some(mark_value(p));
        }
        if let Some(p) = self.check_line(0, 4, 8) {
            return Some(mark_value(p));
        }
        if let Some(p) = self.check_line(2, 4, 6) {
            return Some(mark_value(p));
        }
        let mut i: usize = 0;
        while i < 9
            invariant
                self.board@.len() == 9,
                i <= 9,
                forall|j: int| 0 <= j < i ==> self.board@[j] is Some,
                first_winner(self.board@) is None,
            decreases 9 - i,
        {
            if self.board[i].is_none() {
                return None;
            }
            i += 1;
        }
        Some(0)
    }

    /// The score from the point of view of the player to move, or `None`
    /// while the game is undecided.
    pub fn score(&self) -> (r: Option<i8>)
        requires
            self.board@.len() == 9,
        ensures
            match r {
                Some(v) => rel_score_spec(self.board@, self.turn) == Some(v as int),
                None => rel_score_spec(self.board@, self.turn) is None,
            },
    {
        match self.absolute_score() {
            None => None,
            Some(v) => match self.turn {
                Player::X => Some(v),
                Player::O => Some(-v),
            },
        }
    }

    /// The outcome of the current board.
    pub fn outcome(&self) -> (r: Outcome)
        requires
            self.board@.len() == 9,
        ensures
            r == outcome_spec(self.board@),
    {
        match self.absolute_score() {
            None => Outcome::Undecided,
            Some(v) => if v == 1 {
                Outcome::XWins
            } else if v == -1 {
                Outcome::OWins
            } else {
                Outcome::Draw
            },
        }
    }
}

/// The `j`-th cell (0, 1 or 2) of the `k`-th winning line, in the fixed scan
/// order: three rows, three columns, diagonal from cell 0, diagonal from
/// cell 2.
pub open spec fn pattern_cell(k: int, j: int) -> int {
    if k == 0 {
        if j == 0 { 0 } else if j == 1 { 1 } else { 2 }
    } else if k == 1 {
        if j == 0 { 3 } else if j == 1 { 4 } else { 5 }
    } else if k == 2 {
        if j == 0 { 6 } else if j == 1 { 7 } else { 8 }
    } else if k == 3 {
        if j == 0 { 0 } else if j == 1 { 3 } else { 6 }
    } else if k == 4 {
        if j == 0 { 1 } else if j == 1 { 4 } else { 7 }
    } else if k == 5 {
        if j == 0 { 2 } else if j == 1 { 5 } else { 8 }
    } else if k == 6 {
        if j == 0 { 0 } else if j == 1 { 4 } else { 8 }
    } else {
        if j == 0 { 2 } else if j == 1 { 4 } else { 6 }
    }
}

/// For every one of the eight winning lines and either mark, a board holding
/// that mark on the whole line and nothing anywhere else is decided for that
/// mark's player.
pub proof fn lemma_pattern_win(b: Seq<Option<Player>>, k: int, m: Player)
    requires
        b.len() == 9,
        0 <= k < 8,
        forall|i: int|
            0 <= i < 9 ==> b[i] == (if i == pattern_cell(k, 0) || i == pattern_cell(k, 1) || i
                == pattern_cell(k, 2) {
                Some(m)
            } else {
                None
            }),
    ensures
        outcome_spec(b) == (if m == Player::X {
            Outcome::XWins
        } else {
            Outcome::OWins
        }),
{
    if k == 0 {
        assert(outcome_spec(b) == (if m == Player::X { Outcome::XWins } else { Outcome::OWins }));
    } else if k == 1 {
        assert(outcome_spec(b) == (if m == Player::X { Outcome::XWins } else { Outcome::OWins }));
    } else if k == 2 {
        assert(outcome_spec(b) == (if m == Player::X { Outcome::XWins } else { Outcome::OWins }));
    } else if k == 3 {
        assert(outcome_spec(b) == (if m == Player::X { Outcome::XWins } else { Outcome::OWins }));
    } else if k == 4 {
        assert(outcome_spec(b) == (if m == Player::X { Outcome::XWins } else { Outcome::OWins }));
    } else if k == 5 {
        assert(outcome_spec(b) == (if m == Player::X { Outcome::XWins } else { Outcome::OWins }));
    } else if k == 6 {
        assert(outcome_spec(b) == (if m == Player::X { Outcome::XWins } else { Outcome::OWins }));
    } else {
        assert(outcome_spec(b) == (if m == Player::X { Outcome::XWins } else { Outcome::OWins }));
    }
}

/// A full board on which neither player fills a line is a draw.
pub proof fn lemma_full_no_line_is_draw(b: Seq<Option<Player>>)
    requires
        b.len() == 9,
        full(b),
        !wins(b, Player::X),
        !wins(b, Player::O),
    ensures
        outcome_spec(b) == Outcome::Draw,
{
}

/// A board with an empty cell on which neither player fills a line is
/// undecided.
pub proof fn lemma_no_line_not_full_is_undecided(b: Seq<Option<Player>>)
    requires
        b.len() == 9,
        !full(b),
        !wins(b, Player::X),
        !wins(b, Player::O),
    ensures
        outcome_spec(b) == Outcome::Undecided,
{
}

/// +1 for X, -1 for O.
fn mark_value(p: Player) -> (r: i8)
    ensures
        r == (if p == Player::X {
            1int
        } else {
            -1int
        }),
{
    match p {
        Player::X => 1,
        Player::O => -1,
    }
}

} // verus!
