//! The game state: a 3x3 board stored row-major in nine cells, and the player
//! whose turn it is. Moves are applied and retracted in place; retraction is
//! the exact inverse of application.

use vstd::prelude::*;

verus! {

/// One of the two players. X always moves first.
#[derive(Clone, Copy, Debug, PartialEq, Eq, Structural)]
pub enum Player {
    X,
    O,
}

/// The opponent of `p`.
pub open spec fn other(p: Player) -> Player {
    match p {
        Player::X => Player::O,
        Player::O => Player::X,
    }
}

/// How many cells among the first `n` hold the mark of `q`.
pub open spec fn count_upto(b: Seq<Option<Player>>, q: Player, n: int) -> nat
    decreases n,
{
    if n <= 0 {
        0
    } else {
        count_upto(b, q, n - 1) + (if b[n - 1] == Some(q) {
            1nat
        } else {
            0
        })
    }
}

/// The game state: nine cells, row-major, and the player to move.
pub struct State {
    pub board: Vec<Option<Player>>,
    pub turn: Player,
}

impl State {
    /// Well-formedness: exactly nine cells, and the mark counts are consistent
    /// with alternating play from an empty board with X first: the counts are
    /// equal when X is to move, and X has one extra mark when O is to move.
    pub open spec fn wf(self) -> bool {
        &&& self.board@.len() == 9
        &&& match self.turn {
            Player::X => count_upto(self.board@, Player::X, 9) == count_upto(
                self.board@,
                Player::O,
                9,
            ),
            Player::O => count_upto(self.board@, Player::X, 9) == count_upto(
                self.board@,
                Player::O,
                9,
            ) + 1,
        }
    }

    /// A fresh game: every cell empty, X to move.
    pub fn new() -> (s: State)
        ensures
            s.wf(),
            s.board@.len() == 9,
            forall|i: int| 0 <= i < 9 ==> s.board@[i] is None,
            s.turn == Player::X,
    {
        let mut cells: Vec<Option<Player>> = Vec::new();
        let mut i: usize = 0;
        while i < 9
            invariant
                i <= 9,
                cells@.len() == i,
                forall|j: int| 0 <= j < i ==> cells@[j] is None,
            decreases 9 - i,
        {
            cells.push(None);
            i += 1;
        }
        let s = State { board: cells, turn: Player::X };
        proof {
            lemma_count_all_none(s.board@, Player::X, 9);
            lemma_count_all_none(s.board@, Player::O, 9);
        }
        s
    }

    /// Places the mark of the player to move at `pos` and flips the turn.
    pub fn do_move(&mut self, pos: usize)
        requires
            old(self).wf(),
            pos < 9,
            old(self).board@[pos as int] is None,
        ensures
            final(self).wf(),
            final(self).board@ == old(self).board@.update(pos as int, Some(old(self).turn)),
            final(self).turn == other(old(self).turn),
    {
        let t = self.turn;
        self.board[pos] = Some(t);
        self.turn = match t {
            Player::X => Player::O,
            Player::O => Player::X,
        };
        proof {
            lemma_count_fill(old(self).board@, Player::X, pos as int, t, 9);
            lemma_count_fill(old(self).board@, Player::O, pos as int, t, 9);
        }
    }

    /// Clears the mark at `pos` — which must be the mark placed by the
    /// immediately preceding `do_move` — and flips the turn back.
    pub fn undo_move(&mut self, pos: usize)
        requires
            old(self).wf(),
            pos < 9,
            old(self).board@[pos as int] == Some(other(old(self).turn)),
        ensures
            final(self).wf(),
            final(self).board@ == old(self).board@.update(pos as int, None),
            final(self).turn == other(old(self).turn),
    {
        self.board[pos] = None;
        self.turn = match self.turn {
            Player::X => Player::O,
            Player::O => Player::X,
        };
        proof {
            let b_new = self.board@;
            let t = other(old(self).turn);
            assert(b_new.update(pos as int, Some(t)) =~= old(self).board@);
            lemma_count_fill(b_new, Player::X, pos as int, t, 9);
            lemma_count_fill(b_new, Player::O, pos as int, t, 9);
        }
    }
}

/// A board whose first `n` cells are all empty holds no marks there.
pub proof fn lemma_count_all_none(b: Seq<Option<Player>>, q: Player, n: int)
    requires
        forall|i: int| 0 <= i < n ==> b[i] is None,
    ensures
        count_upto(b, q, n) == 0,
    decreases n,
{
    if n > 0 {
        lemma_count_all_none(b, q, n - 1);
    }
}

/// Filling an empty cell adds exactly one mark for its owner and none for the
/// other player.
pub proof fn lemma_count_fill(b: Seq<Option<Player>>, q: Player, pos: int, t: Player, n: int)
    requires
        0 <= pos < b.len(),
        n <= b.len(),
        b[pos] is None,
    ensures
        count_upto(b.update(pos, Some(t)), q, n) == count_upto(b, q, n) + (if pos < n && t == q {
            1nat
        } else {
            0
        }),
    decreases n,
{
    if n > 0 {
        lemma_count_fill(b, q, pos, t, n - 1);
    }
}

/// Applying a move at an empty cell and then retracting it restores the exact
/// prior board, and flipping the turn twice restores the prior turn: move
/// application paired with retraction is a no-op on the state.
pub proof fn lemma_move_retract_inverse(b: Seq<Option<Player>>, t: Player, pos: int)
    requires
        b.len() == 9,
        0 <= pos < 9,
        b[pos] is None,
    ensures
        b.update(pos, Some(t)).update(pos, None) == b,
        other(other(t)) == t,
{
    assert(b.update(pos, Some(t)).update(pos, None) =~= b);
}

} // verus!

