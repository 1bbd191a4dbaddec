//! Negamax search with alpha-beta pruning. The specification side defines the
//! game-theoretic value of a position by exhaustive full-width recursion; the
//! executable search prunes, and is proved to return the same value and the
//! same (lowest-indexed) optimal move as that full-width definition.

use crate::board::{other, Player, State};
use crate::outcome::{full, rel_score_spec};
use vstd::prelude::*;

verus! {

/// How many of the first `n` cells are empty.
pub open spec fn empties_upto(b: Seq<Option<Player>>, n: int) -> nat
    decreases n,
{
    if n <= 0 {
        0
    } else {
        empties_upto(b, n - 1) + (if b[n - 1] is None {
            1nat
        } else {
            0
        })
    }
}

/// How many cells of the board are empty: the measure that every move
/// strictly decreases.
pub open spec fn num_empty(b: Seq<Option<Player>>) -> nat {
    empties_upto(b, b.len() as int)
}

/// Filling an empty cell removes exactly one empty cell.
pub proof fn lemma_empties_fill(b: Seq<Option<Player>>, pos: int, t: Player, n: int)
    requires
        0 <= pos < b.len(),
        n <= b.len(),
        b[pos] is None,
    ensures
        empties_upto(b, n) == empties_upto(b.update(pos, Some(t)), n) + (if pos < n {
            1nat
        } else {
            0
        }),
    decreases n,
{
    if n > 0 {
        lemma_empties_fill(b, pos, t, n - 1);
    }
}

/// The game-theoretic value of the position, from the point of view of the
/// player to move: the terminal score if the game is decided, and otherwise
/// the maximum, over every empty cell, of the negated value the opponent is
/// left with — an exhaustive full-width search, with no pruning.
pub open spec fn value(b: Seq<Option<Player>>, t: Player) -> int
    decreases num_empty(b), 10int,
{
    match rel_score_spec(b, t) {
        Some(v) => v,
        None => best_upto(b, t, 9),
    }
}

/// The maximum of `-value` over the moves at empty cells with index below
/// `n`, and -2 (below every attainable value) when there is no such cell.
pub open spec fn best_upto(b: Seq<Option<Player>>, t: Player, n: int) -> int
    decreases num_empty(b), n,
    via best_upto_decreases
{
    if n <= 0 || b.len() < n {
        -2
    } else {
        let rest = best_upto(b, t, n - 1);
        if b[n - 1] is None {
            let mv = -value(b.update(n - 1, Some(t)), other(t));
            if mv >= rest {
                mv
            } else {
                rest
            }
        } else {
            rest
        }
    }
}

#[via_fn]
proof fn best_upto_decreases(b: Seq<Option<Player>>, t: Player, n: int) {
    if 0 < n <= b.len() && b[n - 1] is None {
        lemma_empties_fill(b, n - 1, t, b.len() as int);
    }
}

/// The value, for the player to move, of playing the empty cell `c`: the
/// negation of the value the opponent then faces.
pub open spec fn move_val(b: Seq<Option<Player>>, t: Player, c: int) -> int {
    -value(b.update(c, Some(t)), other(t))
}

/// `m` is the optimal move the search is specified to return: an empty cell
/// achieving the game-theoretic value, and the lowest-indexed such cell.
pub open spec fn is_best_move(b: Seq<Option<Player>>, t: Player, m: int) -> bool {
    &&& 0 <= m < 9
    &&& b[m] is None
    &&& move_val(b, t, m) == value(b, t)
    &&& forall|c: int| 0 <= c < m && b[c] is None ==> move_val(b, t, c) < value(b, t)
}

/// Every attainable value lies in [-1, 1].
pub proof fn lemma_value_bounds(b: Seq<Option<Player>>, t: Player)
    requires
        b.len() == 9,
    ensures
        -1 <= value(b, t) <= 1,
    decreases num_empty(b), 10int,
{
    if rel_score_spec(b, t) is None {
        assert(!full(b));
        lemma_best_upto_props(b, t, 9);
        let w = choose|i: int| 0 <= i < 9 && b[i] is None;
        assert(b[w] is None);
    }
}

/// Structure of the prefix maximum `best_upto`: it bounds the value of every
/// move it covers, it is attained by one of them unless it is the sentinel
/// -2, and it is the sentinel exactly when the prefix has no empty cell.
pub proof fn lemma_best_upto_props(b: Seq<Option<Player>>, t: Player, n: int)
    requires
        b.len() == 9,
        0 <= n <= 9,
    ensures
        best_upto(b, t, n) <= 1,
        forall|c: int| 0 <= c < n && b[c] is None ==> move_val(b, t, c) <= best_upto(b, t, n),
        best_upto(b, t, n) == -2 || (exists|c: int|
            0 <= c < n && b[c] is None && move_val(b, t, c) == best_upto(b, t, n)),
        (best_upto(b, t, n) == -2) <==> (forall|c: int| 0 <= c < n ==> b[c] is Some),
        best_upto(b, t, n) == -2 || -1 <= best_upto(b, t, n) <= 1,
    decreases num_empty(b), n,
{
    if n > 0 {
        lemma_best_upto_props(b, t, n - 1);
        let rest = best_upto(b, t, n - 1);
        if b[n - 1] is None {
            lemma_empties_fill(b, n - 1, t, 9);
            lemma_value_bounds(b.update(n - 1, Some(t)), other(t));
            if move_val(b, t, n - 1) >= rest {
                assert(b[n - 1] is None && move_val(b, t, n - 1) == best_upto(b, t, n));
            } else {
                let w = choose|c: int|
                    0 <= c < n - 1 && b[c] is None && move_val(b, t, c) == rest;
                assert(b[w] is None && move_val(b, t, w) == best_upto(b, t, n));
            }
        } else {
            if rest != -2 {
                let w = choose|c: int|
                    0 <= c < n - 1 && b[c] is None && move_val(b, t, c) == rest;
                assert(b[w] is None && move_val(b, t, w) == best_upto(b, t, n));
            }
        }
    }
}

/// The fail-soft guarantee of the windowed search over the window
/// `(lo, up)`: the returned score `sv` (seen from the searched player, so
/// negated relative to `r.0`) is exact inside the window, a sound upper
/// bound on the true value when it fails low, and a sound lower bound when
/// it fails high; and inside the window the returned move is the
/// lowest-indexed empty cell achieving the value. Since the true value is
/// what the exhaustive full-width recursion `value` defines, a search over a
/// window wider than [-1, 1] returns exactly the full-width result: pruning
/// never changes the chosen move or the returned value.
pub open spec fn search_post(
    b: Seq<Option<Player>>,
    t: Player,
    lo: int,
    up: int,
    r: (i8, usize),
) -> bool {
    let sv = -(r.0 as int);
    let v = value(b, t);
    &&& -1 <= r.0 <= 1
    &&& (sv <= lo ==> v <= sv)
    &&& (sv >= up ==> sv <= v)
    &&& (lo < sv < up ==> sv == v)
    &&& (rel_score_spec(b, t) is Some ==> sv == v && r.1 == 0)
    &&& (rel_score_spec(b, t) is None ==> {
        &&& r.1 < 9
        &&& b[r.1 as int] is None
        &&& (lo < sv < up ==> move_val(b, t, r.1 as int) == sv && (forall|c: int|
            0 <= c < r.1 as int && b[c] is None ==> move_val(b, t, c) < sv))
    })
}

impl State {
    /// Negamax over the window `(lower, upper)` with alpha-beta pruning.
    /// Returns the searched value negated into the caller's frame, together
    /// with the chosen move; the board and turn are restored exactly. The
    /// contract (`search_post`) states that the result agrees with the
    /// exhaustive full-width recursion `value` wherever the window allows an
    /// exact answer, so pruning affects the work done, never the result.
    pub fn search(&mut self, lower: i8, upper: i8) -> (r: (i8, usize))
        requires
            old(self).wf(),
            -2 <= lower < upper <= 2,
        ensures
            final(self).board@ == old(self).board@,
            final(self).turn == old(self).turn,
            search_post(old(self).board@, old(self).turn, lower as int, upper as int, r),
        decreases num_empty(old(self).board@),
    {
        let ghost b0 = self.board@;
        let ghost t0 = self.turn;
        if let Some(sc) = self.score() {
            return (-sc, 0);
        }
        let mut best_score: i8 = -2;
        let mut best_mv: usize = 0;
        let mut low: i8 = lower;
        let mut pos: usize = 0;
        while pos < 9
            invariant_except_break
                (low as int) < upper as int,
                best_upto(b0, t0, pos as int) <= best_score as int,
                (best_score as int > lower as int ==> (forall|c: int|
                    0 <= c < best_mv as int && b0[c] is None ==> move_val(b0, t0, c)
                        < best_score as int)),
            invariant
                self.board@ == b0,
                self.turn == t0,
                self.wf(),
                b0 == old(self).board@,
                t0 == old(self).turn,
                b0.len() == 9,
                rel_score_spec(b0, t0) is None,
                -2 <= lower < upper <= 2,
                pos <= 9,
                best_score == -2 || -1 <= best_score <= 1,
                best_score == -2 ==> best_mv == 0 && (forall|c: int|
                    0 <= c < pos ==> b0[c] is Some),
                best_score != -2 ==> best_mv < 9 && best_mv <= pos && b0[best_mv as int] is None,
                (best_score as int > lower as int ==> move_val(b0, t0, best_mv as int)
                    >= best_score as int),
                (best_score as int > lower as int && (best_score as int) < upper as int
                    ==> move_val(b0, t0, best_mv as int) == best_score as int),
                low as int == (if best_score as int > lower as int {
                    best_score as int
                } else {
                    lower as int
                }),
            ensures
                best_score as int >= upper as int || (pos == 9 && best_upto(b0, t0, 9)
                    <= best_score as int && (best_score as int > lower as int ==> (forall|c: int|
                    0 <= c < best_mv as int && b0[c] is None ==> move_val(b0, t0, c)
                        < best_score as int))),
            decreases 9 - pos,
        {
            if self.board[pos].is_none() {
                proof {
                    lemma_empties_fill(b0, pos as int, t0, 9);
                }
                self.do_move(pos);
                let (score, _m) = self.search(-upper, -low);
                self.undo_move(pos);
                proof {
                    assert(self.board@ =~= b0);
                    let s = score as int;
                    let c = pos as int;
                    lemma_best_upto_props(b0, t0, c);
                    assert(s <= low as int ==> move_val(b0, t0, c) <= s);
                    assert((low as int) < s < (upper as int) ==> move_val(b0, t0, c) == s);
                    assert(s >= upper as int ==> move_val(b0, t0, c) >= s);
                }
                if score > best_score {
                    best_score = score;
                    best_mv = pos;
                    if score > low {
                        low = score;
                        if score >= upper {
                            break;
                        }
                    }
                }
            }
            pos += 1;
        }
        proof {
            lemma_best_upto_props(b0, t0, 9);
            assert(!full(b0));
            let w = choose|i: int| 0 <= i < 9 && b0[i] is None;
            assert(b0[w] is None);
        }
        (-best_score, best_mv)
    }

    /// The optimal move for the player to move in a not-yet-decided game:
    /// an empty cell achieving the game-theoretic value of the position,
    /// and the lowest-indexed such cell — the same move an exhaustive
    /// full-width search chooses. The board and turn are restored exactly.
    pub fn best_move(&mut self) -> (r: usize)
        requires
            old(self).wf(),
            rel_score_spec(old(self).board@, old(self).turn) is None,
        ensures
            final(self).board@ == old(self).board@,
            final(self).turn == old(self).turn,
            is_best_move(old(self).board@, old(self).turn, r as int),
    {
        let (_score, mv) = self.search(-2, 2);
        mv
    }
}

/// From a position where the mover does not stand to lose (the value is at
/// least a draw), the optimal move never hands the opponent a win: the value
/// the opponent is left to move on is at most a draw. Iterating this from
/// any non-losing position — in particular the empty board — optimal play
/// never reaches a position lost for the player who followed it.
pub proof fn lemma_best_move_never_loses(b: Seq<Option<Player>>, t: Player, m: int)
    requires
        b.len() == 9,
        rel_score_spec(b, t) is None,
        is_best_move(b, t, m),
        value(b, t) >= 0,
    ensures
        value(b.update(m, Some(t)), other(t)) <= 0,
{
}

/// One full round of the argument above: from a position the mover does not
/// lose, play the optimal move; then whatever empty cell the opponent
/// answers with, the mover again faces a position with value at least a
/// draw. Iterated from the empty board this is exactly the guarantee that a
/// player following `best_move` never reaches a lost position.
pub proof fn lemma_any_reply_keeps_nonlosing(b: Seq<Option<Player>>, t: Player, m: int, c: int)
    requires
        b.len() == 9,
        rel_score_spec(b, t) is None,
        is_best_move(b, t, m),
        value(b, t) >= 0,
        rel_score_spec(b.update(m, Some(t)), other(t)) is None,
        0 <= c < 9,
        b.update(m, Some(t))[c] is None,
    ensures
        value(b.update(m, Some(t)).update(c, Some(other(t))), t) >= 0,
{
    let b1 = b.update(m, Some(t));
    lemma_best_move_never_loses(b, t, m);
    lemma_best_upto_props(b1, other(t), 9);
    assert(move_val(b1, other(t), c) <= best_upto(b1, other(t), 9));
    assert(value(b1.update(c, Some(other(t))), t) == -move_val(b1, other(t), c));
}

} // verus!
