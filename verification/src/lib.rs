//! A verified tic-tac-toe engine: a 3x3 game state with move application,
//! move retraction and terminal-outcome detection, and a negamax search with
//! alpha-beta pruning that is proved to return a game-theoretically optimal
//! move (identical, move and value, to an exhaustive full-width search).

pub mod board;
pub mod outcome;
pub mod search;
