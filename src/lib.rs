//! A one-ply advisor for tic-tac-toe: an immutable 3x3 board with
//! terminal-state detection, and an analyzer that proposes a move that wins
//! at once or, failing that, blocks the opponent's immediate win.

pub mod analyzer;
pub mod board;
