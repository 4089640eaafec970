//! A verified model of a 3x3 tic-tac-toe board: immutable board values,
//! move application, and line-based win/draw evaluation.

pub mod board;
pub mod eval;
