//! A verified rules engine for Connect Four: a 6-row-by-7-column board,
//! gravity-based column drops, turn alternation, and detection of four
//! consecutive same-owner tokens along a row, column, or diagonal.

pub mod board;
pub mod win;
pub mod laws;
