//! Noughts and crosses for two players on a board of three by three cells.
//!
//! [`board`] holds the board and finds a completed line, [`game`] holds the
//! turn and makes the moves, [`render`] draws the board as text, and
//! [`utils`] reads a move from what a player typed. Each function states what
//! it returns and what it changes, and the rules of the game that follow from
//! them are proved beside it.

pub mod board;
pub mod game;
pub mod render;
pub mod utils;
