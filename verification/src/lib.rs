//! Rules engine for a two-player board game whose pieces carry a
//! rock/paper/scissors kind.
//!
//! A [`Game`] owns a board of pieces, knows whose turn it is and who has won,
//! and changes only through [`Game::make_move`] and [`Game::force_win`]. Which
//! moves are legal and when the game is won is left to the two conditions of
//! its [`Rules`].
//!
//! The contracts speak of mathematical values: a [`field::Board`] for the
//! board, a [`GameState`] for the game, and the functions of [`transition`]
//! for what a move does to them. [`laws`] holds what follows for every game.

pub mod field;
pub mod game;
pub mod laws;
pub mod move_conditions;
pub mod pieces;
mod random;
pub mod transition;
pub mod unit;
pub mod win_conditions;

pub use crate::game::{Game, Geometry, Rules, HEIGHT, ROWS, WIDTH};
pub use crate::pieces::{Outcome, Player, RPS};
pub use crate::transition::{Action, GameState, MoveError};
