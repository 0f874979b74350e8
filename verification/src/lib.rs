//! Verified core of a 3x3 tic-tac-toe game.
//!
//! The library holds the game logic alone: the board model, the win
//! evaluator, the click resolver that maps a pointer position to a board
//! cell, and the turn cascade that applies a player's click, lets the
//! random AI answer, and decides the game phase. Rendering, windowing and
//! asset loading belong to a host engine and stay outside.

pub mod board;
pub mod click;
pub mod game;
pub mod win;
