//! A terminal game center: a menu of games to launch, and the data model of
//! a chess game (board, squares, pieces, each player's moves and captures),
//! with the state machine that moves the input focus between menu and game.

pub mod board;
pub mod game;
pub mod menu;
pub mod piece;
pub mod player;
pub mod position;
pub mod shell;
