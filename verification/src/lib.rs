//! A two-player Pong core on exact integer coordinates.
//!
//! Lengths, times, speeds and angles are fixed-point integers (see [`units`]),
//! so every rule of the game is a statement about integers: how the paddles
//! move, how the ball travels, what it collides with, who scores, and where
//! the score text stands. Drawing, sound, the clock and the keyboard belong to
//! the program around this library, which hands in plain values and reads
//! plain values back.

pub mod units;
pub mod court;
pub mod geometry;
pub mod velocity;
pub mod player;
pub mod ball;
pub mod scores_display;
pub mod middle_line;
pub mod game;
