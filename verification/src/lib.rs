//! A cursor-driven 3x3 grid game against a randomized automated opponent.
//!
//! The library owns the whole game state machine: board, scores, turn
//! alternation, cursor movement, win detection, and round resets. Input
//! reading, frame timing and terminal output live outside the library; they
//! hand in command tokens and print the rendered frames back out.

pub mod game;
pub mod render;
mod random;
