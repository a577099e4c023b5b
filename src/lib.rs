//! A two-player subtraction game over a shared pile of pebbles, played by a
//! user against an automated opponent.

pub mod io;
pub mod strategy;
pub mod game;
pub mod random;
pub mod program;
pub mod laws;
