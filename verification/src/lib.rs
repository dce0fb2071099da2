//! An aquarium simulation engine: a population of fish moves, hungers, ages,
//! breeds, and dies inside a bounded two-dimensional tank, advanced one
//! discrete step at a time by [`tank::Tank::tick`]. Rendering, input handling,
//! and persistence are left to the surrounding program; the engine itself is a
//! pure state machine over plain values, and every operation here carries a
//! contract that pins its behaviour down.

pub mod fish;
pub mod sim;
pub mod species;
pub mod tank;
