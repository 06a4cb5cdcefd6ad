//! FlappyDive: the simulation core of a side-scrolling submarine game.
//!
//! The crate holds the game's rules (the phase machine, the actors and their
//! per-frame updates, obstacle geometry and theming) as verified code on
//! plain values. Drawing, input polling and frame pacing belong to the
//! program that embeds it: every frame it feeds key events in and gets a list
//! of draw commands back.
//!
//! Sub-pixel quantities are fixed-point integers in thousandths of a pixel,
//! so that a frame's physics is exact and the same on every machine.

pub mod theme;
pub mod units;
pub mod state;
pub mod geometry;
pub mod draw;
pub mod text;
pub mod actors;
pub mod game;
mod rng;
