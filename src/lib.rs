//! Core of a small 2D arena simulation: a player-steered body and a
//! population of autonomous "flies" that share one motion and bounce model.
//!
//! Coordinates are integers in thousandths of a unit, speeds are in
//! thousandths of a unit per second and time is in microseconds.
mod rng;

pub mod screen;
pub mod timer;
pub mod motion;
pub mod ai;
pub mod input;
pub mod spawner;
