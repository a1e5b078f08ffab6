//! Simulation core of a side-scrolling climbing game.
//!
//! A character climbs an endless world of platforms and trees that is
//! generated tile by tile around it, collects pickups against a countdown,
//! and wins by reaching a target height or loses by running out of health
//! or time. This crate holds the rules of that game and nothing else: no
//! window, no audio, no assets. It is stepped with the player's input and
//! the length of the frame, and reports what to show and play.
//!
//! All quantities are fixed-point integers, so that every step is exact and
//! repeatable: lengths in thousandths of a world unit, velocities in
//! thousandths of a unit per second, time in microseconds. Where a formula
//! divides, motion rounds towards zero and positions on a grid round down.
//!
//! - [`game`] steps a whole play-through by one tick.
//! - [`world`], [`generator`] and [`placement`] generate the world.
//! - [`dino`] and [`control`] move the character.
//! - [`camera`] lets the camera follow it.
//! - [`pickups`] and [`session`] keep score and decide the outcome.
//! - [`units`], [`geometry`], [`timer`] and [`random`] are what they build on.

pub mod cache;
pub mod camera;
pub mod control;
pub mod dino;
pub mod game;
pub mod generator;
pub mod geometry;
pub mod leaderboard;
pub mod obstacle;
pub mod pickups;
pub mod placement;
pub mod random;
pub mod session;
pub mod sound;
pub mod timer;
pub mod transition;
pub mod units;
pub mod world;
