//! The simulation core of a small arcade shooter: a ship at the bottom of the
//! screen shoots at the asteroids that fall towards it.
//!
//! Everything is counted in whole numbers. Lengths are sub-pixels, spans of
//! time are ticks (see [`units`]), and the countdown to the next asteroid is an
//! exact fraction, so a frame gives the same result on every machine and no
//! rounding is hidden anywhere. A window, a clock and a keyboard are left to
//! the program around this library: it hands in the ticks that passed and what
//! the player holds, and asks what to draw.
//!
//! [`world::World`] is the game. [`model::WorldModel`] says, in unbounded
//! integers, what a frame does; the game is proved to do exactly that.

pub mod collection;
pub mod entities;
pub mod model;
pub mod units;
pub mod util;
pub mod world;
