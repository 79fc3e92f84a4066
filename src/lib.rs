//! A side-scrolling arcade game simulation: a lifecycle state machine, a
//! player under gravity, scrolling obstacle pairs with a score, and
//! axis-aligned collision, all over integer coordinates.
//!
//! Lengths are in milli-units of the play field (one field unit is 1000),
//! times are in microseconds.

pub mod geometry;
pub mod state;
pub mod player;
pub mod pipe;
pub mod game;
pub mod laws;
