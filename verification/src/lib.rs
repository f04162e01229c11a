//! A clock face whose twelve labels sit at shuffled slots, with hands that
//! still point at the right labels.
//!
//! The library holds the label table, the arithmetic that places the two
//! hands, and the decisions taken on control input. Angles are exact integers
//! (ticks of a turn); turning them into radians and pixels is left to the
//! program that draws.
//!
//! - `permutation`: the table of labels by slot, its validity, its shuffle.
//! - `time`: one reading of the wall clock.
//! - `resolver`: from a table and a time to the angles of the two hands.
//! - `laws`: what holds of those angles on every face and at every time.
//! - `control`: the clock on show, and what button presses do to it.

pub mod control;
pub mod laws;
pub mod permutation;
pub mod resolver;
pub mod time;
