//! A side-scrolling arcade game core: a dragon falls under gravity, flaps
//! upward on demand and has to pass through the gap of each wall it meets.
//!
//! The crate holds the whole rule set as verified code.  Every type has a
//! mathematical model (its view), every transition is a spec function on
//! those models, and every executable function is proved to compute the
//! transition it names.  A front end feeds [`state::State::tick`] with the
//! time that passed and the key that was pressed, and paints the
//! [`draw::Frame`] that comes back.
//!
//! All quantities are integers.  Time is counted in microseconds.  A
//! velocity is counted in fifths of a row per step: gravity adds one fifth
//! per step up to ten fifths, a flap takes ten fifths off, and a step moves
//! the player by the whole rows in its velocity, rounded toward zero.
pub mod config;
pub mod draw;
pub mod player;
pub mod obstacle;
pub mod state;
pub mod laws;
