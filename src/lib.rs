//! A side-scrolling reflex game: a falling body that flaps upward through
//! procedurally placed gaps, and the mode machine that drives a session.
//!
//! Velocities are kept in tenths of a cell per physics step and elapsed time in
//! microseconds, so every quantity of the simulation is an integer.
mod obstacle;
mod player;
mod session;

pub use obstacle::{Obstacle, GAP_MAX, GAP_MIN, MIN_GAP_SIZE, SCREEN_HEIGHT, SCREEN_WIDTH};
pub use player::{lemma_free_fall, Player, PlayerView, FLAP_LIFT, GRAVITY, START_VELOCITY, TERMINAL_THRESHOLD};
pub use session::{GameMode, Key, State, FRAME_DURATION_US, START_X, START_Y};
