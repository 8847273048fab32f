//! A keyboard-driven countdown timer: the state machine that decides what each
//! key and each clock reading does, and the description of what the screen shows.
pub mod timer;
pub mod clock;
pub mod display;
