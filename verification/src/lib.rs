//! The gameplay core of a single-screen snake game: the board, the actor and
//! its movement, the pickup, and the cadence that drives them. Drawing, sound
//! and input polling are left to the program that embeds the library.

pub mod board;
pub mod direction;
pub mod apple;
pub mod snake;
pub mod laws;
pub mod pacing;
pub mod background;
pub mod round;
