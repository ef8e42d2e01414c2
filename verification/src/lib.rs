//! The rules of a small arcade shooter: a ship at the bottom of the screen
//! fires at waves of invaders that bounce between the walls while they
//! descend.
//!
//! Every position, size and speed is a whole number of hundredths of a pixel,
//! so that the rules are exact integer arithmetic. Time is a whole number of
//! milliseconds since the start of the program.

pub mod fixed;
pub mod enemy;
pub mod bullet;
pub mod player;
pub mod wave;
pub mod scene;
pub mod combat;
pub mod game;
pub mod laws;
