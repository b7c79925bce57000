//! Simulation core of a vertically scrolling arcade shooter.
//!
//! All lengths are integers in milli-units (a thousandth of a world unit), all
//! speeds are milli-units per second and all durations are microseconds. The
//! origin is the centre of the window and `y` grows upward.
pub mod aircraft;
pub mod background;
pub mod bubble;
pub mod bullet;
pub mod config;
pub mod controls;
pub mod geometry;
pub mod motion;
pub mod obstacle;
pub mod random;
pub mod resolver;
pub mod score;
pub mod sound;
pub mod timer;
pub mod world;
