//! A small arcade game core: a ship that slides along the bottom of the field
//! and fires beams upward, a scrolling starfield, and asteroids that spawn on a
//! timer and fall. All positions are integers in micropixels and all times are
//! integers in microseconds, so the simulation is exact.
pub mod frame;
pub mod game;
pub mod geometry;
pub mod laws;
mod random;
pub mod sprite;
pub mod world;
