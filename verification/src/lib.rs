//! A brick-breaking arcade simulation on integer coordinates.
//!
//! Lengths are counted in millionths of a pixel, times in microseconds and
//! speeds in pixels per second, so that one microsecond at one pixel per
//! second moves an entity by exactly one unit of length.

pub mod units;
pub mod geometry;
pub mod entities;
pub mod game;
pub mod render;
pub mod laws;
