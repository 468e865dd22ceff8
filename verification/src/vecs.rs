//! Vectors of numbers.

pub mod vec2;

pub use self::vec2::{Float, Vec2};
