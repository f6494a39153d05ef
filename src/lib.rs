//! Per-frame movement rules of a single-actor tile platformer.
//!
//! Lengths are measured in micro-units (a millionth of a map unit, one map
//! unit being one pixel of the tile map) and time in microseconds, so that
//! every rule is exact integer arithmetic.

pub mod movement;
pub mod level;
