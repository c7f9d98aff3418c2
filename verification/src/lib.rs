//! Planar and spatial vector algebra over IEEE-754 binary64 scalars.
//!
//! Every scalar is carried as its binary64 bit pattern (a `u64`), so that
//! each operation has an exact contract: classification, negation, equality
//! and order are plain bit manipulations verified here, while the rounded
//! arithmetic goes through a software IEEE-754 implementation whose results
//! the contracts name.

pub mod arith;
pub mod ieee;
pub mod math;
pub mod vector2;
pub mod vector3;
