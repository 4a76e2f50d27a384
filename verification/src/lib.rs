//! A two-dimensional mathematical vector type, generic over its scalar.
//!
//! The vector operations are capability-gated: each operation is available
//! exactly when the scalar type supports the arithmetic it needs, expressed
//! through the traits of the `scalar` module. Every operation carries a
//! contract that pins its result down over the mathematical integers.

pub mod scalar;
pub mod vec2d;

pub use vec2d::Vec2D;
