//! Verified 2D geometric primitives over IEEE-754 binary64 scalars.
//!
//! The library models a binary64 value by its bit pattern; every
//! classification, comparison and robustness decision is verified integer
//! logic, while the four rounding arithmetic operations are supplied by an
//! outside soft-float crate behind trusted wrappers.

pub mod scalar;
pub mod sqrt;
pub mod trig;
pub mod line2d;
pub mod point2d;
pub mod vector2d;

pub use scalar::Scalar;
pub use vector2d::Vector2d;
pub use point2d::Point2d;
pub use line2d::Line2d;
