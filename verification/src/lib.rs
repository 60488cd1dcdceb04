//! Display resolutions tied to aspect ratios: deriving width from height (or
//! vice versa) under a ratio, rescaling by a 2D scale vector, computing the
//! scale factor between two resolutions, and testing whether one resolution
//! integrally divides another.
//!
//! Widths, heights, ratios and scale factors are exact rational numbers, so
//! every aspect-ratio comparison in the contracts is exact value equality
//! rather than a floating-point approximation. The host windowing layer
//! converts the rational pairs to its own float or integer representations at
//! the boundary.

pub mod aspect;
pub mod common;
pub mod common4x3;
pub mod rational;
pub mod resolutions;

pub use aspect::AspectRatio;
pub use rational::Rational;
pub use resolutions::Resolution;
