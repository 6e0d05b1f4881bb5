//! Contact resolution for rigid bodies.
//!
//! Given one contact between two bodies, the library works out the pose and the
//! velocity that each body should take: a positional correction that pushes
//! the bodies apart, and an impulse along the contact normal. The arithmetic
//! itself is supplied by the caller through the traits of [`algebra`], so the
//! same code serves two and three dimensions and any precision. Every contract
//! is stated over the values that those operations return.
pub mod algebra;
pub mod body;
pub mod laws;
pub mod resolution;
