//! Runtime core of a view-stack driven 2D arcade game: shared frame context,
//! input snapshots, sprite and animation bookkeeping, the fixed-step loop's
//! decisions, and the entity simulation (ship, bullets, asteroid, parallax
//! backgrounds).
//!
//! All geometry is carried in exact integer arithmetic: lengths in thousandths
//! of a logical pixel ("millipixels"), times in milliseconds, velocities in
//! millipixels per second. Drawing is modelled as a queue of draw commands that
//! a platform layer replays against a real window.

pub mod phi;
pub mod views;
