//! Verified decision logic of a first-person player controller that walks
//! over a height-map world with box and sphere obstacles.
//!
//! The geometry itself is floating point and lives outside this crate; what
//! stands here is everything the controller decides on plain values: which
//! key drives which movement input, how the held inputs become movement
//! directions, when a jump starts, what a collision along one axis does to the
//! body, which obstacle answers a collision query, which neighbouring cells a
//! terrain query visits and which height samples a terrain cell reads.

pub mod controls;
pub mod motion;
pub mod collision;
pub mod terrain;
