//! Bookkeeping for a swarm of points in which every point steers toward the
//! perpendicular bisector of the segment between its two partner points.
//!
//! The crate keeps the partner graph, the pause control and the two phases of
//! a tick (velocity update, position integration). The vector arithmetic is
//! supplied by the caller, so the library is independent of the number type
//! that positions are stored in.

pub mod controls;
pub mod partners;
pub mod swarm;
