//! Reducing detector output to at most one tracked position per frame.
//!
//! Region detection itself is an external capability: it consumes the binary
//! mask and reports the centroids of the compact bright regions it found.
//! This module fixes the reduction policy over that report: zero regions is
//! the normal "not found" result, and under multiple detections the first
//! reported region wins — no filtering by area or shape, a documented
//! limitation.

use vstd::prelude::*;

verus! {

/// A tracked position in frame pixel space.
///
/// The detector reports centroids as binary32 floating-point coordinates;
/// they are carried here as their IEEE-754 bit patterns, since the library
/// only routes and encodes them and never does arithmetic on them.
#[derive(Debug, Clone, Copy, PartialEq, Eq, Structural)]
pub struct Ball {
    /// Bit pattern of the horizontal coordinate.
    pub x: u32,
    /// Bit pattern of the vertical coordinate.
    pub y: u32,
}

impl Ball {
    pub fn new(x: u32, y: u32) -> (b: Ball)
        ensures
            b == (Ball { x, y }),
    {
        Ball { x, y }
    }
}

/// Picks the frame's single tracked position from the detector's report:
/// `None` when no region was detected (an all-zero mask detects none), and
/// the first reported centroid otherwise, whatever else was reported.
pub fn locate(detections: &Vec<Ball>) -> (found: Option<Ball>)
    ensures
        detections@.len() == 0 ==> found is None,
        detections@.len() > 0 ==> found == Some(detections@[0]),
{
    if detections.len() == 0 {
        None
    } else {
        Some(detections[0])
    }
}

} // verus!
