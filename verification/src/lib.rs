//! Core of a color-tracking pipeline: a saturating color model, RGB to HSV
//! conversion, tolerance-band segmentation, centroid reduction, a calibration
//! state machine, and a fixed-size wire encoding for position updates.

pub mod calib;
pub mod color;
pub mod frame;
pub mod hsv;
pub mod locate;
pub mod segment;
pub mod serial;
