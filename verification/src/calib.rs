//! The calibration state machine.
//!
//! Operator intent is tracked as a phase — idle, awaiting an object pick, or
//! awaiting a magnet pick — plus the persisted picks and the raw-display
//! flag. UI threads never touch this state: they enqueue [`Message`] values,
//! and the main loop applies them here, at most one per frame iteration, in
//! arrival order. The machine has no terminal state.

use vstd::prelude::*;
use crate::color::Color;
use crate::frame::Frame;

verus! {

/// An asynchronous UI event, consumed by the main loop.
#[derive(Debug, Clone, Copy, PartialEq, Eq, Structural)]
pub enum Message {
    /// Arm the next pointer click to pick the tracked object's color.
    SelectObject,
    /// A pointer click at frame coordinates `(x, y)`.
    Position(i32, i32),
    /// Arm the next pointer click to pick the magnet reference position.
    SelectMagnet,
    /// Show the raw camera frame instead of the mask.
    ToggleRaw(bool),
    /// Persist the current frame with the tracked position highlighted.
    SaveImg,
}

/// A pointer position in frame pixel coordinates.
#[derive(Debug, Clone, Copy, PartialEq, Eq, Structural)]
pub struct PixelPos {
    pub x: i32,
    pub y: i32,
}

/// What the next pointer click will mean.
#[derive(Debug, Clone, Copy, PartialEq, Eq, Structural)]
pub enum Phase {
    Idle,
    AwaitingObjectPick,
    AwaitingMagnetPick,
}

/// Calibration state owned exclusively by the main loop.
///
/// The object is identified by color; the magnet only by position, since it
/// stays still relative to the camera.
#[derive(Debug, Clone, Copy, PartialEq, Eq, Structural)]
pub struct Calibration {
    pub phase: Phase,
    pub object_color: Option<Color>,
    pub magnet_pos: Option<PixelPos>,
    pub raw_display: bool,
}

/// The transition relation of the machine, one event at a time.
///
/// - `SelectObject` and `SelectMagnet` arm their pick from any phase, each
///   canceling an in-flight pick of the other kind.
/// - An in-frame `Position` click while a pick is armed samples the frame
///   (color for the object, coordinates for the magnet) and returns to idle;
///   a click while idle is a no-op. A click outside the frame is ignored
///   entirely, which guards the pixel lookup.
/// - `ToggleRaw` is applied unconditionally; `SaveImg` changes nothing here
///   (the caller performs the save).
pub open spec fn step_spec(pre: Calibration, msg: Message, frame: Frame) -> Calibration {
    match msg {
        Message::SelectObject => Calibration { phase: Phase::AwaitingObjectPick, ..pre },
        Message::SelectMagnet => Calibration { phase: Phase::AwaitingMagnetPick, ..pre },
        Message::Position(x, y) => if frame.contains(x as int, y as int) {
            match pre.phase {
                Phase::Idle => pre,
                Phase::AwaitingObjectPick => Calibration {
                    phase: Phase::Idle,
                    object_color: Some(frame.pixel(x as int, y as int)),
                    ..pre
                },
                Phase::AwaitingMagnetPick => Calibration {
                    phase: Phase::Idle,
                    magnet_pos: Some(PixelPos { x, y }),
                    ..pre
                },
            }
        } else {
            pre
        },
        Message::ToggleRaw(b) => Calibration { raw_display: b, ..pre },
        Message::SaveImg => pre,
    }
}

impl Calibration {
    /// The startup state: idle, nothing picked, raw display on.
    pub fn new() -> (c: Calibration)
        ensures
            c.phase == Phase::Idle,
            c.object_color is None,
            c.magnet_pos is None,
            c.raw_display == true,
    {
        Calibration { phase: Phase::Idle, object_color: None, magnet_pos: None, raw_display: true }
    }

    /// Applies one event against the current frame. Returns whether the
    /// event asked for the frame to be saved; every other effect lands in
    /// the state, exactly as [`step_spec`] says.
    pub fn step(&mut self, msg: Message, frame: &Frame) -> (save: bool)
        requires
            frame.wf(),
        ensures
            *final(self) == step_spec(*old(self), msg, *frame),
            save == (msg is SaveImg),
    {
        match msg {
            Message::SelectObject => {
                self.phase = Phase::AwaitingObjectPick;
                false
            },
            Message::SelectMagnet => {
                self.phase = Phase::AwaitingMagnetPick;
                false
            },
            Message::Position(x, y) => {
                let inside = x >= 0 && y >= 0 && (x as usize) < frame.width && (y as usize)
                    < frame.height;
                if inside {
                    match self.phase {
                        Phase::Idle => {},
                        Phase::AwaitingObjectPick => {
                            let sampled = frame.pixel_at(x as usize, y as usize);
                            self.phase = Phase::Idle;
                            self.object_color = Some(sampled);
                        },
                        Phase::AwaitingMagnetPick => {
                            self.phase = Phase::Idle;
                            self.magnet_pos = Some(PixelPos { x, y });
                        },
                    }
                }
                false
            },
            Message::ToggleRaw(b) => {
                self.raw_display = b;
                false
            },
            Message::SaveImg => true,
        }
    }

    /// The per-frame decision of the main loop: segmentation, localization
    /// and transmission run only once a reference color is picked and raw
    /// display is not requested; otherwise the raw frame is shown.
    pub fn should_process(&self) -> (process: bool)
        ensures
            process == (self.object_color is Some && !self.raw_display),
    {
        self.object_color.is_some() && !self.raw_display
    }
}

} // verus!
