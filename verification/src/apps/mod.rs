//! Watch applications: their state and how input changes it.

use vstd::prelude::*;

pub mod settings;
pub mod stopwatch;
pub mod timer;

verus! {

/// A touch position in panel pixels.
#[derive(Clone, Copy, Debug, PartialEq, Eq, Structural)]
pub struct TouchPoint {
    pub x: i32,
    pub y: i32,
}

/// What an application receives each frame: the touch, if the panel was
/// tapped, and the milliseconds since the previous frame.
#[derive(Clone, Copy, Debug, PartialEq, Eq, Structural)]
pub struct AppInput {
    pub touch: Option<TouchPoint>,
    pub dt_ms: u32,
}

/// What an application asks of the launcher after a frame.
#[derive(Clone, Copy, Debug, PartialEq, Eq, Structural)]
pub enum AppResult {
    Continue,
}

/// The characters of a minutes-and-seconds clock, "MM:SS", from its four digits.
pub open spec fn clock_text(m1: int, m0: int, s1: int, s0: int) -> Seq<u8> {
    seq![(0x30 + m1) as u8, (0x30 + m0) as u8, 0x3au8, (0x30 + s1) as u8, (0x30 + s0) as u8]
}

} // verus!
