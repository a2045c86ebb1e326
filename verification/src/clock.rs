//! The frame clock, and the settings and markers that are measured by it.

use vstd::prelude::*;

use crate::FrameNumber;

verus! {

/// Counts simulation frames. A rollback winds it back.
#[derive(Debug)]
pub struct GameClock {
    frame: FrameNumber,
}

impl View for GameClock {
    type V = FrameNumber;

    closed spec fn view(&self) -> FrameNumber {
        self.frame
    }
}

impl GameClock {
    /// A clock at frame 0.
    pub fn new() -> (clock: Self)
        ensures
            clock@ == 0,
    {
        GameClock { frame: 0 }
    }

    /// The frame that is being simulated.
    pub fn frame(&self) -> (frame: FrameNumber)
        ensures
            frame == self@,
    {
        self.frame
    }

    /// Moves the clock to `frame`.
    pub fn set(&mut self, frame: FrameNumber)
        ensures
            final(self)@ == frame,
    {
        self.frame = frame;
    }
}

/// Settings that all systems share.
#[derive(Debug, Clone, Copy)]
pub struct TimewarpConfig {
    /// How many frames back a rollback can reach.
    pub rollback_window: FrameNumber,
}

/// Marks an entity for despawning once no rollback can bring it back. The frame is that at
/// which the marker was noticed.
#[derive(Debug)]
pub struct DespawnMarker(pub Option<FrameNumber>);

impl DespawnMarker {
    /// A marker that was not noticed yet.
    pub fn new() -> (marker: Self)
        ensures
            marker.0 is None,
    {
        DespawnMarker(None)
    }
}

/// The frame `count` frames before `frame`, but no frame before 0.
pub open spec fn frames_before(frame: FrameNumber, count: FrameNumber) -> FrameNumber {
    if frame >= count {
        (frame - count) as FrameNumber
    } else {
        0
    }
}

/// The later of two frames.
pub open spec fn later(a: FrameNumber, b: FrameNumber) -> FrameNumber {
    if a > b {
        a
    } else {
        b
    }
}

} // verus!
