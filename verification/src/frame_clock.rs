//! Presentation frame deltas of the client, measured in nanoseconds of a monotonic clock.
use vstd::prelude::*;

verus! {

/// Shortest frame delta handed to presentation: one microsecond.
pub const MINIMUM_FRAME_NANOS: u64 = 1_000;

/// Longest frame delta handed to presentation: a quarter second, so a long suspension
/// does not become one huge step.
pub const MAXIMUM_FRAME_NANOS: u64 = 250_000_000;

/// The delta of one presentation frame.
#[derive(Debug, Clone, Copy, PartialEq, Eq, Structural)]
pub enum FrameDelta {
    /// No previous frame since the clock resumed: the nominal frame time.
    Nominal,
    /// Time since the previous frame, limited to the accepted range.
    Measured(u64),
}

/// Time since the previous frame limited to the accepted range.
pub open spec fn clamped_frame(elapsed: nat) -> nat {
    if elapsed < MINIMUM_FRAME_NANOS {
        MINIMUM_FRAME_NANOS as nat
    } else if elapsed > MAXIMUM_FRAME_NANOS {
        MAXIMUM_FRAME_NANOS as nat
    } else {
        elapsed
    }
}

/// Monotonic time of the previous presented frame, forgotten while suspended.
#[derive(Debug, Clone, Copy, PartialEq, Eq, Structural)]
pub struct FrameClock {
    pub previous: Option<u64>,
}

impl FrameClock {
    /// A clock with no previous frame.
    pub fn new() -> (clock: Self)
        ensures
            clock.previous is None,
    {
        FrameClock { previous: None }
    }

    /// Start measuring from `now` when presentation resumes.
    pub fn resume(&mut self, now: u64)
        ensures
            final(self).previous == Some(now),
    {
        self.previous = Some(now);
    }

    /// Forget the previous frame when presentation is suspended.
    pub fn suspend(&mut self)
        ensures
            final(self).previous is None,
    {
        self.previous = None;
    }

    /// The delta of a frame at `now`, which becomes the previous frame: the nominal time
    /// after a resume without frames, otherwise the time since the previous frame (zero if
    /// the clock went backwards) limited to the accepted range.
    pub fn delta(&mut self, now: u64) -> (delta: FrameDelta)
        ensures
            final(self).previous == Some(now),
            delta == match old(self).previous {
                None => FrameDelta::Nominal,
                Some(previous) => FrameDelta::Measured(
                    clamped_frame(if now > previous {
                        (now - previous) as nat
                    } else {
                        0
                    }) as u64,
                ),
            },
    {
        let previous = self.previous;
        self.previous = Some(now);
        match previous {
            None => FrameDelta::Nominal,
            Some(previous) => {
                let elapsed = now.saturating_sub(previous);
                let clamped = if elapsed < MINIMUM_FRAME_NANOS {
                    MINIMUM_FRAME_NANOS
                } else if elapsed > MAXIMUM_FRAME_NANOS {
                    MAXIMUM_FRAME_NANOS
                } else {
                    elapsed
                };
                FrameDelta::Measured(clamped)
            },
        }
    }
}

} // verus!
