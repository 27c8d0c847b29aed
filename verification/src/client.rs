//! The cadence of the game: how the frames of the front end turn into
//! ticks of the simulation.

use vstd::prelude::*;
use crate::production::TICKS_PER_SECOND;

verus! {

/// How many frames of the front end pass between two ticks of a running
/// game.
pub const FRAMES_PER_TICK: u32 = 10;

/// How long a frame of the front end lasts, in milliseconds. With
/// `FRAMES_PER_TICK` frames to a tick this makes five ticks to a second.
pub const FRAME_MILLIS: u64 = 20;

/// The ticks of one second, at the frames that each takes, fill that second.
pub proof fn lemma_ticks_fill_a_second()
    ensures
        TICKS_PER_SECOND * FRAMES_PER_TICK * FRAME_MILLIS == 1000,
{
}

/// Counts the frames of a running game and says when a tick is due.
#[derive(Clone, Copy, Debug)]
pub struct FrameClock {
    counter: u32,
}

impl FrameClock {
    #[verifier::type_invariant]
    closed spec fn inv(self) -> bool {
        self.counter < FRAMES_PER_TICK
    }

    /// How many frames have passed since the last tick.
    pub closed spec fn frames(self) -> int {
        self.counter as int
    }

    /// A clock that has counted no frame.
    pub fn new() -> (clock: FrameClock)
        ensures
            clock.frames() == 0,
    {
        FrameClock { counter: 0 }
    }

    /// How many frames have passed since the last tick.
    pub fn get_frames(&self) -> (frames: u32)
        ensures
            frames == self.frames(),
            frames < FRAMES_PER_TICK,
    {
        proof {
            use_type_invariant(self);
        }
        self.counter
    }

    /// Counts one frame and says whether a tick is due in it. A paused game
    /// counts no frames and is due no tick.
    pub fn advance(&mut self, paused: bool) -> (due: bool)
        ensures
            final(self).frames() == if paused {
                old(self).frames()
            } else {
                (old(self).frames() + 1) % (FRAMES_PER_TICK as int)
            },
            due == (!paused && old(self).frames() + 1 == FRAMES_PER_TICK),
    {
        proof {
            use_type_invariant(&*self);
        }
        if paused {
            return false;
        }
        self.counter = (self.counter + 1) % FRAMES_PER_TICK;
        self.counter == 0
    }
}

} // verus!
