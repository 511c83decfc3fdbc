use vstd::prelude::*;

verus! {

/// Decides on which presentation frames the game advances by one tick:
/// after `ratio` frames have been counted, the next frame fires a tick and
/// the count starts again.
#[derive(Debug, Clone, Copy, PartialEq, Eq, Structural)]
pub struct TickPacer {
    pub ratio: u32,
    pub counter: u32,
    pub unpaused: bool,
}

impl TickPacer {
    pub open spec fn wf(&self) -> bool {
        self.counter <= self.ratio
    }

    pub fn new(ratio: u32) -> (r: TickPacer)
        ensures
            r.wf(),
            r == (TickPacer { ratio, counter: 0, unpaused: true }),
    {
        TickPacer { ratio, counter: 0, unpaused: true }
    }

    /// Counts one frame; returns whether the game should tick now. A
    /// paused pacer counts nothing.
    pub fn on_frame(&mut self) -> (r: bool)
        requires
            old(self).wf(),
        ensures
            final(self).wf(),
            final(self).ratio == old(self).ratio,
            final(self).unpaused == old(self).unpaused,
            r == (old(self).unpaused && old(self).counter == old(self).ratio),
            final(self).counter == if !old(self).unpaused {
                old(self).counter
            } else if r {
                0
            } else {
                (old(self).counter + 1) as u32
            },
    {
        if !self.unpaused {
            return false;
        }
        if self.counter == self.ratio {
            self.counter = 0;
            true
        } else {
            self.counter = self.counter + 1;
            false
        }
    }

    /// Pauses a running game, or resumes a paused one.
    pub fn toggle_pause(&mut self)
        ensures
            *final(self) == (TickPacer { unpaused: !old(self).unpaused, ..*old(self) }),
    {
        self.unpaused = !self.unpaused;
    }
}

} // verus!
