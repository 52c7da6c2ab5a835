//! The round timer: a once-per-second countdown driven by per-frame
//! elapsed-time deltas and gated by whether the session is being played.

use vstd::prelude::*;

verus! {

/// Countdown for one round. Sub-second time accumulates in
/// `accumulated_millis`; each whole accumulated second while playing takes
/// one off `remaining_seconds`, floored at zero. Time passed in while not
/// playing is discarded, not stockpiled, so no backlog of pending seconds
/// builds up.
pub struct RoundTimer {
    pub remaining_seconds: u32,
    pub accumulated_millis: u64,
}

impl RoundTimer {
    /// Sub-second accumulation stays below one second.
    pub open spec fn wf(self) -> bool {
        self.accumulated_millis < 1000
    }

    /// A fresh countdown of `seconds` whole seconds.
    pub fn new(seconds: u32) -> (r: RoundTimer)
        ensures
            r.wf(),
            r.remaining_seconds == seconds,
            r.accumulated_millis == 0,
    {
        RoundTimer { remaining_seconds: seconds, accumulated_millis: 0 }
    }

    /// Advances the countdown by `elapsed_millis` of wall-clock time.
    /// While playing, every whole accumulated second lowers the remaining
    /// count, floored at zero. While not playing, the remaining count
    /// never drops and the sub-second accumulation is reset.
    pub fn tick(&mut self, elapsed_millis: u64, playing: bool)
        requires
            old(self).wf(),
            elapsed_millis <= u64::MAX - 1000,
        ensures
            final(self).wf(),
            final(self).remaining_seconds <= old(self).remaining_seconds,
            !playing ==> final(self).remaining_seconds == old(self).remaining_seconds
                && final(self).accumulated_millis == 0,
            playing ==> ({
                let total = old(self).accumulated_millis + elapsed_millis;
                &&& final(self).accumulated_millis == total % 1000
                &&& final(self).remaining_seconds == (
                    if old(self).remaining_seconds >= total / 1000 {
                        old(self).remaining_seconds - total / 1000
                    } else {
                        0
                    })
            }),
    {
        if !playing {
            self.accumulated_millis = 0;
        } else {
            let total = self.accumulated_millis + elapsed_millis;
            let whole = total / 1000;
            self.accumulated_millis = total % 1000;
            if (self.remaining_seconds as u64) >= whole {
                self.remaining_seconds = self.remaining_seconds - (whole as u32);
            } else {
                self.remaining_seconds = 0;
            }
        }
    }
}

} // verus!
