//! Frames-per-second counting: frames are counted as they are drawn, and
//! once a second has gone by the count becomes the shown rate and starts over.

use vstd::prelude::*;

verus! {

/// The counter of drawn frames and the rate last shown.
pub struct FpsCounter {
    /// Frames drawn in the last full second.
    pub fps: u64,
    /// Frames drawn since that second ended.
    pub count: u64,
}

impl FpsCounter {
    /// A counter that has seen no frame.
    pub fn new() -> (r: FpsCounter)
        ensures
            r.fps == 0,
            r.count == 0,
    {
        FpsCounter { fps: 0, count: 0 }
    }

    /// Counts one frame. When `second_passed`, that is, a second or more went
    /// by since the clock was last started, the frames counted so far, this
    /// one included, become the shown rate and the count starts over; the
    /// result then asks the caller to start the clock again.
    pub fn frame(&mut self, second_passed: bool) -> (restart_clock: bool)
        requires
            old(self).count < u64::MAX,
        ensures
            restart_clock == second_passed,
            second_passed ==> final(self).fps == old(self).count + 1 && final(self).count == 0,
            !second_passed ==> final(self).fps == old(self).fps && final(self).count
                == old(self).count + 1,
    {
        self.count = self.count + 1;
        if second_passed {
            self.fps = self.count;
            self.count = 0;
        }
        second_passed
    }
}

} // verus!
