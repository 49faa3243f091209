use vstd::prelude::*;

verus! {

/// Nanoseconds in one second.
pub const NANOS_PER_SEC: u128 = 1_000_000_000;

/// Decides on which redraw requests a frame runs, so that frames come at a
/// fixed rate. `pending` is the time owed to frames, counted in nanoseconds
/// times `fps`: one frame is due for each full second in it.
pub struct FrameClock {
    pub fps: u64,
    pub prev_ns: u64,
    pub pending: u128,
}

impl FrameClock {
    /// The owed time stays below three frames, and the rate fits in 32 bits.
    pub open spec fn wf(self) -> bool {
        self.fps <= u32::MAX && self.pending <= 2 * NANOS_PER_SEC
    }

    /// The clock after a redraw request at `now_ns`, and whether a frame runs:
    /// the elapsed time is owed to frames; a frame runs when one is owed, and
    /// a backlog of more than two frames beyond it is dropped.
    pub open spec fn after_redraw(self, now_ns: u64) -> (FrameClock, bool) {
        let p = self.pending + (now_ns - self.prev_ns) * self.fps;
        if p >= NANOS_PER_SEC {
            let rest = p - NANOS_PER_SEC;
            (FrameClock { prev_ns: now_ns, pending: if rest > 2 * NANOS_PER_SEC { 0 } else { rest as u128 }, ..self }, true)
        } else {
            (FrameClock { prev_ns: now_ns, pending: p as u128, ..self }, false)
        }
    }

    /// A clock for `fps` frames per second, started at `now_ns`.
    pub fn new(fps: u32, now_ns: u64) -> (r: FrameClock)
        ensures
            r.wf(),
            r.fps == fps,
            r.prev_ns == now_ns,
            r.pending == 0,
    {
        FrameClock { fps: fps as u64, prev_ns: now_ns, pending: 0 }
    }

    /// Takes a redraw request at `now_ns` (no earlier than the last one) and
    /// says whether a frame runs.
    pub fn on_redraw(&mut self, now_ns: u64) -> (run: bool)
        requires
            old(self).wf(),
            old(self).prev_ns <= now_ns,
        ensures
            (*final(self), run) == old(self).after_redraw(now_ns),
            final(self).wf(),
    {
        let elapsed: u64 = now_ns - self.prev_ns;
        assert(elapsed * self.fps <= u64::MAX * u32::MAX) by (nonlinear_arith)
            requires
                elapsed <= u64::MAX,
                self.fps <= u32::MAX,
        ;
        let p: u128 = self.pending + elapsed as u128 * self.fps as u128;
        self.prev_ns = now_ns;
        if p >= NANOS_PER_SEC {
            let rest: u128 = p - NANOS_PER_SEC;
            self.pending = if rest > 2 * NANOS_PER_SEC {
                0
            } else {
                rest
            };
            true
        } else {
            self.pending = p;
            false
        }
    }
}

} // verus!
