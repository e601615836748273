use vstd::arithmetic::div_mod::lemma_fundamental_div_mod_converse;
use vstd::prelude::*;

verus! {

/// A repeating accumulate-and-fire clock counted in milliseconds.
pub struct RepeatingTimer {
    pub interval_ms: u64,
    pub elapsed_ms: u64,
}

impl RepeatingTimer {
    /// The interval is positive and the accumulator stays below it.
    pub open spec fn wf(&self) -> bool {
        0 < self.interval_ms && self.elapsed_ms < self.interval_ms
    }

    /// A timer that fires every `interval_ms` milliseconds, with nothing accumulated.
    pub fn new(interval_ms: u64) -> (r: RepeatingTimer)
        requires
            interval_ms > 0,
        ensures
            r.wf(),
            r.interval_ms == interval_ms,
            r.elapsed_ms == 0,
    {
        RepeatingTimer { interval_ms, elapsed_ms: 0 }
    }

    /// Adds `delta_ms` to the accumulator and returns how many whole intervals
    /// elapsed; the remainder is kept for later ticks.
    pub fn tick(&mut self, delta_ms: u64) -> (fired: u64)
        requires
            old(self).wf(),
        ensures
            final(self).wf(),
            final(self).interval_ms == old(self).interval_ms,
            fired as int == (old(self).elapsed_ms + delta_ms) / (old(self).interval_ms as int),
            final(self).elapsed_ms as int == (old(self).elapsed_ms + delta_ms) % (
            old(self).interval_ms as int),
    {
        let interval = self.interval_ms;
        let whole = delta_ms / interval;
        let rest = delta_ms % interval;
        let room = interval - self.elapsed_ms;
        proof {
            let e = old(self).elapsed_ms as int;
            let i = interval as int;
            let d = delta_ms as int;
            assert(d == whole * i + rest) by (nonlinear_arith)
                requires
                    whole == d / i,
                    rest == d % i,
                    i > 0,
            ;
            assert(rest < i) by (nonlinear_arith)
                requires
                    rest == d % i,
                    i > 0,
            ;
            if rest >= room {
                assert(e + d == (whole + 1) * i + (rest - room)) by (nonlinear_arith)
                    requires
                        d == whole * i + rest,
                        room == i - e,
                ;
                lemma_fundamental_div_mod_converse(e + d, i, whole + 1, rest - room);
            } else {
                lemma_fundamental_div_mod_converse(e + d, i, whole as int, e + rest);
            }
            assert(whole < u64::MAX || rest < room) by (nonlinear_arith)
                requires
                    d == whole * i + rest,
                    0 <= d <= u64::MAX,
                    0 <= rest,
                    i > 0,
                    room > 0,
                    i >= room,
                    whole >= 0,
            ;
        }
        if rest >= room {
            self.elapsed_ms = rest - room;
            whole + 1
        } else {
            self.elapsed_ms = self.elapsed_ms + rest;
            whole
        }
    }
}

} // verus!
