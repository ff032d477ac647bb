use vstd::prelude::*;

verus! {

/// How long an action is held before the next one is read, in microseconds
/// (a tenth of a second).
pub const HOLD_TIME_MICROS: u64 = 100_000;

/// A repeating timer that paces how often player actions are read.
///
/// Clients send actions rarely compared with how often the simulation ticks,
/// so an action is held for one interval before the next one is taken.
/// Time is counted in whole microseconds.
#[derive(Debug, Clone, Copy)]
pub struct EventTimer {
    period: u64,
    elapsed: u64,
}

impl EventTimer {
    /// Length of one interval.
    pub closed spec fn period(&self) -> nat {
        self.period as nat
    }

    /// Time gone by since the current interval started.
    pub closed spec fn elapsed(&self) -> nat {
        self.elapsed as nat
    }

    pub closed spec fn wf(&self) -> bool {
        0 < self.period && self.elapsed < self.period
    }

    /// A timer whose intervals last `period` microseconds.
    pub fn with_period(period: u64) -> (r: Self)
        requires
            period > 0,
        ensures
            r.wf(),
            r.period() == period,
            r.elapsed() == 0,
    {
        EventTimer { period, elapsed: 0 }
    }

    /// Lets `delta` microseconds pass. Returns true when an interval ended
    /// during them; the time past its end carries over, modulo the period.
    pub fn tick(&mut self, delta: u64) -> (fired: bool)
        requires
            old(self).wf(),
        ensures
            final(self).wf(),
            final(self).period() == old(self).period(),
            fired == (old(self).elapsed() + delta >= old(self).period()),
            final(self).elapsed() == (old(self).elapsed() + delta) % (old(self).period() as int),
    {
        let left = self.period - self.elapsed;
        if delta >= left {
            self.elapsed = (delta - left) % self.period;
            proof {
                let p = self.period as int;
                let e = old(self).elapsed as int;
                let d = delta as int;
                assert((e + d) % p == (d - (p - e)) % p) by {
                    vstd::arithmetic::div_mod::lemma_mod_add_multiples_vanish(d - (p - e), p);
                }
            }
            true
        } else {
            self.elapsed = self.elapsed + delta;
            proof {
                vstd::arithmetic::div_mod::lemma_small_mod(
                    (old(self).elapsed + delta) as nat,
                    self.period as nat,
                );
            }
            false
        }
    }
}

impl Default for EventTimer {
    fn default() -> (r: Self)
        ensures
            r.wf(),
            r.period() == HOLD_TIME_MICROS,
            r.elapsed() == 0,
    {
        EventTimer::with_period(HOLD_TIME_MICROS)
    }
}

} // verus!
