use vstd::prelude::*;

verus! {

/// Thins out a stream of repeated diagnostics: of the conditions recorded,
/// the first and then every `every`-th one is let through.
pub struct RateLimiter {
    every: u64,
    seen: u64,
}

impl RateLimiter {
    pub closed spec fn every_spec(&self) -> nat {
        self.every as nat
    }

    /// How many conditions were recorded (saturating at `u64::MAX`).
    pub closed spec fn seen_spec(&self) -> nat {
        self.seen as nat
    }

    pub closed spec fn wf(&self) -> bool {
        self.every >= 1
    }

    /// A limiter that lets through one in `every` conditions.
    pub fn new(every: u64) -> (r: Self)
        requires
            every >= 1,
        ensures
            r.wf(),
            r.every_spec() == every,
            r.seen_spec() == 0,
    {
        RateLimiter { every, seen: 0 }
    }

    /// Records one condition; returns whether it should be reported.
    pub fn record(&mut self) -> (report: bool)
        requires
            old(self).wf(),
        ensures
            final(self).wf(),
            final(self).every_spec() == old(self).every_spec(),
            report == (old(self).seen_spec() % old(self).every_spec() == 0),
            final(self).seen_spec() == if old(self).seen_spec() < u64::MAX {
                old(self).seen_spec() + 1
            } else {
                old(self).seen_spec()
            },
    {
        let report = self.seen % self.every == 0;
        self.seen = self.seen.saturating_add(1);
        report
    }

    /// How many conditions were recorded.
    pub fn seen(&self) -> (r: u64)
        ensures
            r == self.seen_spec(),
    {
        self.seen
    }
}

} // verus!
