use vstd::prelude::*;

verus! {

/// Adds `b` to `a` but never past `cap`.
pub open spec fn capped_add(a: int, b: int, cap: int) -> int {
    if a + b <= cap {
        a + b
    } else {
        cap
    }
}

/// A repeating timer, measured in whole milliseconds, driving a
/// sprite-sheet frame cycle: every time a full period elapses it fires
/// once and starts over.
pub struct AnimationTimer {
    period_ms: u64,
    elapsed_ms: u64,
}

impl AnimationTimer {
    /// The period of the cycle.
    pub closed spec fn period(self) -> int {
        self.period_ms as int
    }

    /// Time accumulated inside the current cycle.
    pub closed spec fn elapsed(self) -> int {
        self.elapsed_ms as int
    }

    /// The period is positive and the accumulated time stays below it.
    pub open spec fn wf(self) -> bool {
        0 < self.period() && self.elapsed() < self.period()
    }

    /// A fresh timer at the beginning of its cycle.
    pub fn new(period_ms: u64) -> (t: AnimationTimer)
        requires
            period_ms > 0,
        ensures
            t.wf(),
            t.period() == period_ms,
            t.elapsed() == 0,
    {
        AnimationTimer { period_ms, elapsed_ms: 0 }
    }

    /// Advances the timer by `delta_ms`; reports whether the period
    /// elapsed during this call.
    pub fn tick(&mut self, delta_ms: u64) -> (fired: bool)
        requires
            old(self).wf(),
        ensures
            final(self).wf(),
            final(self).period() == old(self).period(),
            fired == (old(self).elapsed() + delta_ms >= old(self).period()),
            final(self).elapsed() == (old(self).elapsed() + delta_ms) % old(self).period(),
    {
        let remaining = self.period_ms - self.elapsed_ms;
        if delta_ms >= remaining {
            let over = delta_ms - remaining;
            proof {
                let e: int = self.elapsed_ms as int;
                let d: int = delta_ms as int;
                let p: int = self.period_ms as int;
                vstd::arithmetic::div_mod::lemma_mod_multiples_vanish(1, e + d - p, p);
                assert(p * 1 + (e + d - p) == e + d);
                assert((e + d) % p == (e + d - p) % p);
                assert(over == e + d - p);
            }
            self.elapsed_ms = over % self.period_ms;
            true
        } else {
            proof {
                vstd::arithmetic::div_mod::lemma_small_mod(
                    (self.elapsed_ms + delta_ms) as nat,
                    self.period_ms as nat,
                );
            }
            self.elapsed_ms = self.elapsed_ms + delta_ms;
            false
        }
    }
}

/// A one-shot countdown, measured in whole milliseconds: it accumulates
/// time up to its duration and fires exactly once, when the duration is
/// reached.
pub struct CountdownTimer {
    duration_ms: u64,
    elapsed_ms: u64,
}

impl CountdownTimer {
    /// The full duration of the countdown.
    pub closed spec fn duration(self) -> int {
        self.duration_ms as int
    }

    /// Time accumulated so far, clamped to the duration.
    pub closed spec fn elapsed(self) -> int {
        self.elapsed_ms as int
    }

    /// The accumulated time never passes the duration.
    pub open spec fn wf(self) -> bool {
        self.elapsed() <= self.duration()
    }

    /// The countdown has run to its end.
    pub open spec fn finished(self) -> bool {
        self.elapsed() == self.duration()
    }

    /// A fresh countdown with nothing elapsed.
    pub fn new(duration_ms: u64) -> (t: CountdownTimer)
        requires
            duration_ms > 0,
        ensures
            t.wf(),
            t.duration() == duration_ms,
            t.elapsed() == 0,
    {
        CountdownTimer { duration_ms, elapsed_ms: 0 }
    }

    /// Advances the countdown by `delta_ms`; reports whether the duration
    /// was reached during this call. Once finished it stays finished and
    /// never fires again.
    pub fn tick(&mut self, delta_ms: u64) -> (just_finished: bool)
        requires
            old(self).wf(),
        ensures
            final(self).wf(),
            final(self).duration() == old(self).duration(),
            final(self).elapsed() == capped_add(
                old(self).elapsed(),
                delta_ms as int,
                old(self).duration(),
            ),
            just_finished == (!old(self).finished() && old(self).elapsed() + delta_ms
                >= old(self).duration()),
    {
        if self.elapsed_ms == self.duration_ms {
            false
        } else {
            let remaining = self.duration_ms - self.elapsed_ms;
            if delta_ms >= remaining {
                self.elapsed_ms = self.duration_ms;
                true
            } else {
                self.elapsed_ms = self.elapsed_ms + delta_ms;
                false
            }
        }
    }

    /// Whether the countdown has run to its end.
    pub fn is_finished(&self) -> (b: bool)
        ensures
            b == self.finished(),
    {
        self.elapsed_ms == self.duration_ms
    }
}

} // verus!
