use vstd::prelude::*;

verus! {

/// The sum of the elapsed intervals `ds`.
pub open spec fn total(ds: Seq<u64>) -> int
    decreases ds.len(),
{
    if ds.len() == 0 {
        0
    } else {
        ds[0] + total(ds.drop_first())
    }
}

/// The last-sample marker after one fusion cycle per interval of `ds`, each
/// cycle moving it on by its own interval.
pub open spec fn advanced(last: int, ds: Seq<u64>) -> int
    decreases ds.len(),
{
    if ds.len() == 0 {
        last
    } else {
        advanced(last + ds[0], ds.drop_first())
    }
}

/// What elapsed between the marker `last` and the reading `now` of a monotonic
/// clock; a reading behind the marker counts as no time.
pub open spec fn elapsed_between(last: u64, now: u64) -> u64 {
    if now >= last {
        (now - last) as u64
    } else {
        0
    }
}

/// The fusion clock of a sensor driver: the time, in clock ticks, of the last
/// sample that went into the filter. Each cycle moves it on by the interval it
/// measured, never to the raw reading, so that the fusion clock and the poll
/// clock cannot drift apart.
pub struct FusionClock {
    last: u64,
}

impl FusionClock {
    pub closed spec fn last_spec(&self) -> u64 {
        self.last
    }

    /// A clock whose last sample is at `now`.
    pub fn new(now: u64) -> (r: Self)
        ensures
            r.last_spec() == now,
    {
        FusionClock { last: now }
    }

    /// The tick of the last sample.
    pub fn last(&self) -> (r: u64)
        ensures
            r == self.last_spec(),
    {
        self.last
    }

    /// The ticks that passed from the last sample to the reading `now`.
    pub fn elapsed(&self, now: u64) -> (r: u64)
        ensures
            r == elapsed_between(self.last_spec(), now),
    {
        if now >= self.last {
            now - self.last
        } else {
            0
        }
    }

    /// Moves the last sample on by `elapsed` ticks.
    pub fn advance(&mut self, elapsed: u64)
        requires
            old(self).last_spec() + elapsed <= u64::MAX,
        ensures
            final(self).last_spec() == old(self).last_spec() + elapsed,
    {
        self.last = self.last + elapsed;
    }

    /// One fusion cycle's bookkeeping: measures the interval since the last
    /// sample against the reading `now`, moves the last sample on by it, and
    /// returns it.
    pub fn cycle(&mut self, now: u64) -> (r: u64)
        ensures
            r == elapsed_between(old(self).last_spec(), now),
            final(self).last_spec() == old(self).last_spec() + r,
    {
        let d = self.elapsed(now);
        self.advance(d);
        d
    }
}

/// The marker after a run of cycles is where it started plus the sum of the
/// intervals the cycles measured; it never moves back.
pub proof fn lemma_advance_additive(last: int, ds: Seq<u64>)
    ensures
        advanced(last, ds) == last + total(ds),
        advanced(last, ds) >= last,
    decreases ds.len(),
{
    if ds.len() > 0 {
        lemma_advance_additive(last + ds[0], ds.drop_first());
    }
}

/// The intervals that one cycle per reading of `nows` measures, from the marker
/// `last`.
pub open spec fn measured(last: u64, nows: Seq<u64>) -> Seq<u64>
    decreases nows.len(),
{
    if nows.len() == 0 {
        Seq::empty()
    } else {
        let d = elapsed_between(last, nows[0]);
        seq![d] + measured((last + d) as u64, nows.drop_first())
    }
}

/// The marker after one cycle per reading of `nows`, from the marker `last`.
pub open spec fn cycled(last: u64, nows: Seq<u64>) -> u64
    decreases nows.len(),
{
    if nows.len() == 0 {
        last
    } else {
        cycled((last + elapsed_between(last, nows[0])) as u64, nows.drop_first())
    }
}

/// Driven by clock readings, the marker ends at its start plus the sum of the
/// intervals the cycles measured, and never moves back.
pub proof fn lemma_cycles_additive(last: u64, nows: Seq<u64>)
    ensures
        cycled(last, nows) == last + total(measured(last, nows)),
        cycled(last, nows) >= last,
    decreases nows.len(),
{
    if nows.len() > 0 {
        let d = elapsed_between(last, nows[0]);
        let next = (last + d) as u64;
        lemma_cycles_additive(next, nows.drop_first());
        assert(measured(last, nows).drop_first() =~= measured(next, nows.drop_first()));
    }
}

} // verus!
