//! The clock: the latest timestamp issued or observed, and the source of
//! physical time it reads.

use crate::source::{PhysicalClock, SystemClock};
use crate::timestamp::HLTimespec;
use vstd::prelude::*;

verus! {

/// A hybrid logical clock.
///
/// Its view is the latest timestamp it has issued or observed. Every
/// operation takes the clock by `&mut`, so one operation reads the time,
/// computes and stores the next timestamp before another can begin.
pub struct State<C: PhysicalClock = SystemClock> {
    latest: HLTimespec,
    source: C,
}

impl<C: PhysicalClock> View for State<C> {
    type V = HLTimespec;

    closed spec fn view(&self) -> HLTimespec {
        self.latest
    }
}

impl State<SystemClock> {
    /// A clock at the zero timestamp that reads the system's clock.
    pub fn new() -> (state: State<SystemClock>)
        ensures
            state@ == HLTimespec::zero(),
    {
        State { latest: HLTimespec::zero(), source: SystemClock {  } }
    }
}

impl<C: PhysicalClock> State<C> {
    /// The source of physical time.
    pub closed spec fn spec_source(&self) -> &C {
        &self.source
    }

    /// A clock at the zero timestamp that reads `source`.
    pub fn with_source(source: C) -> (state: State<C>)
        ensures
            state@ == HLTimespec::zero(),
            *state.source() == source,
    {
        State { latest: HLTimespec::zero(), source }
    }

    /// The source of physical time.
    #[verifier::when_used_as_spec(spec_source)]
    pub fn source(&self) -> (source: &C)
        ensures
            source == self.spec_source(),
    {
        &self.source
    }

    /// Issues a new timestamp for a local event.
    ///
    /// The source is read once, and the clock takes a tick at the time read.
    /// The timestamp issued is the clock's new state; it is strictly greater
    /// than the state before unless the counter wraps.
    pub fn get_time(&mut self) -> (t: HLTimespec)
        requires
            old(self).source().readable(),
        ensures
            exists|now|
                #[trigger] old(self).source().reads(now, *final(self).source()) && t == old(
                    self,
                )@.ticked(now),
            final(self)@ == t,
            old(self)@.logical < u16::MAX ==> old(self)@.precedes(t),
    {
        let now = self.source.now();
        self.latest = self.latest.tick(now);
        assert(old(self).source().reads(now, *self.source()));
        self.latest
    }

    /// Merges `event`, a timestamp observed elsewhere, and issues a new
    /// timestamp that follows it.
    ///
    /// The source is read once, and `event` is merged at the time read. The
    /// timestamp issued is the clock's new state; it is strictly greater than
    /// both the state before and `event` unless the counter wraps.
    pub fn update(&mut self, event: HLTimespec) -> (t: HLTimespec)
        requires
            old(self).source().readable(),
        ensures
            exists|now|
                #[trigger] old(self).source().reads(now, *final(self).source()) && t == old(
                    self,
                )@.merged(event, now),
            final(self)@ == t,
            old(self)@.logical < u16::MAX && event.logical < u16::MAX ==> old(self)@.precedes(t)
                && event.precedes(t),
    {
        let now = self.source.now();
        self.latest = self.latest.merge(event, now);
        assert(old(self).source().reads(now, *self.source()));
        self.latest
    }
}

} // verus!
