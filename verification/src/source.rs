//! Sources of physical time: the system's clock, and a scripted sequence of
//! readings for deterministic runs.

use crate::wall::Wall;
use vstd::prelude::*;

verus! {

/// Something that can be asked for the current physical time.
///
/// A source describes itself by two predicates. `readable` says whether it
/// can be asked at all; `reads` relates a source to each reading it may give
/// and to the source it is afterwards.
pub trait PhysicalClock: Sized {
    /// The source can be asked for the time. Unless a source says otherwise,
    /// it always can.
    open spec fn readable(&self) -> bool {
        true
    }

    /// Asked for the time, the source may answer `now` and become `after`.
    /// Unless a source says otherwise, nothing is known of either.
    open spec fn reads(&self, now: Wall, after: Self) -> bool {
        true
    }

    /// Whether the source can be asked for the time.
    fn ready(&self) -> (r: bool)
        ensures
            r == self.readable(),
    ;

    /// Asks for the current physical time.
    fn now(&mut self) -> (now: Wall)
        requires
            old(self).readable(),
        ensures
            old(self).reads(now, *final(self)),
    ;
}

/// Reads the system's real-time clock through `time::get_time`.
///
/// Nothing is known of the value read but what that function checks before
/// it returns: the nanoseconds lie within one second.
#[verifier::external_body]
fn system_time() -> (now: Wall)
    ensures
        now.normalized(),
{
    let t = time::get_time();
    Wall { sec: t.sec, nsec: t.nsec }
}

/// The system's real-time clock.
#[derive(Debug, Clone, Copy)]
pub struct SystemClock {}

impl PhysicalClock for SystemClock {
    open spec fn reads(&self, now: Wall, after: SystemClock) -> bool {
        now.normalized()
    }

    fn ready(&self) -> (r: bool) {
        true
    }

    fn now(&mut self) -> (now: Wall) {
        system_time()
    }
}

/// A source that gives out a fixed sequence of readings, one per call, in
/// order.
///
/// Its view is the sequence of readings still to come. Once that is empty
/// the source cannot be read.
#[derive(Debug)]
pub struct ScriptedClock {
    readings: Vec<Wall>,
    given: usize,
}

impl View for ScriptedClock {
    type V = Seq<Wall>;

    closed spec fn view(&self) -> Seq<Wall> {
        self.readings@.skip(self.given as int)
    }
}

impl ScriptedClock {
    #[verifier::type_invariant]
    spec fn within(self) -> bool {
        self.given <= self.readings.len()
    }

    /// A source that will give out `readings` from first to last.
    pub fn new(readings: Vec<Wall>) -> (clock: ScriptedClock)
        ensures
            clock@ == readings@,
    {
        ScriptedClock { readings, given: 0 }
    }

    /// The number of readings still to come.
    pub fn remaining(&self) -> (n: usize)
        ensures
            n == self@.len(),
    {
        proof {
            use_type_invariant(self);
        }
        self.readings.len() - self.given
    }
}

impl PhysicalClock for ScriptedClock {
    open spec fn readable(&self) -> bool {
        self@.len() > 0
    }

    open spec fn reads(&self, now: Wall, after: ScriptedClock) -> bool {
        self@.len() > 0 && now == self@[0] && after@ == self@.skip(1)
    }

    fn ready(&self) -> (r: bool) {
        self.remaining() > 0
    }

    fn now(&mut self) -> (now: Wall) {
        proof {
            use_type_invariant(&*self);
        }
        let now = self.readings[self.given];
        self.given = self.given + 1;
        assert(self.readings@.skip(self.given as int) =~= old(self).readings@.skip(
            old(self).given as int,
        ).skip(1));
        now
    }
}

} // verus!
