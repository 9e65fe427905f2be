//! How a timestamp advances: by a local tick, or by merging a timestamp
//! observed elsewhere. Both are functions of the current timestamp and of the
//! physical time read for the step.

use crate::timestamp::HLTimespec;
use crate::wall::Wall;
use vstd::prelude::*;

verus! {

impl HLTimespec {
    /// The greater of two timestamps.
    pub open spec fn later(self, other: HLTimespec) -> HLTimespec {
        if self.precedes(other) {
            other
        } else {
            self
        }
    }

    /// The same physical time with the counter advanced by one. The counter
    /// has sixteen bits and wraps to zero past `u16::MAX`.
    pub open spec fn successor(self) -> HLTimespec {
        HLTimespec { wall: self.wall, logical: self.logical.wrapping_add(1) }
    }

    /// The timestamp that opens the physical time `now`.
    pub open spec fn opening(now: Wall) -> HLTimespec {
        HLTimespec { wall: now, logical: 0 }
    }

    /// The result of a local tick taken at physical time `now`.
    ///
    /// Where `now` is past the timestamp's own physical time, the result
    /// opens `now`. Otherwise physical time stood still or ran backwards, and
    /// the result is the successor.
    pub open spec fn ticked(self, now: Wall) -> HLTimespec {
        if self.wall.precedes(now) {
            HLTimespec::opening(now)
        } else {
            self.successor()
        }
    }

    /// The result of merging `event` at physical time `now`.
    ///
    /// Where `now` is past the physical times of both, the result opens
    /// `now`. Otherwise it is the successor of the later of the two.
    pub open spec fn merged(self, event: HLTimespec, now: Wall) -> HLTimespec {
        if self.wall.precedes(now) && event.wall.precedes(now) {
            HLTimespec::opening(now)
        } else {
            self.later(event).successor()
        }
    }

    /// A tick at `now` would wrap the counter.
    pub open spec fn tick_wraps(self, now: Wall) -> bool {
        !self.wall.precedes(now) && self.logical == u16::MAX
    }

    /// Merging `event` at `now` would wrap the counter.
    pub open spec fn merge_wraps(self, event: HLTimespec, now: Wall) -> bool {
        !(self.wall.precedes(now) && event.wall.precedes(now)) && self.later(event).logical
            == u16::MAX
    }

    /// Takes a local tick at physical time `now`.
    ///
    /// The result is strictly greater than `self` unless the counter wraps.
    pub fn tick(self, now: Wall) -> (t: HLTimespec)
        ensures
            t == self.ticked(now),
            self.wall.precedes(now) ==> t.wall == now && t.logical == 0,
            !self.wall.precedes(now) ==> t.wall == self.wall && t.logical
                == self.logical.wrapping_add(1),
            !self.tick_wraps(now) ==> self.precedes(t),
    {
        if self.wall < now {
            HLTimespec { wall: now, logical: 0 }
        } else {
            HLTimespec { wall: self.wall, logical: self.logical.wrapping_add(1) }
        }
    }

    /// Merges `event`, a timestamp observed elsewhere, at physical time `now`.
    ///
    /// The result is strictly greater than both `self` and `event` unless the
    /// counter wraps.
    pub fn merge(self, event: HLTimespec, now: Wall) -> (t: HLTimespec)
        ensures
            t == self.merged(event, now),
            t == if event.wall.precedes(now) && self.wall.precedes(now) {
                HLTimespec { wall: now, logical: 0 }
            } else if self.wall.precedes(event.wall) {
                HLTimespec { wall: event.wall, logical: event.logical.wrapping_add(1) }
            } else if event.wall.precedes(self.wall) {
                HLTimespec { wall: self.wall, logical: self.logical.wrapping_add(1) }
            } else if self.logical < event.logical {
                HLTimespec { wall: self.wall, logical: event.logical.wrapping_add(1) }
            } else {
                HLTimespec { wall: self.wall, logical: self.logical.wrapping_add(1) }
            },
            !self.merge_wraps(event, now) ==> self.precedes(t) && event.precedes(t),
    {
        if now > event.wall && now > self.wall {
            HLTimespec { wall: now, logical: 0 }
        } else if event.wall > self.wall {
            HLTimespec { wall: event.wall, logical: event.logical.wrapping_add(1) }
        } else if self.wall > event.wall {
            HLTimespec { wall: self.wall, logical: self.logical.wrapping_add(1) }
        } else {
            let top: u16 = if event.logical > self.logical {
                event.logical
            } else {
                self.logical
            };
            HLTimespec { wall: self.wall, logical: top.wrapping_add(1) }
        }
    }
}

} // verus!
