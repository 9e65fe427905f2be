//! Physical time as a clock reports it.

use std::cmp::Ordering;
use vstd::prelude::*;
use vstd::std_specs::cmp::PartialOrdSpecImpl;

verus! {

/// Number of nanoseconds in one second.
pub const NANOS_PER_SEC: i32 = 1_000_000_000;

/// A reading of physical time: whole seconds since the epoch and the
/// nanoseconds past that second.
///
/// Readings are ordered by `sec`, then by `nsec`. Nothing here requires `nsec`
/// to lie within one second; [`Wall::normalized`] says when it does.
#[derive(Debug, Clone, Copy, PartialEq, Eq, Structural, Ord)]
pub struct Wall {
    pub sec: i64,
    pub nsec: i32,
}

impl Wall {
    /// `self` is strictly earlier than `other`.
    pub open spec fn precedes(self, other: Wall) -> bool {
        self.sec < other.sec || (self.sec == other.sec && self.nsec < other.nsec)
    }

    /// The nanoseconds lie within one second.
    pub open spec fn normalized(self) -> bool {
        0 <= self.nsec < NANOS_PER_SEC
    }
}

impl PartialOrdSpecImpl for Wall {
    open spec fn obeys_partial_cmp_spec() -> bool {
        true
    }

    open spec fn partial_cmp_spec(&self, other: &Wall) -> Option<Ordering> {
        if self.precedes(*other) {
            Some(Ordering::Less)
        } else if other.precedes(*self) {
            Some(Ordering::Greater)
        } else {
            Some(Ordering::Equal)
        }
    }
}

impl PartialOrd for Wall {
    fn partial_cmp(&self, other: &Wall) -> (r: Option<Ordering>) {
        if self.sec < other.sec || (self.sec == other.sec && self.nsec < other.nsec) {
            Some(Ordering::Less)
        } else if other.sec < self.sec || (other.sec == self.sec && other.nsec < self.nsec) {
            Some(Ordering::Greater)
        } else {
            Some(Ordering::Equal)
        }
    }
}

} // verus!
