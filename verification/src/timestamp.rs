//! Hybrid logical timestamps and their total order.

use crate::wall::Wall;
use std::cmp::Ordering;
use vstd::prelude::*;
use vstd::std_specs::cmp::PartialOrdSpecImpl;

verus! {

/// A hybrid logical timestamp: a physical time and a counter that orders the
/// events sharing it.
///
/// Timestamps are ordered by `wall`, then by `logical`.
#[derive(Debug, Clone, Copy, PartialEq, Eq, Structural, Ord)]
pub struct HLTimespec {
    pub wall: Wall,
    pub logical: u16,
}

impl HLTimespec {
    /// `self` is strictly less than `other`.
    pub open spec fn precedes(self, other: HLTimespec) -> bool {
        self.wall.precedes(other.wall) || (self.wall == other.wall && self.logical
            < other.logical)
    }

    /// The timestamp every clock starts from: the epoch, counter at zero.
    pub open spec fn spec_zero() -> HLTimespec {
        HLTimespec { wall: Wall { sec: 0, nsec: 0 }, logical: 0 }
    }

    /// The timestamp every clock starts from: the epoch, counter at zero.
    #[verifier::when_used_as_spec(spec_zero)]
    pub fn zero() -> (z: HLTimespec)
        ensures
            z == HLTimespec::spec_zero(),
    {
        HLTimespec { wall: Wall { sec: 0, nsec: 0 }, logical: 0 }
    }

    /// No timestamp precedes itself.
    pub proof fn lemma_precedes_irreflexive(self)
        ensures
            !self.precedes(self),
    {
    }

    /// What precedes a predecessor precedes the successor too.
    pub proof fn lemma_precedes_transitive(self, mid: HLTimespec, other: HLTimespec)
        requires
            self.precedes(mid),
            mid.precedes(other),
        ensures
            self.precedes(other),
    {
    }

    /// Of two timestamps exactly one holds: the first precedes the second,
    /// they are equal, or the second precedes the first.
    pub proof fn lemma_precedes_trichotomy(self, other: HLTimespec)
        ensures
            self.precedes(other) || self == other || other.precedes(self),
            !(self.precedes(other) && self == other),
            !(self.precedes(other) && other.precedes(self)),
            !(self == other && other.precedes(self)),
    {
    }
}

impl PartialOrdSpecImpl for HLTimespec {
    open spec fn obeys_partial_cmp_spec() -> bool {
        true
    }

    open spec fn partial_cmp_spec(&self, other: &HLTimespec) -> Option<Ordering> {
        if self.precedes(*other) {
            Some(Ordering::Less)
        } else if other.precedes(*self) {
            Some(Ordering::Greater)
        } else {
            Some(Ordering::Equal)
        }
    }
}

impl PartialOrd for HLTimespec {
    fn partial_cmp(&self, other: &HLTimespec) -> (r: Option<Ordering>) {
        if self.wall < other.wall || (self.wall == other.wall && self.logical < other.logical) {
            Some(Ordering::Less)
        } else if other.wall < self.wall || (other.wall == self.wall && other.logical
            < self.logical) {
            Some(Ordering::Greater)
        } else {
            Some(Ordering::Equal)
        }
    }
}

} // verus!
