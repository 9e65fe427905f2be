//! Runs of operations on one clock, and the order that they keep.
//!
//! A clock is taken by `&mut` for each operation, so whatever callers there
//! are, the operations on one clock form a sequence. What is proved here of
//! every such sequence holds of every way in which callers can interleave.

use crate::timestamp::HLTimespec;
use crate::wall::Wall;
use vstd::prelude::*;

verus! {

/// One operation on a clock, with the physical time that was read for it.
pub enum Operation {
    /// A local tick.
    Tick { now: Wall },
    /// The merge of a timestamp observed elsewhere.
    Merge { event: HLTimespec, now: Wall },
}

impl HLTimespec {
    /// The timestamp that `op` issues from this state.
    pub open spec fn applied(self, op: Operation) -> HLTimespec {
        match op {
            Operation::Tick { now } => self.ticked(now),
            Operation::Merge { event, now } => self.merged(event, now),
        }
    }

    /// `op` would wrap the counter from this state.
    pub open spec fn wraps_on(self, op: Operation) -> bool {
        match op {
            Operation::Tick { now } => self.tick_wraps(now),
            Operation::Merge { event, now } => self.merge_wraps(event, now),
        }
    }
}

/// The state of a clock that started at `start` and went through `ops` in
/// order. It is also the timestamp that the last of them issued.
pub open spec fn replay(start: HLTimespec, ops: Seq<Operation>) -> HLTimespec
    decreases ops.len(),
{
    if ops.len() == 0 {
        start
    } else {
        replay(start, ops.drop_last()).applied(ops.last())
    }
}

/// None of `ops`, applied in order from `start`, wraps the counter.
pub open spec fn never_wraps(start: HLTimespec, ops: Seq<Operation>) -> bool {
    forall|k: int| 0 <= k < ops.len() ==> !#[trigger] replay(start, ops.take(k)).wraps_on(ops[k])
}

/// Along a run that never wraps the counter, every later state is strictly
/// greater than every earlier one: the state after `late` operations follows
/// the state after `early` of them.
pub proof fn lemma_run_increases(start: HLTimespec, ops: Seq<Operation>, early: int, late: int)
    requires
        never_wraps(start, ops),
        0 <= early < late <= ops.len(),
    ensures
        replay(start, ops.take(early)).precedes(replay(start, ops.take(late))),
    decreases late,
{
    let before = replay(start, ops.take(late - 1));
    let op = ops[late - 1];
    assert(ops.take(late).drop_last() == ops.take(late - 1));
    assert(ops.take(late).last() == op);
    assert(replay(start, ops.take(late)) == before.applied(op));
    assert(!before.wraps_on(op));
    assert(before.precedes(before.applied(op)));
    if early < late - 1 {
        lemma_run_increases(start, ops, early, late - 1);
    }
}

/// Along a run that never wraps the counter, the state follows every event
/// that was merged: the event of the operation at `at` precedes the state
/// after `late` operations, for every `late` past `at`.
pub proof fn lemma_run_follows_merged_events(
    start: HLTimespec,
    ops: Seq<Operation>,
    at: int,
    late: int,
)
    requires
        never_wraps(start, ops),
        0 <= at < late <= ops.len(),
        ops[at] is Merge,
    ensures
        ops[at]->event.precedes(replay(start, ops.take(late))),
{
    let before = replay(start, ops.take(at));
    assert(ops.take(at + 1).drop_last() == ops.take(at));
    assert(ops.take(at + 1).last() == ops[at]);
    assert(!before.wraps_on(ops[at]));
    assert(ops[at]->event.precedes(replay(start, ops.take(at + 1))));
    if at + 1 < late {
        lemma_run_increases(start, ops, at + 1, late);
    }
}

/// Along a run that never wraps the counter, no two operations issue the
/// same timestamp, and the timestamps issued are ordered as the operations
/// were: the operation at `first` issued a lesser timestamp than the one at
/// `second` exactly when it came first.
pub proof fn lemma_issued_in_order(start: HLTimespec, ops: Seq<Operation>, first: int, second: int)
    requires
        never_wraps(start, ops),
        0 <= first < ops.len(),
        0 <= second < ops.len(),
    ensures
        first != second ==> replay(start, ops.take(first + 1)) != replay(
            start,
            ops.take(second + 1),
        ),
        first < second <==> replay(start, ops.take(first + 1)).precedes(
            replay(start, ops.take(second + 1)),
        ),
{
    if first < second {
        lemma_run_increases(start, ops, first + 1, second + 1);
    } else if second < first {
        lemma_run_increases(start, ops, second + 1, first + 1);
    }
}

} // verus!
