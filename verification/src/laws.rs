//! What holds of ticks and merges: each result follows what it was made
//! from, and a clock's state only ever moves forward.
//!
//! The counter has sixteen bits. A step that wraps it yields a timestamp that
//! does not follow its inputs, so the laws of order below leave such steps
//! out, and say so.

use crate::timestamp::HLTimespec;
use crate::wall::Wall;
use vstd::prelude::*;

verus! {

/// A tick that does not wrap the counter yields a strictly greater
/// timestamp.
pub proof fn lemma_tick_follows(state: HLTimespec, now: Wall)
    requires
        !state.tick_wraps(now),
    ensures
        state.precedes(state.ticked(now)),
{
}

/// A tick that wraps the counter yields a timestamp that is not greater.
pub proof fn lemma_wrapped_tick_falls_behind(state: HLTimespec, now: Wall)
    requires
        state.tick_wraps(now),
    ensures
        state.ticked(now).precedes(state),
{
}

/// Of two ticks taken one after the other, the second yields the greater
/// timestamp, whatever physical times are read, unless it wraps the counter.
pub proof fn lemma_successive_ticks_increase(state: HLTimespec, first: Wall, second: Wall)
    requires
        !state.ticked(first).tick_wraps(second),
    ensures
        state.ticked(first).precedes(state.ticked(first).ticked(second)),
{
}

/// A merge that does not wrap the counter yields a timestamp strictly
/// greater than both the state before and the event merged.
pub proof fn lemma_merge_follows_both(state: HLTimespec, event: HLTimespec, now: Wall)
    requires
        !state.merge_wraps(event, now),
    ensures
        state.precedes(state.merged(event, now)),
        event.precedes(state.merged(event, now)),
{
}

/// A merge that wraps the counter yields a timestamp that fails to follow
/// the state before or the event merged.
pub proof fn lemma_wrapped_merge_falls_behind(state: HLTimespec, event: HLTimespec, now: Wall)
    requires
        state.merge_wraps(event, now),
    ensures
        !(state.precedes(state.merged(event, now)) && event.precedes(state.merged(event, now))),
{
}

/// Two events merged one after the other are both followed by the result,
/// as is the state before. Since the events are arbitrary, this holds in
/// either order of merging; the results of the two orders need not be equal.
pub proof fn lemma_two_merges_follow_all(
    state: HLTimespec,
    first: HLTimespec,
    first_now: Wall,
    second: HLTimespec,
    second_now: Wall,
)
    requires
        !state.merge_wraps(first, first_now),
        !state.merged(first, first_now).merge_wraps(second, second_now),
    ensures
        ({
            let end = state.merged(first, first_now).merged(second, second_now);
            state.precedes(end) && first.precedes(end) && second.precedes(end)
        }),
{
}

/// A tick is a merge of the clock's own state.
pub proof fn lemma_tick_is_merge_of_self(state: HLTimespec, now: Wall)
    ensures
        state.ticked(now) == state.merged(state, now),
        state.tick_wraps(now) == state.merge_wraps(state, now),
{
}

/// The physical time of a tick's result is the later of the state's and the
/// time read.
pub proof fn lemma_ticked_wall(state: HLTimespec, now: Wall)
    ensures
        state.ticked(now).wall == if state.wall.precedes(now) {
            now
        } else {
            state.wall
        },
{
}

/// The physical time of a merge's result is the latest of the state's, the
/// event's and the time read.
pub proof fn lemma_merged_wall(state: HLTimespec, event: HLTimespec, now: Wall)
    ensures
        ({
            let wall = state.merged(event, now).wall;
            &&& wall == state.wall || wall == event.wall || wall == now
            &&& !wall.precedes(state.wall)
            &&& !wall.precedes(event.wall)
            &&& !wall.precedes(now)
        }),
{
}

} // verus!
