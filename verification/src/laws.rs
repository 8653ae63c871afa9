//! Laws of the correlation engine: properties that relate several of its
//! functions, stated and proved over the same specification functions that
//! the functions' own contracts use.

use vstd::prelude::*;
use vstd::arithmetic::div_mod::lemma_div_pos_is_pos;

use crate::engine::{drain_post, Correlator};
use crate::types::{duration_spec, output_matches, Output, ParseError, TerminalEvent, WardEntry};

verus! {

/// Law: a survival duration is never negative, because the upstream stream
/// delivers a ward's terminal event at or after its placement tick.
pub proof fn lemma_duration_nonneg(placed_tick: int, event_tick: int)
    requires
        placed_tick <= event_tick,
    ensures
        duration_spec(placed_tick, event_tick) >= 0,
{
    lemma_div_pos_is_pos(event_tick - placed_tick, 30);
}

/// Law: every output whose terminal event occurred at or after its ward's
/// placement tick reports a non-negative duration.
pub proof fn lemma_output_duration_nonneg(
    o: Output,
    event_tick: int,
    event: TerminalEvent,
    entry: WardEntry,
    start_time: int,
)
    requires
        output_matches(o, event_tick, event, entry, start_time),
        entry.placed_tick <= event_tick,
    ensures
        o.duration >= 0,
{
    lemma_duration_nonneg(entry.placed_tick as int, event_tick);
}

/// Law: the team-side flag of an output is the placing player's roster team
/// classification at placement time — Radiant exactly when the raw team value
/// recorded in the placement context was the Radiant constant 2 — and nothing
/// observed at drain time can change it.
pub proof fn lemma_side_fixed_at_placement(
    team: i32,
    entry: WardEntry,
    o: Output,
    event_tick: int,
    event: TerminalEvent,
    start_time: int,
)
    requires
        entry.is_radiant <==> team == 2,
        output_matches(o, event_tick, event, entry, start_time),
    ensures
        o.is_radiant <==> team == 2,
{
}

/// Law: a successful drain finalizes every deferred terminal event exactly
/// once — one output is appended per queued event, the queue is left empty,
/// and earlier outputs are untouched — so a ward whose single terminal event
/// is queued accounts for exactly one output.
pub proof fn lemma_exactly_one_output_per_event(
    pre: Correlator,
    post: Correlator,
    start_time: int,
    r: Result<(), ParseError>,
)
    requires
        drain_post(pre, post, start_time, r),
        r is Ok,
    ensures
        post.queue().len() == 0,
        post.outputs().len() == pre.outputs().len() + pre.queue().len(),
        forall|i: int|
            0 <= i < pre.queue().len() ==> output_matches(
                post.outputs()[pre.outputs().len() + i],
                pre.queue()[i].tick as int,
                pre.queue()[i].event,
                pre.reg()[pre.queue()[i].handle],
                start_time,
            ),
        forall|i: int| 0 <= i < pre.outputs().len() ==> post.outputs()[i] == pre.outputs()[i],
{
}

/// Law: outputs stand in terminal-event arrival order, not placement order:
/// of two deferred events the one that arrived earlier — whatever its ward's
/// placement tick — is finalized at the earlier log position.
pub proof fn lemma_output_order_is_arrival_order(
    pre: Correlator,
    post: Correlator,
    start_time: int,
    r: Result<(), ParseError>,
    i: int,
    j: int,
)
    requires
        drain_post(pre, post, start_time, r),
        r is Ok,
        0 <= i < j < pre.queue().len(),
    ensures
        pre.outputs().len() + i < pre.outputs().len() + j < post.outputs().len(),
        output_matches(
            post.outputs()[pre.outputs().len() + i],
            pre.queue()[i].tick as int,
            pre.queue()[i].event,
            pre.reg()[pre.queue()[i].handle],
            start_time,
        ),
        output_matches(
            post.outputs()[pre.outputs().len() + j],
            pre.queue()[j].tick as int,
            pre.queue()[j].event,
            pre.reg()[pre.queue()[j].handle],
            start_time,
        ),
{
}

} // verus!
