//! Histories of a supervisor: what a sequence of events leads to, and how
//! often each thing happened on the way.

use crate::protocol::{action_for, has_instance, next_phase, Action, Event, Phase};
use vstd::prelude::*;

verus! {

/// The phase reached from `phase` once `events` have been reported in order.
pub open spec fn run(phase: Phase, events: Seq<Event>) -> Phase
    decreases events.len(),
{
    if events.len() == 0 {
        phase
    } else {
        next_phase(run(phase, events.drop_last()), events.last())
    }
}

/// How many of `events`, reported in order from `phase`, were answered with
/// `action`.
pub open spec fn issued(phase: Phase, events: Seq<Event>, action: Action) -> nat
    decreases events.len(),
{
    if events.len() == 0 {
        0
    } else {
        let earlier = issued(phase, events.drop_last(), action);
        if action_for(run(phase, events.drop_last()), events.last()) == action {
            earlier + 1
        } else {
            earlier
        }
    }
}

/// Whether `event`, reported in `phase`, tells of the end of a server
/// instance: there is one, and it has stopped or failed to bind.
pub open spec fn ends_instance(phase: Phase, event: Event) -> bool {
    has_instance(phase) && (event is ServerStopped || event is BindFailed)
}

/// How many of `events`, reported in order from `phase`, told of the end of a
/// server instance.
pub open spec fn ended(phase: Phase, events: Seq<Event>) -> nat
    decreases events.len(),
{
    if events.len() == 0 {
        0
    } else {
        let earlier = ended(phase, events.drop_last());
        if ends_instance(run(phase, events.drop_last()), events.last()) {
            earlier + 1
        } else {
            earlier
        }
    }
}

/// How many server instances hold the listen address once `events` have been
/// reported from `phase`: the one that `phase` may hold, and each that was
/// asked for since, less those that ended.
pub open spec fn live_instances(phase: Phase, events: Seq<Event>) -> int {
    (if has_instance(phase) { 1int } else { 0int })
        + issued(phase, events, Action::Serve) - ended(phase, events)
}

/// Reporting one more event moves the phase by one transition and counts its
/// answer.
pub proof fn lemma_one_more(phase: Phase, events: Seq<Event>, event: Event)
    ensures
        run(phase, events.push(event)) == next_phase(run(phase, events), event),
        forall|action: Action|
            #[trigger] issued(phase, events.push(event), action) == issued(phase, events, action) + (
            if action_for(run(phase, events), event) == action { 1nat } else { 0nat }),
        ended(phase, events.push(event)) == ended(phase, events) + (
        if ends_instance(run(phase, events), event) { 1nat } else { 0nat }),
{
    assert(events.push(event).drop_last() =~= events);
    assert(events.push(event).last() == event);
}

/// A history can be cut anywhere: the second part goes on from the phase that
/// the first part reached, and the counts add up.
pub proof fn lemma_split(phase: Phase, first: Seq<Event>, second: Seq<Event>)
    ensures
        run(phase, first + second) == run(run(phase, first), second),
        forall|action: Action|
            #[trigger] issued(phase, first + second, action) == issued(phase, first, action) + issued(
                run(phase, first),
                second,
                action,
            ),
        ended(phase, first + second) == ended(phase, first) + ended(run(phase, first), second),
    decreases second.len(),
{
    if second.len() == 0 {
        assert(first + second =~= first);
    } else {
        let shorter = second.drop_last();
        lemma_split(phase, first, shorter);
        assert((first + second).drop_last() =~= first + shorter);
        assert((first + second).last() == second.last());
        assert forall|action: Action|
            #[trigger] issued(phase, first + second, action) == issued(phase, first, action)
                + issued(run(phase, first), second, action) by {
            assert(issued(phase, first + shorter, action) == issued(phase, first, action) + issued(
                run(phase, first),
                shorter,
                action,
            ));
        }
    }
}

} // verus!
