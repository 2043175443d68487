//! What holds of every history of a supervisor.

use crate::protocol::{action_for, has_instance, next_phase, Action, Event, FatalError, Phase};
use crate::trace::{ended, issued, lemma_one_more, lemma_split, live_instances, run};
use vstd::prelude::*;

verus! {

/// One invalidation that the supervisor sees through to the end: the event
/// itself, the server's stop, and the schema that is built after it.
pub open spec fn settled_cycle() -> Seq<Event> {
    seq![Event::Invalidated, Event::ServerStopped, Event::SchemaBuilt]
}

/// `count` invalidations, each seen through to the end before the next.
pub open spec fn settled_cycles(count: nat) -> Seq<Event>
    decreases count,
{
    if count == 0 {
        Seq::empty()
    } else {
        settled_cycles((count - 1) as nat) + settled_cycle()
    }
}

/// At most one server instance holds the listen address, whatever was
/// reported and from whatever phase: there is one exactly while the
/// supervisor is `Serving` or `Draining`, and none otherwise. Every prefix of
/// a history is a history, so this holds at each instant on the way as well.
pub proof fn lemma_at_most_one_instance(phase: Phase, events: Seq<Event>)
    ensures
        live_instances(phase, events) == (if has_instance(run(phase, events)) {
            1int
        } else {
            0int
        }),
        forall|k: int|
            0 <= k <= events.len() ==> 0 <= #[trigger] live_instances(phase, events.take(k)) <= 1,
    decreases events.len(),
{
    if events.len() > 0 {
        let earlier = events.drop_last();
        lemma_at_most_one_instance(phase, earlier);
        assert forall|k: int| 0 <= k <= events.len() implies 0 <= #[trigger] live_instances(
            phase,
            events.take(k),
        ) <= 1 by {
            if k < events.len() {
                assert(events.take(k) =~= earlier.take(k));
            } else {
                assert(events.take(k) =~= events);
            }
        }
    } else {
        assert forall|k: int| 0 <= k <= events.len() implies 0 <= #[trigger] live_instances(
            phase,
            events.take(k),
        ) <= 1 by {
            assert(events.take(k) =~= events);
        }
    }
}

/// The listen address is handed over, never shared: a new server instance is
/// asked for only while none holds the address, and only in answer to a
/// schema that was built; a build is asked for only in answer to the end of
/// the instance that held the address; and a shutdown only of an instance
/// that has not been told to shut down before.
pub proof fn lemma_handover(phase: Phase, event: Event)
    ensures
        action_for(phase, event) == Action::Serve ==> !has_instance(phase) && event
            == Event::SchemaBuilt && next_phase(phase, event) == Phase::Serving,
        action_for(phase, event) == Action::Build ==> has_instance(phase) && event
            == Event::ServerStopped && next_phase(phase, event) == Phase::Building,
        action_for(phase, event) == Action::Shutdown ==> phase == Phase::Serving && event
            == Event::Invalidated && next_phase(phase, event) == Phase::Draining,
        action_for(phase, event) is Exit <==> next_phase(phase, event) is Failed && !(phase
            is Failed),
        action_for(phase, event) == Action::Wait <==> next_phase(phase, event) == phase,
{
}

/// A server instance is told to shut down at most once: the shutdowns asked
/// for never outnumber the instances there have been, and while the
/// supervisor is `Serving` the current instance has not been told yet.
pub proof fn lemma_one_shutdown_per_instance(phase: Phase, events: Seq<Event>)
    ensures
        issued(phase, events, Action::Shutdown) + (if run(phase, events) is Serving {
            1int
        } else {
            0int
        }) <= issued(phase, events, Action::Serve) + (if phase is Serving {
            1int
        } else {
            0int
        }),
    decreases events.len(),
{
    if events.len() > 0 {
        lemma_one_shutdown_per_instance(phase, events.drop_last());
    }
}

/// Once the supervisor has failed it stays failed with the same error, and
/// answers every further event with `Wait`.
pub proof fn lemma_failure_is_final(error: FatalError, events: Seq<Event>)
    ensures
        run(Phase::Failed(error), events) == Phase::Failed(error),
        issued(Phase::Failed(error), events, Action::Wait) == events.len(),
        forall|action: Action|
            action != Action::Wait ==> #[trigger] issued(Phase::Failed(error), events, action)
                == 0,
        ended(Phase::Failed(error), events) == 0,
    decreases events.len(),
{
    if events.len() > 0 {
        let earlier = events.drop_last();
        lemma_failure_is_final(error, earlier);
        assert forall|action: Action| action != Action::Wait implies #[trigger] issued(
            Phase::Failed(error),
            events,
            action,
        ) == 0 by {
            assert(issued(Phase::Failed(error), earlier, action) == 0);
        }
    }
}

/// If the schema builder fails on the very first iteration, the supervisor
/// answers with the fatal build error and no server instance is ever asked
/// for, whatever is reported afterwards; nor is anything else asked for.
pub proof fn lemma_first_build_failure(rest: Seq<Event>)
    ensures
        action_for(Phase::Building, Event::BuildFailed) == Action::Exit(FatalError::Build),
        run(Phase::Building, seq![Event::BuildFailed] + rest) == Phase::Failed(FatalError::Build),
        issued(Phase::Building, seq![Event::BuildFailed] + rest, Action::Serve) == 0,
        issued(Phase::Building, seq![Event::BuildFailed] + rest, Action::Build) == 0,
        issued(Phase::Building, seq![Event::BuildFailed] + rest, Action::Shutdown) == 0,
        issued(
            Phase::Building,
            seq![Event::BuildFailed] + rest,
            Action::Exit(FatalError::Build),
        ) == 1,
        live_instances(Phase::Building, seq![Event::BuildFailed] + rest) == 0,
{
    let first = seq![Event::BuildFailed];
    assert(first =~= Seq::<Event>::empty().push(Event::BuildFailed));
    lemma_one_more(Phase::Building, Seq::empty(), Event::BuildFailed);
    lemma_split(Phase::Building, first, rest);
    lemma_failure_is_final(FatalError::Build, rest);
}

/// An invalidation that arrives while the supervisor is `Draining` has no
/// effect: it is answered with `Wait`, and the history goes on exactly as if
/// it had never been reported, to the same phase, with the same number of
/// each action but `Wait`, and with as many instances ended.
pub proof fn lemma_invalidation_while_draining(
    phase: Phase,
    before: Seq<Event>,
    after: Seq<Event>,
)
    requires
        run(phase, before) == Phase::Draining,
    ensures
        next_phase(Phase::Draining, Event::Invalidated) == Phase::Draining,
        action_for(Phase::Draining, Event::Invalidated) == Action::Wait,
        run(phase, before.push(Event::Invalidated) + after) == run(phase, before + after),
        forall|action: Action|
            action != Action::Wait ==> #[trigger] issued(
                phase,
                before.push(Event::Invalidated) + after,
                action,
            ) == issued(phase, before + after, action),
        ended(phase, before.push(Event::Invalidated) + after) == ended(phase, before + after),
{
    lemma_one_more(phase, before, Event::Invalidated);
    lemma_split(phase, before.push(Event::Invalidated), after);
    lemma_split(phase, before, after);
}

/// One settled cycle from `Serving` leads back to `Serving` and asks for one
/// shutdown, one build and one new instance, in that order.
pub proof fn lemma_settled_cycle()
    ensures
        run(Phase::Serving, settled_cycle()) == Phase::Serving,
        issued(Phase::Serving, settled_cycle(), Action::Shutdown) == 1,
        issued(Phase::Serving, settled_cycle(), Action::Build) == 1,
        issued(Phase::Serving, settled_cycle(), Action::Serve) == 1,
        issued(Phase::Serving, settled_cycle(), Action::Wait) == 0,
        forall|error: FatalError|
            #[trigger] issued(Phase::Serving, settled_cycle(), Action::Exit(error)) == 0,
        ended(Phase::Serving, settled_cycle()) == 1,
{
    let none = Seq::<Event>::empty();
    let one = none.push(Event::Invalidated);
    let two = one.push(Event::ServerStopped);
    assert(settled_cycle() =~= two.push(Event::SchemaBuilt));
    lemma_one_more(Phase::Serving, none, Event::Invalidated);
    lemma_one_more(Phase::Serving, one, Event::ServerStopped);
    lemma_one_more(Phase::Serving, two, Event::SchemaBuilt);
}

/// `count` invalidations, delivered one at a time to a supervisor that is
/// `Serving` and settled again before the next, make exactly `count` rebuild
/// cycles: `count` shutdowns, `count` builds and `count` new server
/// instances, each started only after the one before it had ended, with no
/// event left unanswered and no failure. The supervisor is `Serving` again at
/// the end, and at no instant on the way is there more than one instance.
pub proof fn lemma_settled_invalidations(count: nat)
    ensures
        settled_cycles(count).len() == 3 * count,
        run(Phase::Serving, settled_cycles(count)) == Phase::Serving,
        issued(Phase::Serving, settled_cycles(count), Action::Shutdown) == count,
        issued(Phase::Serving, settled_cycles(count), Action::Build) == count,
        issued(Phase::Serving, settled_cycles(count), Action::Serve) == count,
        issued(Phase::Serving, settled_cycles(count), Action::Wait) == 0,
        forall|error: FatalError|
            #[trigger] issued(Phase::Serving, settled_cycles(count), Action::Exit(error)) == 0,
        ended(Phase::Serving, settled_cycles(count)) == count,
        forall|k: int|
            0 <= k <= settled_cycles(count).len() ==> 0 <= #[trigger] live_instances(
                Phase::Serving,
                settled_cycles(count).take(k),
            ) <= 1,
    decreases count,
{
    if count > 0 {
        let earlier = settled_cycles((count - 1) as nat);
        lemma_settled_invalidations((count - 1) as nat);
        lemma_settled_cycle();
        lemma_split(Phase::Serving, earlier, settled_cycle());
    }
    lemma_at_most_one_instance(Phase::Serving, settled_cycles(count));
}

} // verus!
