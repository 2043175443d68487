//! The reload supervisor: the owner of the restart loop's state.

use crate::config::Config;
use crate::protocol::{action_for, next_phase, Action, Event, FatalError, Phase};
use crate::trace::{lemma_one_more, run};
use vstd::prelude::*;

verus! {

/// The state of one restart loop.
///
/// The supervisor performs no outside work. The embedding program carries out
/// each [`Action`] and reports what came of it with [`Supervisor::step`].
#[derive(Debug)]
pub struct Supervisor {
    config: Config,
    phase: Phase,
}

impl Supervisor {
    /// The phase the supervisor is in.
    pub closed spec fn spec_phase(&self) -> Phase {
        self.phase
    }

    /// The configuration the supervisor was made with.
    pub closed spec fn spec_config(&self) -> &Config {
        &self.config
    }

    /// A supervisor at the start of its first generation: it is `Building`,
    /// and the first thing to do is to build a schema.
    pub fn new(config: Config) -> (supervisor: Supervisor)
        ensures
            supervisor.phase() == Phase::Building,
            *supervisor.config() == config,
    {
        Supervisor { config, phase: Phase::Building }
    }

    /// The phase the supervisor is in.
    #[verifier::when_used_as_spec(spec_phase)]
    pub fn phase(&self) -> (phase: Phase)
        ensures
            phase == self.spec_phase(),
    {
        self.phase
    }

    /// The configuration the supervisor was made with.
    #[verifier::when_used_as_spec(spec_config)]
    pub fn config(&self) -> (config: &Config)
        ensures
            config == self.spec_config(),
    {
        &self.config
    }

    /// Takes in one event and answers with the action to perform.
    ///
    /// The phase moves as [`next_phase`] says and the answer is the one
    /// [`action_for`] gives; the configuration never changes.
    pub fn step(&mut self, event: Event) -> (action: Action)
        ensures
            final(self).phase() == next_phase(old(self).phase(), event),
            action == action_for(old(self).phase(), event),
            final(self).config() == old(self).config(),
    {
        let (phase, action) = match (self.phase, event) {
            (Phase::Building, Event::SchemaBuilt) => (Phase::Serving, Action::Serve),
            (Phase::Building, Event::BuildFailed) => (
                Phase::Failed(FatalError::Build),
                Action::Exit(FatalError::Build),
            ),
            (Phase::Serving, Event::Invalidated) => (Phase::Draining, Action::Shutdown),
            (Phase::Serving, Event::ServerStopped) | (Phase::Draining, Event::ServerStopped) => (
                Phase::Building,
                Action::Build,
            ),
            (Phase::Serving, Event::BindFailed) | (Phase::Draining, Event::BindFailed) => (
                Phase::Failed(FatalError::Bind),
                Action::Exit(FatalError::Bind),
            ),
            (phase, _) => (phase, Action::Wait),
        };
        self.phase = phase;
        action
    }

    /// Takes in a batch of events in order, as by one [`Supervisor::step`]
    /// for each, and returns the answers in the same order.
    pub fn replay(&mut self, events: &[Event]) -> (actions: Vec<Action>)
        ensures
            final(self).phase() == run(old(self).phase(), events@),
            final(self).config() == old(self).config(),
            actions@.len() == events@.len(),
            forall|i: int|
                0 <= i < events@.len() ==> #[trigger] actions@[i] == action_for(
                    run(old(self).phase(), events@.take(i)),
                    events@[i],
                ),
    {
        let mut actions: Vec<Action> = Vec::new();
        let mut done: usize = 0;
        while done < events.len()
            invariant
                done <= events@.len(),
                self.phase() == run(old(self).phase(), events@.take(done as int)),
                self.config() == old(self).config(),
                actions@.len() == done,
                forall|i: int|
                    0 <= i < done ==> #[trigger] actions@[i] == action_for(
                        run(old(self).phase(), events@.take(i)),
                        events@[i],
                    ),
            decreases events@.len() - done,
        {
            proof {
                lemma_one_more(old(self).phase(), events@.take(done as int), events@[done as int]);
                assert(events@.take(done as int).push(events@[done as int]) =~= events@.take(
                    done + 1,
                ));
            }
            let action = self.step(events[done]);
            actions.push(action);
            done += 1;
        }
        proof {
            assert(events@.take(done as int) =~= events@);
        }
        actions
    }
}

/// Starts a restart loop: the supervisor in its initial phase, and the first
/// action, which is to build a schema.
pub fn start(config: Config) -> (begun: (Supervisor, Action))
    ensures
        begun.0.phase() == Phase::Building,
        *begun.0.config() == config,
        begun.1 == Action::Build,
{
    (Supervisor::new(config), Action::Build)
}

} // verus!
