//! The vocabulary of the restart protocol and its transition table.

use vstd::prelude::*;

verus! {

/// Why the supervisor gave up.
#[derive(Clone, Copy, Debug, PartialEq, Eq, Structural)]
pub enum FatalError {
    /// The schema builder could not produce an artifact.
    Build,
    /// The listen address could not be acquired.
    Bind,
}

/// Where the supervisor stands in a loop generation.
#[derive(Clone, Copy, Debug, PartialEq, Eq, Structural)]
pub enum Phase {
    /// A schema artifact is being built; no server instance exists.
    Building,
    /// A server instance owns the listen address and nothing has asked it to
    /// stop.
    Serving,
    /// The server instance has been told to shut down gracefully and has not
    /// yet stopped.
    Draining,
    /// The loop has ended for good.
    Failed(FatalError),
}

/// What the embedding program reports to the supervisor.
#[derive(Clone, Copy, Debug, PartialEq, Eq, Structural)]
pub enum Event {
    /// The schema builder returned an artifact.
    SchemaBuilt,
    /// The schema builder returned an error.
    BuildFailed,
    /// The subscription of the current generation received an invalidation.
    Invalidated,
    /// The server instance has fully stopped and released the listen address.
    ServerStopped,
    /// The server instance could not acquire the listen address.
    BindFailed,
}

/// What the supervisor asks the embedding program to do next.
#[derive(Clone, Copy, Debug, PartialEq, Eq, Structural)]
pub enum Action {
    /// Invoke the schema builder.
    Build,
    /// Bind the new artifact to the routes, subscribe to invalidations, then
    /// start a server instance on the listen address.
    Serve,
    /// Signal the running server instance to shut down gracefully.
    Shutdown,
    /// Nothing to do: the event changes nothing.
    Wait,
    /// Leave the loop and report the error.
    Exit(FatalError),
}

/// The phase that follows `phase` when `event` is reported.
///
/// An event that the phase does not expect leaves the phase as it is.
pub open spec fn next_phase(phase: Phase, event: Event) -> Phase {
    match (phase, event) {
        (Phase::Building, Event::SchemaBuilt) => Phase::Serving,
        (Phase::Building, Event::BuildFailed) => Phase::Failed(FatalError::Build),
        (Phase::Serving, Event::Invalidated) => Phase::Draining,
        (Phase::Serving, Event::ServerStopped) => Phase::Building,
        (Phase::Draining, Event::ServerStopped) => Phase::Building,
        (Phase::Serving, Event::BindFailed) => Phase::Failed(FatalError::Bind),
        (Phase::Draining, Event::BindFailed) => Phase::Failed(FatalError::Bind),
        _ => phase,
    }
}

/// The action that answers `event` when it is reported in `phase`.
pub open spec fn action_for(phase: Phase, event: Event) -> Action {
    match (phase, event) {
        (Phase::Building, Event::SchemaBuilt) => Action::Serve,
        (Phase::Building, Event::BuildFailed) => Action::Exit(FatalError::Build),
        (Phase::Serving, Event::Invalidated) => Action::Shutdown,
        (Phase::Serving, Event::ServerStopped) => Action::Build,
        (Phase::Draining, Event::ServerStopped) => Action::Build,
        (Phase::Serving, Event::BindFailed) => Action::Exit(FatalError::Bind),
        (Phase::Draining, Event::BindFailed) => Action::Exit(FatalError::Bind),
        _ => Action::Wait,
    }
}

/// Whether a server instance holds the listen address in `phase`.
pub open spec fn has_instance(phase: Phase) -> bool {
    phase is Serving || phase is Draining
}

impl Phase {
    /// Whether a server instance holds the listen address in this phase.
    pub fn holds_instance(&self) -> (held: bool)
        ensures
            held == has_instance(*self),
    {
        match self {
            Phase::Serving => true,
            Phase::Draining => true,
            _ => false,
        }
    }

    /// Whether the loop has ended for good.
    pub fn is_terminal(&self) -> (ended: bool)
        ensures
            ended == (*self is Failed),
    {
        match self {
            Phase::Failed(_) => true,
            _ => false,
        }
    }
}

} // verus!
