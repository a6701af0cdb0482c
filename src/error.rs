use vstd::prelude::*;

verus! {

/// The step of an action during which an outside operation failed.
#[derive(Clone, Copy, Debug, PartialEq, Eq, Structural)]
pub enum Phase {
    Stop,
    Start,
}

/// Why a request to the supervisor did not complete.
#[derive(Clone, Debug, PartialEq, Eq)]
pub enum SupervisorError {
    /// No registered service has this id.
    NotFound(String),
    /// The action is none of `start`, `stop` and `restart`.
    UnknownAction(String),
    /// The working directory for launched commands could not be established.
    RootUnresolved(String),
    /// An outside operation failed while acting on the registry entry `service`.
    Failed { service: usize, phase: Phase, message: String },
}

} // verus!
