use vstd::prelude::*;
use crate::errors::OrchError;

verus! {

/// Execution states of a pipeline. Exactly one per pipeline; mutated only
/// by the lifecycle controller and, for failures, by the bus dispatcher.
#[derive(Clone, Copy, PartialEq, Eq, Structural, Debug)]
pub enum RunState {
    /// Under construction: stages may be registered and statically linked.
    Idle,
    /// Construction finished; ready to be started.
    Ready,
    /// The engine holds the graph paused.
    Paused,
    /// The engine is executing the graph.
    Playing,
    /// Torn down after a normal stop or end of stream. Terminal.
    Stopped,
    /// A fatal engine error was reported. Terminal except for `stop`.
    Failed,
}

/// Commands the lifecycle controller accepts from the host.
#[derive(Clone, Copy, PartialEq, Eq, Structural, Debug)]
pub enum Command {
    /// Declare construction complete: Idle becomes Ready.
    Finalize,
    /// Ask the engine to execute the graph: Ready becomes Playing.
    Start,
    /// Ask the engine to tear the graph down. Idempotent on terminal states.
    Stop,
}

/// The explicit transition table. Every (state, command) pair outside this
/// table is refused with `InvalidTransition`.
pub open spec fn listed_transition(s: RunState, c: Command) -> bool {
    ||| (s == RunState::Idle && c == Command::Finalize)
    ||| (s == RunState::Ready && c == Command::Start)
    ||| ((s == RunState::Playing || s == RunState::Paused) && c == Command::Stop)
    ||| ((s == RunState::Stopped || s == RunState::Failed) && c == Command::Stop)
}

/// What a lifecycle command does: the successor state for a listed pair,
/// `InvalidTransition` for every other pair. `Stop` leaves `Failed` in
/// `Failed` so that a failure already reported is not forgotten by the
/// best-effort teardown that follows it.
pub open spec fn step_spec(s: RunState, c: Command) -> Result<RunState, OrchError> {
    match (s, c) {
        (RunState::Idle, Command::Finalize) => Ok(RunState::Ready),
        (RunState::Ready, Command::Start) => Ok(RunState::Playing),
        (RunState::Playing, Command::Stop) => Ok(RunState::Stopped),
        (RunState::Paused, Command::Stop) => Ok(RunState::Stopped),
        (RunState::Stopped, Command::Stop) => Ok(RunState::Stopped),
        (RunState::Failed, Command::Stop) => Ok(RunState::Failed),
        _ => Err(OrchError::InvalidTransition),
    }
}

/// The lifecycle state machine as a pure function, usable on any state.
pub fn lifecycle_step(s: RunState, c: Command) -> (r: Result<RunState, OrchError>)
    ensures
        r == step_spec(s, c),
{
    match (s, c) {
        (RunState::Idle, Command::Finalize) => Ok(RunState::Ready),
        (RunState::Ready, Command::Start) => Ok(RunState::Playing),
        (RunState::Playing, Command::Stop) => Ok(RunState::Stopped),
        (RunState::Paused, Command::Stop) => Ok(RunState::Stopped),
        (RunState::Stopped, Command::Stop) => Ok(RunState::Stopped),
        (RunState::Failed, Command::Stop) => Ok(RunState::Failed),
        _ => Err(OrchError::InvalidTransition),
    }
}

} // verus!
