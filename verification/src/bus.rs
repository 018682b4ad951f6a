use vstd::prelude::*;
use crate::lifecycle::RunState;

verus! {

/// An asynchronous lifecycle notification delivered by the engine.
#[derive(Clone, PartialEq, Eq, Debug)]
pub enum BusEvent {
    /// The stream ran to its end.
    EndOfStream,
    /// A fatal engine error, with its diagnostic detail.
    Error(String),
    /// Anything else; dispatching it changes nothing.
    Other,
}

/// Mathematical image of a bus event.
pub enum BusEventModel {
    EndOfStream,
    Error(Seq<char>),
    Other,
}

impl DeepView for BusEvent {
    type V = BusEventModel;

    open spec fn deep_view(&self) -> BusEventModel {
        match self {
            BusEvent::EndOfStream => BusEventModel::EndOfStream,
            BusEvent::Error(d) => BusEventModel::Error(d@),
            BusEvent::Other => BusEventModel::Other,
        }
    }
}

/// The orchestrator-level result of dispatching a bus event. The hosting
/// program derives its behaviour — keep consuming, exit cleanly, exit
/// with failure — from this value, never from the event directly.
#[derive(Clone, PartialEq, Eq, Debug)]
pub enum Outcome {
    /// Nothing decisive happened; keep consuming events.
    Proceed,
    /// The run completed successfully; tear down and exit cleanly.
    Finished,
    /// The run failed with the carried engine detail; tear down and exit
    /// unsuccessfully.
    Fatal(String),
}

/// Mathematical image of an outcome.
pub enum OutcomeModel {
    Proceed,
    Finished,
    Fatal(Seq<char>),
}

impl DeepView for Outcome {
    type V = OutcomeModel;

    open spec fn deep_view(&self) -> OutcomeModel {
        match self {
            Outcome::Proceed => OutcomeModel::Proceed,
            Outcome::Finished => OutcomeModel::Finished,
            Outcome::Fatal(d) => OutcomeModel::Fatal(d@),
        }
    }
}

/// What dispatching one bus event does to the run state, and what it
/// signals to the host. End of stream stops a running pipeline and signals
/// success; an engine error fails a non-terminal pipeline and signals
/// failure with the carried detail; any other event changes nothing. Once
/// a terminal state is reached, remaining events are drained without
/// action.
pub open spec fn dispatch_spec(s: RunState, e: BusEventModel) -> (RunState, OutcomeModel) {
    match e {
        BusEventModel::Other => (s, OutcomeModel::Proceed),
        BusEventModel::EndOfStream => {
            if s == RunState::Playing || s == RunState::Paused {
                (RunState::Stopped, OutcomeModel::Finished)
            } else {
                (s, OutcomeModel::Proceed)
            }
        },
        BusEventModel::Error(d) => {
            if s == RunState::Stopped || s == RunState::Failed {
                (s, OutcomeModel::Proceed)
            } else {
                (RunState::Failed, OutcomeModel::Fatal(d))
            }
        },
    }
}

/// The bus dispatcher as a pure function on the run state.
pub fn dispatch_step(s: RunState, e: &BusEvent) -> (r: (RunState, Outcome))
    ensures
        (r.0, r.1.deep_view()) == dispatch_spec(s, e.deep_view()),
{
    match e {
        BusEvent::Other => (s, Outcome::Proceed),
        BusEvent::EndOfStream => {
            if s == RunState::Playing || s == RunState::Paused {
                (RunState::Stopped, Outcome::Finished)
            } else {
                (s, Outcome::Proceed)
            }
        },
        BusEvent::Error(d) => {
            if s == RunState::Stopped || s == RunState::Failed {
                (s, Outcome::Proceed)
            } else {
                (RunState::Failed, Outcome::Fatal(d.clone()))
            }
        },
    }
}

/// The process exit code an outcome calls for: failure is reported with a
/// non-zero code, anything else with zero.
pub open spec fn exit_code_spec(o: OutcomeModel) -> i32 {
    if o is Fatal {
        1
    } else {
        0
    }
}

/// Derives the hosting program's exit code from a final outcome.
pub fn exit_code(o: &Outcome) -> (c: i32)
    ensures
        c == exit_code_spec(o.deep_view()),
{
    match o {
        Outcome::Fatal(_) => 1,
        _ => 0,
    }
}

} // verus!
