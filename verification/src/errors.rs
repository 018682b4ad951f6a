use vstd::prelude::*;

verus! {

/// Errors returned by graph construction and lifecycle control.
///
/// Construction-time errors (`ConfigRejected`, `UnknownKind`,
/// `IncompatibleInterfaces`, `AlreadyLinked`, `InvalidPhase`) abort startup;
/// `EngineRejected` reports a refused start request; `InvalidTransition`
/// reports a lifecycle command that the current state does not admit.
#[derive(Clone, Copy, PartialEq, Eq, Structural, Debug)]
pub enum OrchError {
    /// A required configuration key is missing or holds a value of the
    /// wrong shape.
    ConfigRejected,
    /// The requested stage kind is not one the registry supports.
    UnknownKind,
    /// The two ports named in a link request can never match: the upstream
    /// stage has no output, the downstream stage has no input, the link
    /// would not run forward in stage declaration order (which is what
    /// keeps the graph acyclic), or their declared capabilities conflict.
    IncompatibleInterfaces,
    /// The input or output port named in a static link request already
    /// carries an edge.
    AlreadyLinked,
    /// A construction operation was attempted after the pipeline left the
    /// construction phase.
    InvalidPhase,
    /// The engine refused the request to begin executing the graph.
    EngineRejected,
    /// The (state, command) pair is not in the lifecycle transition table.
    InvalidTransition,
}

/// Why a dynamic link attempt failed.
#[derive(Clone, Copy, PartialEq, Eq, Structural, Debug)]
pub enum LinkFailReason {
    /// The discovering stage has no designated downstream target.
    NoDesignatedTarget,
    /// The discovered capability conflicts with what the target input
    /// accepts.
    Incompatible,
    /// The engine refused the engine-level link for an edge the
    /// orchestrator had accepted; the provisional edge was withdrawn.
    EngineRefused,
}

/// A recorded `LinkFailed` diagnostic: a dynamic link attempt for `stage`
/// failed for `reason`. Non-fatal; the rest of the graph keeps running.
#[derive(Clone, Copy, PartialEq, Eq, Structural, Debug)]
pub struct LinkDiag {
    pub stage: usize,
    pub reason: LinkFailReason,
}

} // verus!
