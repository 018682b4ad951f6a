use vstd::prelude::*;
use crate::config::{lookup, text_of, config_ok, ConfigKey, ConfigEntryModel};
use crate::errors::{OrchError, LinkDiag, LinkFailReason};
use crate::graph::{
    StageKind, StageModel, Edge, kind_has_input, kind_has_output, kind_of_name, caps_compatible,
};
use crate::lifecycle::{RunState, Command};

verus! {

/// Mathematical image of a whole pipeline: its stages, the edges linking
/// them, its run state, and the dynamic-link diagnostics recorded so far.
#[verifier::ext_equal]
pub struct PipelineModel {
    pub stages: Seq<StageModel>,
    pub edges: Seq<Edge>,
    pub state: RunState,
    pub diags: Seq<LinkDiag>,
}

/// The empty pipeline: no stages, no edges, under construction.
pub open spec fn init_model() -> PipelineModel {
    PipelineModel { stages: Seq::empty(), edges: Seq::empty(), state: RunState::Idle, diags: Seq::empty() }
}

/// A structurally sound edge: it runs forward in stage declaration order
/// between two existing stages, out of a port that exists into a port
/// that exists, and the capability it carries is acceptable to the input
/// it enters. Forwardness is what makes the graph acyclic: every path
/// strictly climbs the declaration order, so none returns to its start.
pub open spec fn edge_wf(p: PipelineModel, e: Edge) -> bool {
    &&& e.from < e.to
    &&& e.to < p.stages.len()
    &&& kind_has_output(p.stages[e.from as int].kind)
    &&& kind_has_input(p.stages[e.to as int].kind)
    &&& caps_compatible(p.stages[e.from as int].out_caps, p.stages[e.to as int].in_caps)
}

/// Pipeline well-formedness, established by the constructor and preserved
/// by every operation:
/// - every edge is structurally sound and runs forward in stage
///   declaration order, so the graph is a DAG;
/// - an input port carries at most one edge, and so does an output port;
/// - a stage's linked flags say exactly whether some edge touches it;
/// - no two stages share a name;
/// - a designated dynamic-link target names an existing stage further
///   down the declaration order with an input port, on a stage with an
///   output port, so a dynamic edge is forward too.
pub open spec fn wf(p: PipelineModel) -> bool {
    &&& forall|i: int| 0 <= i < p.edges.len() ==> edge_wf(p, #[trigger] p.edges[i])
    &&& forall|i: int, j: int|
        0 <= i < p.edges.len() && 0 <= j < p.edges.len() && i != j ==> #[trigger] p.edges[i].to
            != #[trigger] p.edges[j].to && p.edges[i].from != p.edges[j].from
    &&& forall|s: int|
        0 <= s < p.stages.len() ==> ((#[trigger] p.stages[s].in_linked) <==> exists|i: int|
            0 <= i < p.edges.len() && (#[trigger] p.edges[i].to) == s)
    &&& forall|s: int|
        0 <= s < p.stages.len() ==> ((#[trigger] p.stages[s].out_linked) <==> exists|i: int|
            0 <= i < p.edges.len() && (#[trigger] p.edges[i].from) == s)
    &&& forall|s: int, t: int|
        0 <= s < p.stages.len() && 0 <= t < p.stages.len() && s != t ==> (#[trigger] p.stages[s].name)
            != (#[trigger] p.stages[t].name)
    &&& forall|s: int|
        0 <= s < p.stages.len() ==> ((#[trigger] p.stages[s].dyn_target) matches Some(t) ==> t
            < p.stages.len() && s < t && kind_has_output(p.stages[s].kind) && kind_has_input(
            p.stages[t as int].kind,
        ))
}

/// Whether some stage already carries `name`.
pub open spec fn name_taken(p: PipelineModel, name: Seq<char>) -> bool {
    exists|s: int| 0 <= s < p.stages.len() && (#[trigger] p.stages[s].name) == name
}

/// The stage a successful `create` adds: ports unlinked, the input format
/// and declared output capability drawn from the configuration, no
/// designated dynamic target yet.
pub open spec fn new_stage_model(k: StageKind, name: Seq<char>, cfg: Seq<ConfigEntryModel>) -> StageModel {
    StageModel {
        name: name,
        kind: k,
        config: cfg,
        in_caps: text_of(lookup(cfg, ConfigKey::Format)),
        out_caps: text_of(lookup(cfg, ConfigKey::Produces)),
        in_linked: false,
        out_linked: false,
        dyn_target: None,
    }
}

/// What `create` does. Registration is a construction-phase operation;
/// the kind name must be known, the configuration acceptable for the kind,
/// and the stage name fresh. On success the new stage is appended and its
/// index returned.
pub open spec fn create_spec(
    p: PipelineModel,
    kind: Seq<char>,
    name: Seq<char>,
    cfg: Seq<ConfigEntryModel>,
) -> (PipelineModel, Result<usize, OrchError>) {
    if p.state != RunState::Idle {
        (p, Err(OrchError::InvalidPhase))
    } else {
        match kind_of_name(kind) {
            None => (p, Err(OrchError::UnknownKind)),
            Some(k) => {
                if !config_ok(k, cfg) {
                    (p, Err(OrchError::ConfigRejected))
                } else if name_taken(p, name) {
                    (p, Err(OrchError::ConfigRejected))
                } else {
                    (
                        PipelineModel { stages: p.stages.push(new_stage_model(k, name, cfg)), ..p },
                        Ok(p.stages.len() as usize),
                    )
                }
            },
        }
    }
}

/// `s` with its output port marked linked and carrying `caps`.
pub open spec fn with_out_linked(s: StageModel, caps: Option<Seq<char>>) -> StageModel {
    StageModel { out_linked: true, out_caps: caps, ..s }
}

/// `s` with its input port marked linked.
pub open spec fn with_in_linked(s: StageModel) -> StageModel {
    StageModel { in_linked: true, ..s }
}

/// `p` with the edge `a -> b` recorded and both ports marked linked.
/// The output capability of `a` is left as it stands for a static link
/// (`dynamic == false`) and set to the discovered capability for a
/// dynamic one.
pub open spec fn add_edge(p: PipelineModel, a: usize, b: usize, dynamic: bool, caps: Option<Seq<char>>) -> PipelineModel {
    PipelineModel {
        stages: p.stages.update(a as int, with_out_linked(p.stages[a as int], caps)).update(
            b as int,
            with_in_linked(p.stages[b as int]),
        ),
        edges: p.edges.push(Edge { from: a, to: b, dynamic }),
        ..p
    }
}

/// What a static `link` request does. Linking is a construction-phase
/// operation; the ports must exist and be compatible, the link must run
/// forward in stage declaration order (what keeps the graph acyclic), and
/// both ports must be free. On success the static edge is recorded and
/// returned.
pub open spec fn link_spec(p: PipelineModel, a: usize, b: usize) -> (
    PipelineModel,
    Result<Edge, OrchError>,
) {
    if p.state != RunState::Idle {
        (p, Err(OrchError::InvalidPhase))
    } else if b <= a || !kind_has_output(p.stages[a as int].kind) || !kind_has_input(
        p.stages[b as int].kind,
    ) || !caps_compatible(p.stages[a as int].out_caps, p.stages[b as int].in_caps) {
        (p, Err(OrchError::IncompatibleInterfaces))
    } else if p.stages[b as int].in_linked || p.stages[a as int].out_linked {
        (p, Err(OrchError::AlreadyLinked))
    } else {
        (
            add_edge(p, a, b, false, p.stages[a as int].out_caps),
            Ok(Edge { from: a, to: b, dynamic: false }),
        )
    }
}

/// What designating `t` as the dynamic-link target of `s` does: a
/// construction-phase operation requiring an output on `s` and an input
/// on a `t` further down the declaration order, so the dynamic edge the
/// discovery callback may later record is forward too.
pub open spec fn set_target_spec(p: PipelineModel, s: usize, t: usize) -> (
    PipelineModel,
    Result<(), OrchError>,
) {
    if p.state != RunState::Idle {
        (p, Err(OrchError::InvalidPhase))
    } else if t <= s || !kind_has_output(p.stages[s as int].kind) || !kind_has_input(
        p.stages[t as int].kind,
    ) {
        (p, Err(OrchError::IncompatibleInterfaces))
    } else {
        (
            PipelineModel {
                stages: p.stages.update(
                    s as int,
                    StageModel { dyn_target: Some(t), ..p.stages[s as int] },
                ),
                ..p
            },
            Ok(()),
        )
    }
}

/// What the discovery callback decides for a newly announced output port.
#[derive(Clone, Copy, PartialEq, Eq, Structural, Debug)]
pub enum LinkDecision {
    /// The discovering stage has no designated downstream target; a
    /// diagnostic is recorded.
    Unrouted,
    /// The designated input (or the discovered output) already carries an
    /// edge; the repeated announcement is ignored.
    AlreadyComplete,
    /// The discovered port has not negotiated a capability yet; await a
    /// later announcement. Not a failure: nothing is recorded.
    AwaitCaps,
    /// The discovered capability conflicts with what the target input
    /// accepts; a diagnostic is recorded and the pipeline keeps running.
    Refused,
    /// The dynamic edge was created; the host should complete the
    /// engine-level link.
    Linked,
}

/// What the discovery callback does, given the capability the engine
/// currently reports for the discovered port. In order: resolve the
/// designated target; ignore a repeated announcement for a port already
/// linked; defer while the capability is still unknown; then either
/// record the dynamic edge or a non-fatal `LinkFailed` diagnostic.
/// The run state is never touched.
pub open spec fn discover_spec(p: PipelineModel, s: usize, caps: Option<Seq<char>>) -> (
    PipelineModel,
    LinkDecision,
) {
    match p.stages[s as int].dyn_target {
        None => (
            PipelineModel {
                diags: p.diags.push(
                    LinkDiag { stage: s, reason: LinkFailReason::NoDesignatedTarget },
                ),
                ..p
            },
            LinkDecision::Unrouted,
        ),
        Some(t) => {
            if p.stages[t as int].in_linked || p.stages[s as int].out_linked {
                (p, LinkDecision::AlreadyComplete)
            } else if caps is None {
                (p, LinkDecision::AwaitCaps)
            } else if !caps_compatible(caps, p.stages[t as int].in_caps) {
                (
                    PipelineModel {
                        diags: p.diags.push(
                            LinkDiag { stage: s, reason: LinkFailReason::Incompatible },
                        ),
                        ..p
                    },
                    LinkDecision::Refused,
                )
            } else {
                (add_edge(p, s, t, true, caps), LinkDecision::Linked)
            }
        },
    }
}

/// What reporting the engine's verdict on the newest dynamic edge does.
/// On success the edge stands confirmed and nothing changes. On refusal
/// the provisional edge is withdrawn — both its ports are free again, so
/// a later re-announcement may retry the link — and a `LinkFailed`
/// diagnostic with reason `EngineRefused` is recorded.
pub open spec fn confirm_spec(p: PipelineModel, stage: usize, engine_ok: bool) -> PipelineModel {
    if engine_ok {
        p
    } else {
        let e = p.edges.last();
        PipelineModel {
            stages: p.stages.update(
                e.from as int,
                StageModel { out_linked: false, ..p.stages[e.from as int] },
            ).update(e.to as int, StageModel { in_linked: false, ..p.stages[e.to as int] }),
            edges: p.edges.drop_last(),
            diags: p.diags.push(LinkDiag { stage, reason: LinkFailReason::EngineRefused }),
            ..p
        }
    }
}

/// What a lifecycle command does to a pipeline: the graph is untouched and
/// the state advances exactly as the transition table says.
pub open spec fn command_spec(p: PipelineModel, c: Command) -> (PipelineModel, Result<
    (),
    OrchError,
>) {
    match crate::lifecycle::step_spec(p.state, c) {
        Ok(s2) => (PipelineModel { state: s2, ..p }, Ok(())),
        Err(e) => (p, Err(e)),
    }
}

/// What `start` does: only a ready pipeline may be started, and the engine
/// has the last word. A refused start leaves the pipeline ready.
pub open spec fn start_spec(p: PipelineModel, engine_accepts: bool) -> (PipelineModel, Result<
    (),
    OrchError,
>) {
    if p.state != RunState::Ready {
        (p, Err(OrchError::InvalidTransition))
    } else if !engine_accepts {
        (p, Err(OrchError::EngineRejected))
    } else {
        (PipelineModel { state: RunState::Playing, ..p }, Ok(()))
    }
}

/// Well-formedness depends only on the graph, so any change confined to
/// the run state or the diagnostics preserves it.
pub proof fn lemma_wf_graph_only(p: PipelineModel, p2: PipelineModel)
    requires
        wf(p),
        p2.stages == p.stages,
        p2.edges == p.edges,
    ensures
        wf(p2),
{
    assert forall|i: int| 0 <= i < p2.edges.len() implies edge_wf(p2, #[trigger] p2.edges[i]) by {
        assert(edge_wf(p, p.edges[i]));
    }
}

/// Appending a fresh, unlinked, untargeted stage with a fresh name
/// preserves well-formedness.
pub proof fn lemma_create_preserves_wf(
    p: PipelineModel,
    kind: Seq<char>,
    name: Seq<char>,
    cfg: Seq<ConfigEntryModel>,
)
    requires
        wf(p),
    ensures
        wf(create_spec(p, kind, name, cfg).0),
{
    let p2 = create_spec(p, kind, name, cfg).0;
    if p.state == RunState::Idle && kind_of_name(kind) is Some {
        let k = kind_of_name(kind)->Some_0;
        if config_ok(k, cfg) && !name_taken(p, name) {
            let ns = new_stage_model(k, name, cfg);
            let n = p.stages.len() as int;
            assert(forall|i: int| 0 <= i < n ==> p2.stages[i] == p.stages[i]);
            assert(p2.stages[n] == ns);
            assert forall|i: int| 0 <= i < p2.edges.len() implies edge_wf(
                p2,
                #[trigger] p2.edges[i],
            ) by {
                assert(edge_wf(p, p.edges[i]));
            }
            assert forall|s: int| 0 <= s < p2.stages.len() implies ((
            #[trigger] p2.stages[s].in_linked) <==> exists|i: int|
                0 <= i < p2.edges.len() && (#[trigger] p2.edges[i].to) == s) by {
                if s < n {
                    assert(p.stages[s].in_linked <==> exists|i: int|
                        0 <= i < p.edges.len() && (#[trigger] p.edges[i].to) == s);
                } else {
                    assert forall|i: int| 0 <= i < p2.edges.len() implies (
                    #[trigger] p2.edges[i].to) != s by {
                        assert(edge_wf(p, p.edges[i]));
                    }
                }
            }
            assert forall|s: int| 0 <= s < p2.stages.len() implies ((
            #[trigger] p2.stages[s].out_linked) <==> exists|i: int|
                0 <= i < p2.edges.len() && (#[trigger] p2.edges[i].from) == s) by {
                if s < n {
                    assert(p.stages[s].out_linked <==> exists|i: int|
                        0 <= i < p.edges.len() && (#[trigger] p.edges[i].from) == s);
                } else {
                    assert forall|i: int| 0 <= i < p2.edges.len() implies (
                    #[trigger] p2.edges[i].from) != s by {
                        assert(edge_wf(p, p.edges[i]));
                    }
                }
            }
        }
    }
}

/// Recording an edge between two free, distinct, compatible ports
/// preserves well-formedness.
pub proof fn lemma_add_edge_preserves_wf(
    p: PipelineModel,
    a: usize,
    b: usize,
    dynamic: bool,
    caps: Option<Seq<char>>,
)
    requires
        wf(p),
        a < b,
        b < p.stages.len(),
        kind_has_output(p.stages[a as int].kind),
        kind_has_input(p.stages[b as int].kind),
        caps_compatible(caps, p.stages[b as int].in_caps),
        !p.stages[b as int].in_linked,
        !p.stages[a as int].out_linked,
    ensures
        wf(add_edge(p, a, b, dynamic, caps)),
{
    let p2 = add_edge(p, a, b, dynamic, caps);
    let n = p.edges.len() as int;
    let e_new = Edge { from: a, to: b, dynamic };
    assert(p2.edges == p.edges.push(e_new));
    assert(forall|i: int| 0 <= i < n ==> p2.edges[i] == p.edges[i]);
    assert(p2.edges[n] == e_new);
    // No old edge leaves a or enters b: both ports were free.
    assert forall|i: int| 0 <= i < n implies (#[trigger] p.edges[i].from) != a && p.edges[i].to
        != b by {
        if p.edges[i].from == a {
            assert(p.stages[a as int].out_linked);
        }
        if p.edges[i].to == b {
            assert(p.stages[b as int].in_linked);
        }
    }
    // Only the flags of a and b and the output capability of a change.
    assert forall|s: int| 0 <= s < p.stages.len() && s != a && s != b implies p2.stages[s]
        == p.stages[s] by {}
    assert(p2.stages[a as int] == with_out_linked(p.stages[a as int], caps));
    assert(p2.stages[b as int] == with_in_linked(p.stages[b as int]));
    assert forall|i: int| 0 <= i < p2.edges.len() implies edge_wf(p2, #[trigger] p2.edges[i]) by {
        if i < n {
            assert(edge_wf(p, p.edges[i]));
            assert(p.edges[i].from != a);
        } else {
            assert(p2.edges[i] == e_new);
        }
    }
    assert forall|s: int| 0 <= s < p2.stages.len() implies ((#[trigger] p2.stages[s].in_linked)
        <==> exists|i: int| 0 <= i < p2.edges.len() && (#[trigger] p2.edges[i].to) == s) by {
        if s == b {
            assert(p2.edges[n].to == s);
        } else {
            assert(p.stages[s].in_linked <==> exists|i: int|
                0 <= i < p.edges.len() && (#[trigger] p.edges[i].to) == s);
            if p2.stages[s].in_linked {
                let i = choose|i: int| 0 <= i < p.edges.len() && (#[trigger] p.edges[i].to) == s;
                assert(p2.edges[i].to == s);
            }
        }
    }
    assert forall|s: int| 0 <= s < p2.stages.len() implies ((#[trigger] p2.stages[s].out_linked)
        <==> exists|i: int| 0 <= i < p2.edges.len() && (#[trigger] p2.edges[i].from) == s) by {
        if s == a {
            assert(p2.edges[n].from == s);
        } else {
            assert(p.stages[s].out_linked <==> exists|i: int|
                0 <= i < p.edges.len() && (#[trigger] p.edges[i].from) == s);
            if p2.stages[s].out_linked {
                let i = choose|i: int| 0 <= i < p.edges.len() && (#[trigger] p.edges[i].from) == s;
                assert(p2.edges[i].from == s);
            }
        }
    }
}

/// A static link request preserves well-formedness.
pub proof fn lemma_link_preserves_wf(p: PipelineModel, a: usize, b: usize)
    requires
        wf(p),
        a < p.stages.len(),
        b < p.stages.len(),
    ensures
        wf(link_spec(p, a, b).0),
{
    if p.state == RunState::Idle && !(b <= a || !kind_has_output(p.stages[a as int].kind)
        || !kind_has_input(p.stages[b as int].kind) || !caps_compatible(
        p.stages[a as int].out_caps,
        p.stages[b as int].in_caps,
    )) && !(p.stages[b as int].in_linked || p.stages[a as int].out_linked) {
        lemma_add_edge_preserves_wf(p, a, b, false, p.stages[a as int].out_caps);
    }
}

/// Designating a dynamic-link target preserves well-formedness.
pub proof fn lemma_set_target_preserves_wf(p: PipelineModel, s: usize, t: usize)
    requires
        wf(p),
        s < p.stages.len(),
        t < p.stages.len(),
    ensures
        wf(set_target_spec(p, s, t).0),
{
    let p2 = set_target_spec(p, s, t).0;
    if p.state == RunState::Idle && !(t <= s || !kind_has_output(p.stages[s as int].kind)
        || !kind_has_input(p.stages[t as int].kind)) {
        assert(forall|i: int|
            0 <= i < p.stages.len() && i != s ==> p2.stages[i] == #[trigger] p.stages[i]);
        assert forall|i: int| 0 <= i < p2.edges.len() implies edge_wf(p2, #[trigger] p2.edges[i]) by {
            assert(edge_wf(p, p.edges[i]));
        }
    }
}

/// Withdrawing the newest edge preserves well-formedness: by the
/// one-edge-per-port invariant no other edge touches either freed port,
/// so the flags and the edge set stay in step.
pub proof fn lemma_confirm_preserves_wf(p: PipelineModel, stage: usize, engine_ok: bool)
    requires
        wf(p),
        p.edges.len() > 0,
    ensures
        wf(confirm_spec(p, stage, engine_ok)),
{
    if !engine_ok {
        let p2 = confirm_spec(p, stage, engine_ok);
        let n = p.edges.len() - 1;
        let e = p.edges.last();
        assert(edge_wf(p, p.edges[n as int]));
        assert(p2.edges == p.edges.drop_last());
        assert(forall|i: int| 0 <= i < n ==> p2.edges[i] == p.edges[i]);
        assert forall|i: int| 0 <= i < n implies (#[trigger] p.edges[i].from) != e.from
            && p.edges[i].to != e.to by {
            assert(p.edges[i].to != p.edges[n as int].to && p.edges[i].from != p.edges[
                n as int
            ].from);
        }
        assert(p2.stages[e.from as int] == (StageModel {
            out_linked: false,
            ..p.stages[e.from as int]
        }));
        assert(p2.stages[e.to as int] == (StageModel { in_linked: false, ..p.stages[e.to as int] }));
        assert(forall|s: int|
            0 <= s < p.stages.len() && s != e.from && s != e.to ==> p2.stages[s] == #[trigger] p.stages[s]);
        assert forall|i: int| 0 <= i < p2.edges.len() implies edge_wf(p2, #[trigger] p2.edges[i]) by {
            assert(edge_wf(p, p.edges[i]));
            assert(p.edges[i].from != e.from);
        }
        assert forall|s: int| 0 <= s < p2.stages.len() implies ((#[trigger] p2.stages[s].in_linked)
            <==> exists|i: int| 0 <= i < p2.edges.len() && (#[trigger] p2.edges[i].to) == s) by {
            if s == e.to {
                assert(forall|i: int| 0 <= i < p2.edges.len() ==> (#[trigger] p2.edges[i].to) != s);
            } else {
                assert(p.stages[s].in_linked <==> exists|i: int|
                    0 <= i < p.edges.len() && (#[trigger] p.edges[i].to) == s);
                if p2.stages[s].in_linked {
                    let i = choose|i: int| 0 <= i < p.edges.len() && (#[trigger] p.edges[i].to)
                        == s;
                    assert(i != n);
                    assert(p2.edges[i].to == s);
                }
            }
        }
        assert forall|s: int| 0 <= s < p2.stages.len() implies ((#[trigger] p2.stages[s].out_linked)
            <==> exists|i: int| 0 <= i < p2.edges.len() && (#[trigger] p2.edges[i].from) == s) by {
            if s == e.from {
                assert(forall|i: int|
                    0 <= i < p2.edges.len() ==> (#[trigger] p2.edges[i].from) != s);
            } else {
                assert(p.stages[s].out_linked <==> exists|i: int|
                    0 <= i < p.edges.len() && (#[trigger] p.edges[i].from) == s);
                if p2.stages[s].out_linked {
                    let i = choose|i: int| 0 <= i < p.edges.len() && (#[trigger] p.edges[i].from)
                        == s;
                    assert(i != n);
                    assert(p2.edges[i].from == s);
                }
            }
        }
    }
}

/// The discovery callback preserves well-formedness: in particular, an
/// input port never ends up with two edges.
pub proof fn lemma_discover_preserves_wf(p: PipelineModel, s: usize, caps: Option<Seq<char>>)
    requires
        wf(p),
        s < p.stages.len(),
    ensures
        wf(discover_spec(p, s, caps).0),
{
    match p.stages[s as int].dyn_target {
        None => {
            lemma_wf_graph_only(p, discover_spec(p, s, caps).0);
        },
        Some(t) => {
            assert(t < p.stages.len() && s < t && kind_has_output(p.stages[s as int].kind)
                && kind_has_input(p.stages[t as int].kind));
            if p.stages[t as int].in_linked || p.stages[s as int].out_linked {
            } else if caps is None {
            } else if !caps_compatible(caps, p.stages[t as int].in_caps) {
                lemma_wf_graph_only(p, discover_spec(p, s, caps).0);
            } else {
                lemma_add_edge_preserves_wf(p, s, t, true, caps);
            }
        },
    }
}

} // verus!
