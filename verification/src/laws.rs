use vstd::prelude::*;
use crate::config::{lookup, text_of, ConfigKey, ConfigEntryModel};
use crate::errors::OrchError;
use crate::graph::{Edge, kind_has_input, kind_has_output, kind_of_name, caps_compatible};
use crate::lifecycle::{RunState, Command, step_spec, listed_transition};
use crate::model::{
    PipelineModel, wf, edge_wf, create_spec, link_spec, discover_spec, LinkDecision,
};

verus! {

/// Registering two stages the registry accepts — the first with an output,
/// the second with an input, their declared capabilities compatible — a
/// static link between them succeeds exactly once: the link itself
/// succeeds, and a second request for the same input port is refused with
/// `AlreadyLinked`.
pub proof fn lemma_create_then_link_once(
    p: PipelineModel,
    kind1: Seq<char>,
    name1: Seq<char>,
    cfg1: Seq<ConfigEntryModel>,
    kind2: Seq<char>,
    name2: Seq<char>,
    cfg2: Seq<ConfigEntryModel>,
)
    requires
        wf(p),
        p.stages.len() + 1 <= usize::MAX,
        create_spec(p, kind1, name1, cfg1).1 is Ok,
        create_spec(create_spec(p, kind1, name1, cfg1).0, kind2, name2, cfg2).1 is Ok,
        kind_has_output(kind_of_name(kind1)->Some_0),
        kind_has_input(kind_of_name(kind2)->Some_0),
        caps_compatible(
            text_of(lookup(cfg1, ConfigKey::Produces)),
            text_of(lookup(cfg2, ConfigKey::Format)),
        ),
    ensures
        ({
            let first = create_spec(p, kind1, name1, cfg1);
            let second = create_spec(first.0, kind2, name2, cfg2);
            let linked = link_spec(second.0, first.1->Ok_0, second.1->Ok_0);
            &&& linked.1 is Ok
            &&& link_spec(linked.0, first.1->Ok_0, second.1->Ok_0).1 == Err::<Edge, OrchError>(
                OrchError::AlreadyLinked,
            )
        }),
{
    let first = create_spec(p, kind1, name1, cfg1);
    let second = create_spec(first.0, kind2, name2, cfg2);
    let i1 = first.1->Ok_0;
    let i2 = second.1->Ok_0;
    assert(i1 == p.stages.len());
    assert(i2 == first.0.stages.len());
    assert(second.0.stages[i1 as int].out_linked == false);
    assert(second.0.stages[i2 as int].in_linked == false);
    let linked = link_spec(second.0, i1, i2);
    assert(linked.1 is Ok);
    assert(linked.0.stages[i2 as int].in_linked);
    assert(linked.0.state == RunState::Idle);
}

/// Delivering the same discovery twice never yields a second edge: the
/// edges after a repeated callback are exactly the edges after the first,
/// and a repetition after a completed link is ignored outright.
pub proof fn lemma_discovery_idempotent(p: PipelineModel, s: usize, caps: Option<Seq<char>>)
    requires
        wf(p),
        s < p.stages.len(),
    ensures
        discover_spec(discover_spec(p, s, caps).0, s, caps).0.edges == discover_spec(
            p,
            s,
            caps,
        ).0.edges,
        discover_spec(p, s, caps).1 == LinkDecision::Linked ==> discover_spec(
            discover_spec(p, s, caps).0,
            s,
            caps,
        ) == (discover_spec(p, s, caps).0, LinkDecision::AlreadyComplete),
{
    let p1 = discover_spec(p, s, caps).0;
    match p.stages[s as int].dyn_target {
        None => {
            assert(p1.stages == p.stages);
            assert(discover_spec(p1, s, caps).0.edges == p1.edges);
        },
        Some(t) => {
            if p.stages[t as int].in_linked || p.stages[s as int].out_linked {
            } else if caps is None {
            } else if !caps_compatible(caps, p.stages[t as int].in_caps) {
                assert(p1.stages == p.stages);
            } else {
                assert(t != s);
                assert(p1.stages[t as int].in_linked);
                assert(p1.stages[s as int].dyn_target == Some(t));
            }
        },
    }
}

/// While the engine still reports no capability for a discovered port, the
/// callback defers entirely: no edge is created and no diagnostic is
/// recorded — an unnegotiated port is not a failed one. (This needs the
/// discovering stage to have a designated target; without one, the
/// callback records its diagnostic before ever asking for capabilities.)
pub proof fn lemma_capability_pending(p: PipelineModel, s: usize)
    requires
        wf(p),
        s < p.stages.len(),
        p.stages[s as int].dyn_target is Some,
    ensures
        discover_spec(p, s, None).0 == p,
        discover_spec(p, s, None).1 == LinkDecision::AlreadyComplete || discover_spec(
            p,
            s,
            None,
        ).1 == LinkDecision::AwaitCaps,
{
}

/// A path through the graph: each member is an edge of the pipeline, and
/// each edge ends at the stage where the next one begins.
pub open spec fn path_connects(p: PipelineModel, path: Seq<Edge>) -> bool {
    &&& forall|i: int| 0 <= i < path.len() ==> p.edges.contains(#[trigger] path[i])
    &&& forall|i: int| 0 <= i < path.len() - 1 ==> (#[trigger] path[i].to) == path[i + 1].from
}

/// A well-formed pipeline is acyclic: every edge runs forward in stage
/// declaration order, so a nonempty path strictly climbs that order and
/// ends strictly below where it began — in particular, no path returns
/// to its starting stage.
pub proof fn lemma_graph_acyclic(p: PipelineModel, path: Seq<Edge>)
    requires
        wf(p),
        path.len() > 0,
        path_connects(p, path),
    ensures
        path.first().from < path.last().to,
    decreases path.len(),
{
    let n = path.len() - 1;
    let e = path[n as int];
    assert(p.edges.contains(e));
    let j = choose|j: int| 0 <= j < p.edges.len() && p.edges[j] == e;
    assert(edge_wf(p, p.edges[j]));
    if path.len() > 1 {
        let prefix = path.drop_last();
        assert(forall|i: int| 0 <= i < prefix.len() ==> prefix[i] == #[trigger] path[i]);
        assert(path_connects(p, prefix));
        lemma_graph_acyclic(p, prefix);
        assert(prefix.last() == path[n - 1]);
        assert(path[n - 1].to == path[n as int].from);
    }
}

/// The lifecycle state machine is total: a command succeeds exactly on
/// the pairs of the transition table, and every other pair is answered
/// with `InvalidTransition` — never a crash, never a silent no-op.
pub proof fn lemma_lifecycle_total(s: RunState, c: Command)
    ensures
        step_spec(s, c) is Ok <==> listed_transition(s, c),
        !listed_transition(s, c) ==> step_spec(s, c) == Err::<RunState, OrchError>(
            OrchError::InvalidTransition,
        ),
{
}

} // verus!
