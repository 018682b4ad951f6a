use vstd::prelude::*;
use crate::bus::{BusEvent, Outcome, dispatch_spec, dispatch_step};
use crate::config::{ConfigEntry, ConfigKey, config_valid, lookup_text};
use crate::errors::{OrchError, LinkDiag, LinkFailReason};
use crate::graph::{Stage, StageKind, Edge, parse_kind, caps_match, str_eq};
use crate::lifecycle::{RunState, Command, lifecycle_step};
use crate::model::{
    PipelineModel, init_model, wf, create_spec, link_spec, set_target_spec, discover_spec,
    command_spec, start_spec, confirm_spec, new_stage_model, add_edge, edge_wf, LinkDecision,
    lemma_create_preserves_wf, lemma_link_preserves_wf, lemma_set_target_preserves_wf,
    lemma_discover_preserves_wf, lemma_confirm_preserves_wf, lemma_wf_graph_only,
};

verus! {

/// An owned graph of processing stages, the edges completed so far, the
/// single run state, and the non-fatal dynamic-link diagnostics. All graph
/// mutation goes through the methods below; the host serializes calls to
/// them against each other, so a discovery callback and a lifecycle
/// command never interleave.
#[derive(Debug)]
pub struct Pipeline {
    pub stages: Vec<Stage>,
    pub edges: Vec<Edge>,
    pub state: RunState,
    pub diags: Vec<LinkDiag>,
}

impl View for Pipeline {
    type V = PipelineModel;

    open spec fn view(&self) -> PipelineModel {
        PipelineModel {
            stages: self.stages.deep_view(),
            edges: self.edges@,
            state: self.state,
            diags: self.diags@,
        }
    }
}

impl Pipeline {
    /// An empty pipeline, under construction.
    pub fn new() -> (p: Pipeline)
        ensures
            p@ == init_model(),
            wf(p@),
    {
        let p = Pipeline {
            stages: Vec::new(),
            edges: Vec::new(),
            state: RunState::Idle,
            diags: Vec::new(),
        };
        proof {
            assert(p@.stages =~= init_model().stages);
            assert(p@ =~= init_model());
        }
        p
    }

    /// Registers a stage of the given kind under the given name. Fails
    /// with `UnknownKind` for a kind name outside the registry's table,
    /// `ConfigRejected` for an unacceptable configuration or a name some
    /// stage already carries, and `InvalidPhase` outside the construction
    /// phase. On success, returns the new stage's index.
    #[verifier::loop_isolation(false)]
    pub fn create(&mut self, kind: &str, name: &str, config: Vec<ConfigEntry>) -> (r: Result<
        usize,
        OrchError,
    >)
        requires
            wf(old(self)@),
        ensures
            final(self)@ == create_spec(old(self)@, kind@, name@, config.deep_view()).0,
            r == create_spec(old(self)@, kind@, name@, config.deep_view()).1,
            wf(final(self)@),
    {
        proof {
            lemma_create_preserves_wf(old(self)@, kind@, name@, config.deep_view());
        }
        if self.state != RunState::Idle {
            return Err(OrchError::InvalidPhase);
        }
        let k = match parse_kind(kind) {
            None => {
                return Err(OrchError::UnknownKind);
            },
            Some(k) => k,
        };
        if !config_valid(k, &config) {
            return Err(OrchError::ConfigRejected);
        }
        let mut i: usize = 0;
        while i < self.stages.len()
            invariant
                i <= self.stages.len(),
                self@ == old(self)@,
                forall|j: int| 0 <= j < i ==> (#[trigger] self.stages.deep_view()[j].name) != name@,
            decreases self.stages.len() - i,
        {
            if str_eq(self.stages[i].name.as_str(), name) {
                proof {
                    assert(old(self)@.stages[i as int].name == name@);
                    assert(crate::model::name_taken(old(self)@, name@));
                }
                return Err(OrchError::ConfigRejected);
            }
            i = i + 1;
        }
        assert(!crate::model::name_taken(self@, name@));
        let in_caps = lookup_text(&config, ConfigKey::Format);
        let out_caps = lookup_text(&config, ConfigKey::Produces);
        let idx = self.stages.len();
        let ghost pre = self@;
        let ghost cfg_m = config.deep_view();
        let st = Stage {
            name: name.to_owned(),
            kind: k,
            config,
            in_caps,
            out_caps,
            in_linked: false,
            out_linked: false,
            dyn_target: None,
        };
        proof {
            assert(st.deep_view() =~= new_stage_model(k, name@, cfg_m));
        }
        self.stages.push(st);
        proof {
            assert(self@.stages =~= pre.stages.push(new_stage_model(k, name@, cfg_m)));
            assert(self@ =~= create_spec(pre, kind@, name@, cfg_m).0);
        }
        Ok(idx)
    }

    /// Declares the static link from the output port of stage `from` to
    /// the input port of stage `to`. Fails with `InvalidPhase` outside the
    /// construction phase, `IncompatibleInterfaces` where the ports can
    /// never match — including a link that would not run forward in stage
    /// declaration order, which is what keeps the graph acyclic — and
    /// `AlreadyLinked` where either port already carries an edge. On
    /// success, returns the recorded static edge.
    pub fn link(&mut self, from: usize, to: usize) -> (r: Result<Edge, OrchError>)
        requires
            wf(old(self)@),
            from < old(self)@.stages.len(),
            to < old(self)@.stages.len(),
        ensures
            final(self)@ == link_spec(old(self)@, from, to).0,
            r == link_spec(old(self)@, from, to).1,
            wf(final(self)@),
    {
        proof {
            lemma_link_preserves_wf(old(self)@, from, to);
        }
        if self.state != RunState::Idle {
            return Err(OrchError::InvalidPhase);
        }
        if to <= from {
            return Err(OrchError::IncompatibleInterfaces);
        }
        if self.stages[from].kind == StageKind::Sink || self.stages[to].kind == StageKind::Source {
            return Err(OrchError::IncompatibleInterfaces);
        }
        if !caps_match(&self.stages[from].out_caps, &self.stages[to].in_caps) {
            return Err(OrchError::IncompatibleInterfaces);
        }
        if self.stages[to].in_linked || self.stages[from].out_linked {
            return Err(OrchError::AlreadyLinked);
        }
        let ghost pre = self@;
        let e = Edge { from, to, dynamic: false };
        {
            let st = &mut self.stages[from];
            st.out_linked = true;
        }
        {
            let st = &mut self.stages[to];
            st.in_linked = true;
        }
        self.edges.push(e);
        proof {
            let p2 = add_edge(pre, from, to, false, pre.stages[from as int].out_caps);
            assert(self@.stages =~~= p2.stages);
            assert(self@ =~~= p2);
        }
        Ok(e)
    }

    /// Designates stage `target` as the downstream stage whose input the
    /// discovery callback will complete for `stage`'s run-time output.
    /// Fails with `InvalidPhase` outside the construction phase and
    /// `IncompatibleInterfaces` where the designated ports cannot exist
    /// or the route would not run forward in stage declaration order.
    pub fn set_dynamic_target(&mut self, stage: usize, target: usize) -> (r: Result<(), OrchError>)
        requires
            wf(old(self)@),
            stage < old(self)@.stages.len(),
            target < old(self)@.stages.len(),
        ensures
            final(self)@ == set_target_spec(old(self)@, stage, target).0,
            r == set_target_spec(old(self)@, stage, target).1,
            wf(final(self)@),
    {
        proof {
            lemma_set_target_preserves_wf(old(self)@, stage, target);
        }
        if self.state != RunState::Idle {
            return Err(OrchError::InvalidPhase);
        }
        if target <= stage || self.stages[stage].kind == StageKind::Sink
            || self.stages[target].kind == StageKind::Source {
            return Err(OrchError::IncompatibleInterfaces);
        }
        let ghost pre = self@;
        {
            let st = &mut self.stages[stage];
            st.dyn_target = Some(target);
        }
        proof {
            assert(self@.stages =~~= set_target_spec(pre, stage, target).0.stages);
            assert(self@ =~~= set_target_spec(pre, stage, target).0);
        }
        Ok(())
    }

    /// The discovery callback: a stage announced a newly available output
    /// port, and `caps` is the capability the engine currently reports
    /// for it. Resolves the designated downstream input; ignores the
    /// announcement if that input (or the announced output) is already
    /// linked; defers, without recording anything, while the capability
    /// is unknown; otherwise completes the dynamic edge or records a
    /// non-fatal `LinkFailed` diagnostic. The run state is never touched:
    /// a failed dynamic link degrades one branch, it does not abort the
    /// graph. The returned decision tells the host whether to complete
    /// the engine-level link.
    pub fn on_port_discovered(&mut self, stage: usize, caps: Option<String>) -> (d: LinkDecision)
        requires
            wf(old(self)@),
            stage < old(self)@.stages.len(),
        ensures
            final(self)@ == discover_spec(old(self)@, stage, caps.deep_view()).0,
            d == discover_spec(old(self)@, stage, caps.deep_view()).1,
            wf(final(self)@),
    {
        proof {
            lemma_discover_preserves_wf(old(self)@, stage, caps.deep_view());
        }
        let t = match self.stages[stage].dyn_target {
            None => {
                let ghost pre = self@;
                self.diags.push(
                    LinkDiag { stage, reason: LinkFailReason::NoDesignatedTarget },
                );
                proof {
                    assert(self@ =~= discover_spec(pre, stage, caps.deep_view()).0);
                }
                return LinkDecision::Unrouted;
            },
            Some(t) => t,
        };
        assert(t < self.stages.len());
        if self.stages[t].in_linked || self.stages[stage].out_linked {
            return LinkDecision::AlreadyComplete;
        }
        if caps.is_none() {
            return LinkDecision::AwaitCaps;
        }
        if !caps_match(&caps, &self.stages[t].in_caps) {
            let ghost pre = self@;
            self.diags.push(LinkDiag { stage, reason: LinkFailReason::Incompatible });
            proof {
                assert(self@ =~= discover_spec(pre, stage, caps.deep_view()).0);
            }
            return LinkDecision::Refused;
        }
        let ghost pre = self@;
        let ghost caps_m = caps.deep_view();
        {
            let st = &mut self.stages[stage];
            st.out_linked = true;
            st.out_caps = caps;
        }
        {
            let st = &mut self.stages[t];
            st.in_linked = true;
        }
        self.edges.push(Edge { from: stage, to: t, dynamic: true });
        proof {
            let p2 = add_edge(pre, stage, t, true, caps_m);
            assert(self@.stages =~~= p2.stages);
            assert(self@ =~~= p2);
        }
        LinkDecision::Linked
    }

    /// Reports the engine's verdict on the newest dynamic edge — the one
    /// a `Linked` decision just asked the host to complete, under the
    /// same lock. A confirmed edge stands. A refused one is withdrawn:
    /// both its ports are free again, so a later re-announcement may
    /// retry the link, and a `LinkFailed` diagnostic with reason
    /// `EngineRefused` records the failure. The model and the engine
    /// thus agree on which links exist.
    pub fn confirm_dynamic_link(&mut self, stage: usize, engine_ok: bool)
        requires
            wf(old(self)@),
            old(self)@.edges.len() > 0,
            old(self)@.edges.last().from == stage,
            old(self)@.edges.last().dynamic,
        ensures
            final(self)@ == confirm_spec(old(self)@, stage, engine_ok),
            wf(final(self)@),
    {
        proof {
            lemma_confirm_preserves_wf(old(self)@, stage, engine_ok);
            assert(edge_wf(old(self)@, old(self)@.edges[old(self)@.edges.len() - 1]));
        }
        if engine_ok {
            return;
        }
        let ghost pre = self@;
        let e = self.edges[self.edges.len() - 1];
        self.edges.pop();
        {
            let st = &mut self.stages[e.from];
            st.out_linked = false;
        }
        {
            let st = &mut self.stages[e.to];
            st.in_linked = false;
        }
        self.diags.push(LinkDiag { stage, reason: LinkFailReason::EngineRefused });
        proof {
            assert(self@.stages =~~= confirm_spec(pre, stage, engine_ok).stages);
            assert(self@ =~~= confirm_spec(pre, stage, engine_ok));
        }
    }

    /// Applies one lifecycle command, exactly as the transition table
    /// says; a pair outside the table is refused with `InvalidTransition`
    /// and changes nothing.
    pub fn apply_command(&mut self, c: Command) -> (r: Result<(), OrchError>)
        requires
            wf(old(self)@),
        ensures
            final(self)@ == command_spec(old(self)@, c).0,
            r == command_spec(old(self)@, c).1,
            wf(final(self)@),
    {
        proof {
            lemma_wf_graph_only(old(self)@, command_spec(old(self)@, c).0);
        }
        match lifecycle_step(self.state, c) {
            Ok(s2) => {
                self.state = s2;
                proof {
                    assert(self@ =~= command_spec(old(self)@, c).0);
                }
                Ok(())
            },
            Err(e) => Err(e),
        }
    }

    /// Declares construction complete: the pipeline leaves `Idle` for
    /// `Ready`. From any other state: `InvalidTransition`.
    pub fn finalize(&mut self) -> (r: Result<(), OrchError>)
        requires
            wf(old(self)@),
        ensures
            final(self)@ == command_spec(old(self)@, Command::Finalize).0,
            r == command_spec(old(self)@, Command::Finalize).1,
            wf(final(self)@),
    {
        self.apply_command(Command::Finalize)
    }

    /// Asks the engine to execute the graph; `engine_accepts` is the
    /// engine's verdict on the request. Only a ready pipeline may be
    /// started; a refused start reports `EngineRejected` and leaves the
    /// pipeline ready.
    pub fn start(&mut self, engine_accepts: bool) -> (r: Result<(), OrchError>)
        requires
            wf(old(self)@),
        ensures
            final(self)@ == start_spec(old(self)@, engine_accepts).0,
            r == start_spec(old(self)@, engine_accepts).1,
            wf(final(self)@),
    {
        proof {
            lemma_wf_graph_only(old(self)@, start_spec(old(self)@, engine_accepts).0);
        }
        if self.state != RunState::Ready {
            return Err(OrchError::InvalidTransition);
        }
        if !engine_accepts {
            return Err(OrchError::EngineRejected);
        }
        self.state = RunState::Playing;
        proof {
            assert(self@ =~= start_spec(old(self)@, engine_accepts).0);
        }
        Ok(())
    }

    /// Requests teardown. Idempotent on a stopped pipeline and permitted
    /// on a failed one, where the failure stays recorded; from the
    /// construction states, where the engine holds nothing yet, it is
    /// `InvalidTransition`.
    pub fn stop(&mut self) -> (r: Result<(), OrchError>)
        requires
            wf(old(self)@),
        ensures
            final(self)@ == command_spec(old(self)@, Command::Stop).0,
            r == command_spec(old(self)@, Command::Stop).1,
            wf(final(self)@),
    {
        self.apply_command(Command::Stop)
    }

    /// Consumes one bus event: end of stream stops a running pipeline and
    /// signals success, an engine error fails a non-terminal pipeline and
    /// signals failure with its detail, anything else changes nothing.
    /// The graph itself is never touched.
    pub fn dispatch(&mut self, e: &BusEvent) -> (r: Outcome)
        requires
            wf(old(self)@),
        ensures
            final(self)@ == (PipelineModel {
                state: dispatch_spec(old(self)@.state, e.deep_view()).0,
                ..old(self)@
            }),
            r.deep_view() == dispatch_spec(old(self)@.state, e.deep_view()).1,
            wf(final(self)@),
    {
        proof {
            lemma_wf_graph_only(
                old(self)@,
                PipelineModel {
                    state: dispatch_spec(old(self)@.state, e.deep_view()).0,
                    ..old(self)@
                },
            );
        }
        let (s2, out) = dispatch_step(self.state, e);
        self.state = s2;
        proof {
            assert(self@ =~= PipelineModel {
                state: dispatch_spec(old(self)@.state, e.deep_view()).0,
                ..old(self)@
            });
        }
        out
    }
}

} // verus!
