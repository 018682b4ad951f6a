use vstd::prelude::*;
use crate::config::{ConfigEntry, ConfigEntryModel};

verus! {

/// The kind of processing a stage performs; it determines which ports the
/// stage has: every kind but a source has an input port, every kind but a
/// sink has an output port.
#[derive(Clone, Copy, PartialEq, Eq, Structural, Debug)]
pub enum StageKind {
    Source,
    Demuxer,
    Decoder,
    Filter,
    Sink,
}

/// Whether a stage of this kind has an input port.
pub open spec fn kind_has_input(k: StageKind) -> bool {
    k != StageKind::Source
}

/// Whether a stage of this kind has an output port.
pub open spec fn kind_has_output(k: StageKind) -> bool {
    k != StageKind::Sink
}

/// The registry's kind names. A name outside this table is unknown.
pub open spec fn kind_of_name(s: Seq<char>) -> Option<StageKind> {
    if s == "source"@ {
        Some(StageKind::Source)
    } else if s == "demuxer"@ {
        Some(StageKind::Demuxer)
    } else if s == "decoder"@ {
        Some(StageKind::Decoder)
    } else if s == "filter"@ {
        Some(StageKind::Filter)
    } else if s == "sink"@ {
        Some(StageKind::Sink)
    } else {
        None
    }
}

/// Whether an output port carrying `out_caps` may be linked to an input
/// port accepting `in_caps`: an unconstrained input accepts anything, a
/// constrained input requires a known, equal capability.
pub open spec fn caps_compatible(out_caps: Option<Seq<char>>, in_caps: Option<Seq<char>>) -> bool {
    match in_caps {
        None => true,
        Some(i) => out_caps matches Some(o) && o == i,
    }
}

/// String equality by content.
pub fn str_eq(a: &str, b: &str) -> (r: bool)
    ensures
        r == (a@ == b@),
{
    let x: String = a.to_owned();
    let y: String = b.to_owned();
    x == y
}

/// Decides `kind_of_name` for a registry kind name.
pub fn parse_kind(s: &str) -> (r: Option<StageKind>)
    ensures
        r == kind_of_name(s@),
{
    if str_eq(s, "source") {
        Some(StageKind::Source)
    } else if str_eq(s, "demuxer") {
        Some(StageKind::Demuxer)
    } else if str_eq(s, "decoder") {
        Some(StageKind::Decoder)
    } else if str_eq(s, "filter") {
        Some(StageKind::Filter)
    } else if str_eq(s, "sink") {
        Some(StageKind::Sink)
    } else {
        None
    }
}

/// Decides `caps_compatible`.
pub fn caps_match(out_caps: &Option<String>, in_caps: &Option<String>) -> (b: bool)
    ensures
        b == caps_compatible(out_caps.deep_view(), in_caps.deep_view()),
{
    match in_caps {
        None => true,
        Some(i) => match out_caps {
            None => false,
            Some(o) => str_eq(o.as_str(), i.as_str()),
        },
    }
}

/// A completed link from the output port of stage `from` to the input port
/// of stage `to`. `dynamic` records whether the link was completed at run
/// time rather than declared at construction.
#[derive(Clone, Copy, PartialEq, Eq, Structural, Debug)]
pub struct Edge {
    pub from: usize,
    pub to: usize,
    pub dynamic: bool,
}

/// A named processing stage. Its ports are implicit in its kind; the
/// `in_linked`/`out_linked` flags record which of them already carry an
/// edge. `out_caps` is the capability its output is known to carry —
/// declared at construction or negotiated at run time — and `in_caps` is
/// the capability its input accepts, if constrained. `dyn_target` is the
/// designated downstream stage for run-time link discovery.
#[derive(Debug)]
pub struct Stage {
    pub name: String,
    pub kind: StageKind,
    pub config: Vec<ConfigEntry>,
    pub in_caps: Option<String>,
    pub out_caps: Option<String>,
    pub in_linked: bool,
    pub out_linked: bool,
    pub dyn_target: Option<usize>,
}

/// Mathematical image of a stage.
#[verifier::ext_equal]
pub struct StageModel {
    pub name: Seq<char>,
    pub kind: StageKind,
    pub config: Seq<ConfigEntryModel>,
    pub in_caps: Option<Seq<char>>,
    pub out_caps: Option<Seq<char>>,
    pub in_linked: bool,
    pub out_linked: bool,
    pub dyn_target: Option<usize>,
}

impl DeepView for Stage {
    type V = StageModel;

    open spec fn deep_view(&self) -> StageModel {
        StageModel {
            name: self.name@,
            kind: self.kind,
            config: self.config.deep_view(),
            in_caps: self.in_caps.deep_view(),
            out_caps: self.out_caps.deep_view(),
            in_linked: self.in_linked,
            out_linked: self.out_linked,
            dyn_target: self.dyn_target,
        }
    }
}

} // verus!
