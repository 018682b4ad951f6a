use vstd::prelude::*;
use crate::graph::StageKind;

verus! {

/// Configuration keys the registry understands.
#[derive(Clone, Copy, PartialEq, Eq, Structural, Debug)]
pub enum ConfigKey {
    /// Where a source reads from. Required for sources; textual.
    Location,
    /// The capability the stage's input port accepts. Optional; textual.
    /// An input with no declared format accepts any capability.
    Format,
    /// The capability the stage's output port carries. Optional; textual.
    /// An output with no declared capability negotiates one at run time.
    Produces,
    /// A numeric processing parameter, as an integer per-mille value.
    Saturation,
}

/// A configuration value: text or a number.
#[derive(Clone, PartialEq, Eq, Debug)]
pub enum ConfigValue {
    Text(String),
    Number(i64),
}

/// Mathematical image of a configuration value.
pub enum ConfigValueModel {
    Text(Seq<char>),
    Number(int),
}

impl DeepView for ConfigValue {
    type V = ConfigValueModel;

    open spec fn deep_view(&self) -> ConfigValueModel {
        match self {
            ConfigValue::Text(s) => ConfigValueModel::Text(s@),
            ConfigValue::Number(n) => ConfigValueModel::Number(*n as int),
        }
    }
}

/// One key/value pair of a stage's configuration.
#[derive(Clone, PartialEq, Eq, Debug)]
pub struct ConfigEntry {
    pub key: ConfigKey,
    pub value: ConfigValue,
}

/// Mathematical image of a configuration entry.
pub struct ConfigEntryModel {
    pub key: ConfigKey,
    pub value: ConfigValueModel,
}

impl DeepView for ConfigEntry {
    type V = ConfigEntryModel;

    open spec fn deep_view(&self) -> ConfigEntryModel {
        ConfigEntryModel { key: self.key, value: self.value.deep_view() }
    }
}

/// The first value stored under `k` at position `i` or later, if any.
pub open spec fn lookup_from(cfg: Seq<ConfigEntryModel>, k: ConfigKey, i: int) -> Option<
    ConfigValueModel,
>
    decreases cfg.len() - i,
{
    if i < 0 || i >= cfg.len() {
        None
    } else if cfg[i].key == k {
        Some(cfg[i].value)
    } else {
        lookup_from(cfg, k, i + 1)
    }
}

/// The first value stored under `k`, if any.
pub open spec fn lookup(cfg: Seq<ConfigEntryModel>, k: ConfigKey) -> Option<ConfigValueModel> {
    lookup_from(cfg, k, 0)
}

/// The text under `v`, if `v` holds a textual value.
pub open spec fn text_of(v: Option<ConfigValueModel>) -> Option<Seq<char>> {
    match v {
        Some(ConfigValueModel::Text(t)) => Some(t),
        _ => None,
    }
}

/// Whether one entry holds a value of the shape its key calls for:
/// locations and capabilities are text, parameters are numbers.
pub open spec fn entry_ok(e: ConfigEntryModel) -> bool {
    match e.key {
        ConfigKey::Location => e.value is Text,
        ConfigKey::Format => e.value is Text,
        ConfigKey::Produces => e.value is Text,
        ConfigKey::Saturation => e.value is Number,
    }
}

/// Whether every entry is well shaped.
pub open spec fn config_entries_ok(cfg: Seq<ConfigEntryModel>) -> bool {
    forall|i: int| 0 <= i < cfg.len() ==> entry_ok(#[trigger] cfg[i])
}

/// Whether `cfg` is acceptable for a stage of kind `k`: every entry is well
/// shaped, and a source names the location it reads from.
pub open spec fn config_ok(k: StageKind, cfg: Seq<ConfigEntryModel>) -> bool {
    config_entries_ok(cfg) && (k == StageKind::Source ==> lookup(cfg, ConfigKey::Location) is Some)
}

/// Finds the index of the first entry stored under `k`.
pub fn config_find(cfg: &Vec<ConfigEntry>, k: ConfigKey) -> (r: Option<usize>)
    ensures
        match r {
            Some(i) => i < cfg.len() && cfg.deep_view()[i as int].key == k && lookup(
                cfg.deep_view(),
                k,
            ) == Some(cfg.deep_view()[i as int].value),
            None => lookup(cfg.deep_view(), k) is None,
        },
{
    let ghost m = cfg.deep_view();
    let mut i: usize = 0;
    while i < cfg.len()
        invariant
            i <= cfg.len(),
            m == cfg.deep_view(),
            m.len() == cfg.len(),
            lookup_from(m, k, 0) == lookup_from(m, k, i as int),
        decreases cfg.len() - i,
    {
        if cfg[i].key == k {
            return Some(i);
        }
        i = i + 1;
    }
    None
}

/// The text stored under `k`, if the first entry under `k` is textual.
pub fn lookup_text(cfg: &Vec<ConfigEntry>, k: ConfigKey) -> (r: Option<String>)
    ensures
        r.deep_view() == text_of(lookup(cfg.deep_view(), k)),
{
    match config_find(cfg, k) {
        None => None,
        Some(i) => match &cfg[i].value {
            ConfigValue::Text(s) => Some(s.clone()),
            ConfigValue::Number(_) => None,
        },
    }
}

/// Decides `config_ok`: whether `cfg` is acceptable for a stage of kind `k`.
pub fn config_valid(k: StageKind, cfg: &Vec<ConfigEntry>) -> (b: bool)
    ensures
        b == config_ok(k, cfg.deep_view()),
{
    let ghost m = cfg.deep_view();
    let mut i: usize = 0;
    while i < cfg.len()
        invariant
            i <= cfg.len(),
            m == cfg.deep_view(),
            m.len() == cfg.len(),
            forall|j: int| 0 <= j < i ==> entry_ok(#[trigger] m[j]),
        decreases cfg.len() - i,
    {
        let e = &cfg[i];
        let ok = match (e.key, &e.value) {
            (ConfigKey::Location, ConfigValue::Text(_)) => true,
            (ConfigKey::Format, ConfigValue::Text(_)) => true,
            (ConfigKey::Produces, ConfigValue::Text(_)) => true,
            (ConfigKey::Saturation, ConfigValue::Number(_)) => true,
            _ => false,
        };
        if !ok {
            assert(!entry_ok(m[i as int]));
            return false;
        }
        i = i + 1;
    }
    if matches!(k, StageKind::Source) {
        config_find(cfg, ConfigKey::Location).is_some()
    } else {
        true
    }
}

} // verus!
