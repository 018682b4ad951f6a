use orchestrator::bus::{dispatch_step, exit_code, BusEvent, Outcome};
use orchestrator::config::{ConfigEntry, ConfigKey, ConfigValue};
use orchestrator::errors::{LinkFailReason, OrchError};
use orchestrator::lifecycle::{lifecycle_step, Command, RunState};
use orchestrator::model::LinkDecision;
use orchestrator::pipeline::Pipeline;

fn text_entry(key: ConfigKey, value: &str) -> ConfigEntry {
    ConfigEntry { key, value: ConfigValue::Text(value.to_string()) }
}

fn location_config(path: &str) -> Vec<ConfigEntry> {
    vec![text_entry(ConfigKey::Location, path)]
}

/// Builds the five-stage graph of the playback topology: source, demuxer,
/// decoder, converter, sink, with the static links source->demuxer,
/// decoder->converter, converter->sink and the demuxer designated to link
/// dynamically to the decoder. Returns the pipeline and the indices of
/// the demuxer and the decoder.
fn build_playback_pipeline() -> (Pipeline, usize, usize) {
    let mut p = Pipeline::new();
    let source = p.create("source", "source", location_config("media.ogg")).unwrap();
    let demuxer = p.create("demuxer", "demuxer", Vec::new()).unwrap();
    let decoder = p.create("decoder", "decoder", Vec::new()).unwrap();
    let converter = p.create("filter", "converter", Vec::new()).unwrap();
    let sink = p.create("sink", "sink", Vec::new()).unwrap();
    p.link(source, demuxer).unwrap();
    p.link(decoder, converter).unwrap();
    p.link(converter, sink).unwrap();
    p.set_dynamic_target(demuxer, decoder).unwrap();
    (p, demuxer, decoder)
}

#[test]
fn new_pipeline_is_empty_and_idle() {
    let p = Pipeline::new();
    assert_eq!(p.stages.len(), 0);
    assert_eq!(p.edges.len(), 0);
    assert_eq!(p.diags.len(), 0);
    assert_eq!(p.state, RunState::Idle);
}

#[test]
fn create_accepts_each_known_kind() {
    let mut p = Pipeline::new();
    assert_eq!(p.create("source", "a", location_config("x")), Ok(0));
    assert_eq!(p.create("demuxer", "b", Vec::new()), Ok(1));
    assert_eq!(p.create("decoder", "c", Vec::new()), Ok(2));
    assert_eq!(p.create("filter", "d", Vec::new()), Ok(3));
    assert_eq!(p.create("sink", "e", Vec::new()), Ok(4));
    assert_eq!(p.stages.len(), 5);
}

#[test]
fn create_rejects_unknown_kind() {
    let mut p = Pipeline::new();
    assert_eq!(p.create("webcam", "cam", Vec::new()), Err(OrchError::UnknownKind));
    assert_eq!(p.stages.len(), 0);
}

#[test]
fn create_rejects_source_without_location() {
    let mut p = Pipeline::new();
    assert_eq!(p.create("source", "src", Vec::new()), Err(OrchError::ConfigRejected));
}

#[test]
fn create_rejects_misshapen_value() {
    let mut p = Pipeline::new();
    let cfg = vec![ConfigEntry {
        key: ConfigKey::Saturation,
        value: ConfigValue::Text("zero".to_string()),
    }];
    assert_eq!(p.create("filter", "balance", cfg), Err(OrchError::ConfigRejected));
}

#[test]
fn create_accepts_numeric_parameter() {
    let mut p = Pipeline::new();
    let cfg = vec![ConfigEntry { key: ConfigKey::Saturation, value: ConfigValue::Number(0) }];
    assert_eq!(p.create("filter", "balance", cfg), Ok(0));
}

#[test]
fn create_rejects_duplicate_name() {
    let mut p = Pipeline::new();
    assert_eq!(p.create("decoder", "dec", Vec::new()), Ok(0));
    assert_eq!(p.create("filter", "dec", Vec::new()), Err(OrchError::ConfigRejected));
    assert_eq!(p.stages.len(), 1);
}

#[test]
fn create_rejected_after_construction_phase() {
    let mut p = Pipeline::new();
    p.create("decoder", "dec", Vec::new()).unwrap();
    p.finalize().unwrap();
    assert_eq!(p.create("sink", "out", Vec::new()), Err(OrchError::InvalidPhase));
}

#[test]
fn link_then_second_link_already_linked() {
    let mut p = Pipeline::new();
    let a = p.create("filter", "conv", Vec::new()).unwrap();
    let b = p.create("sink", "out", Vec::new()).unwrap();
    let e = p.link(a, b).unwrap();
    assert_eq!(e.from, a);
    assert_eq!(e.to, b);
    assert!(!e.dynamic);
    assert_eq!(p.link(a, b), Err(OrchError::AlreadyLinked));
    assert_eq!(p.edges.len(), 1);
}

#[test]
fn link_rejects_portless_stages() {
    let mut p = Pipeline::new();
    let src = p.create("source", "in", location_config("x")).unwrap();
    let sink = p.create("sink", "out", Vec::new()).unwrap();
    assert_eq!(p.link(sink, src), Err(OrchError::IncompatibleInterfaces));
    assert_eq!(p.link(src, src), Err(OrchError::IncompatibleInterfaces));
}

#[test]
fn link_rejects_backward_order() {
    let mut p = Pipeline::new();
    let a = p.create("filter", "first", Vec::new()).unwrap();
    let b = p.create("filter", "second", Vec::new()).unwrap();
    assert_eq!(p.link(b, a), Err(OrchError::IncompatibleInterfaces));
    assert!(p.link(a, b).is_ok());
    assert_eq!(p.edges.len(), 1);
}

#[test]
fn dynamic_target_rejects_backward_order() {
    let mut p = Pipeline::new();
    let a = p.create("filter", "first", Vec::new()).unwrap();
    let b = p.create("filter", "second", Vec::new()).unwrap();
    assert_eq!(p.set_dynamic_target(b, a), Err(OrchError::IncompatibleInterfaces));
    assert_eq!(p.set_dynamic_target(a, b), Ok(()));
}

#[test]
fn link_rejects_conflicting_declared_capabilities() {
    let mut p = Pipeline::new();
    let a = p
        .create("decoder", "dec", vec![text_entry(ConfigKey::Produces, "video/x-raw")])
        .unwrap();
    let b = p
        .create("sink", "out", vec![text_entry(ConfigKey::Format, "audio/x-raw")])
        .unwrap();
    assert_eq!(p.link(a, b), Err(OrchError::IncompatibleInterfaces));
}

#[test]
fn link_accepts_matching_declared_capabilities() {
    let mut p = Pipeline::new();
    let a = p
        .create("decoder", "dec", vec![text_entry(ConfigKey::Produces, "audio/x-raw")])
        .unwrap();
    let b = p
        .create("sink", "out", vec![text_entry(ConfigKey::Format, "audio/x-raw")])
        .unwrap();
    assert!(p.link(a, b).is_ok());
}

#[test]
fn link_rejected_after_construction_phase() {
    let mut p = Pipeline::new();
    let a = p.create("filter", "conv", Vec::new()).unwrap();
    let b = p.create("sink", "out", Vec::new()).unwrap();
    p.finalize().unwrap();
    assert_eq!(p.link(a, b), Err(OrchError::InvalidPhase));
}

#[test]
fn dynamic_target_rejects_self_and_portless() {
    let mut p = Pipeline::new();
    let src = p.create("source", "in", location_config("x")).unwrap();
    let dec = p.create("decoder", "dec", Vec::new()).unwrap();
    assert_eq!(p.set_dynamic_target(dec, dec), Err(OrchError::IncompatibleInterfaces));
    assert_eq!(p.set_dynamic_target(dec, src), Err(OrchError::IncompatibleInterfaces));
    assert_eq!(p.set_dynamic_target(dec, 0), Err(OrchError::IncompatibleInterfaces));
    let sink = p.create("sink", "out", Vec::new()).unwrap();
    assert_eq!(p.set_dynamic_target(sink, dec), Err(OrchError::IncompatibleInterfaces));
    assert_eq!(p.set_dynamic_target(dec, sink), Ok(()));
}

#[test]
fn scenario_discovery_completes_single_dynamic_edge() {
    let (mut p, demuxer, decoder) = build_playback_pipeline();
    p.finalize().unwrap();
    p.start(true).unwrap();
    assert_eq!(p.state, RunState::Playing);
    let before = p.edges.len();
    let d = p.on_port_discovered(demuxer, Some("audio/x-vorbis".to_string()));
    assert_eq!(d, LinkDecision::Linked);
    assert_eq!(p.edges.len(), before + 1);
    let e = p.edges[p.edges.len() - 1];
    assert_eq!(e.from, demuxer);
    assert_eq!(e.to, decoder);
    assert!(e.dynamic);
    let into_decoder = p.edges.iter().filter(|e| e.to == decoder).count();
    assert_eq!(into_decoder, 1);
    assert_eq!(p.diags.len(), 0);
}

#[test]
fn discovery_twice_yields_one_edge() {
    let (mut p, demuxer, decoder) = build_playback_pipeline();
    p.finalize().unwrap();
    p.start(true).unwrap();
    let caps = Some("audio/x-vorbis".to_string());
    assert_eq!(p.on_port_discovered(demuxer, caps.clone()), LinkDecision::Linked);
    assert_eq!(p.on_port_discovered(demuxer, caps), LinkDecision::AlreadyComplete);
    let into_decoder = p.edges.iter().filter(|e| e.to == decoder).count();
    assert_eq!(into_decoder, 1);
    assert_eq!(p.diags.len(), 0);
}

#[test]
fn discovery_without_capability_defers_silently() {
    let (mut p, demuxer, _) = build_playback_pipeline();
    p.finalize().unwrap();
    p.start(true).unwrap();
    let before = p.edges.len();
    assert_eq!(p.on_port_discovered(demuxer, None), LinkDecision::AwaitCaps);
    assert_eq!(p.edges.len(), before);
    assert_eq!(p.diags.len(), 0);
    assert_eq!(p.state, RunState::Playing);
}

#[test]
fn discovery_with_conflicting_capability_records_diagnostic() {
    let mut p = Pipeline::new();
    let demuxer = p.create("demuxer", "demux", Vec::new()).unwrap();
    let decoder = p
        .create("decoder", "dec", vec![text_entry(ConfigKey::Format, "audio/x-vorbis")])
        .unwrap();
    p.set_dynamic_target(demuxer, decoder).unwrap();
    p.finalize().unwrap();
    p.start(true).unwrap();
    let d = p.on_port_discovered(demuxer, Some("video/x-h264".to_string()));
    assert_eq!(d, LinkDecision::Refused);
    assert_eq!(p.edges.len(), 0);
    assert_eq!(p.diags.len(), 1);
    assert_eq!(p.diags[0].stage, demuxer);
    assert_eq!(p.diags[0].reason, LinkFailReason::Incompatible);
    assert_eq!(p.state, RunState::Playing);
}

#[test]
fn discovery_without_target_records_diagnostic() {
    let mut p = Pipeline::new();
    let demuxer = p.create("demuxer", "demux", Vec::new()).unwrap();
    p.finalize().unwrap();
    p.start(true).unwrap();
    let d = p.on_port_discovered(demuxer, Some("audio/x-vorbis".to_string()));
    assert_eq!(d, LinkDecision::Unrouted);
    assert_eq!(p.edges.len(), 0);
    assert_eq!(p.diags.len(), 1);
    assert_eq!(p.diags[0].reason, LinkFailReason::NoDesignatedTarget);
}

#[test]
fn engine_confirmation_keeps_dynamic_edge() {
    let (mut p, demuxer, decoder) = build_playback_pipeline();
    p.finalize().unwrap();
    p.start(true).unwrap();
    assert_eq!(
        p.on_port_discovered(demuxer, Some("audio/x-vorbis".to_string())),
        LinkDecision::Linked
    );
    let edges_after_link = p.edges.len();
    p.confirm_dynamic_link(demuxer, true);
    assert_eq!(p.edges.len(), edges_after_link);
    assert_eq!(p.diags.len(), 0);
    assert_eq!(
        p.on_port_discovered(demuxer, Some("audio/x-vorbis".to_string())),
        LinkDecision::AlreadyComplete
    );
    assert_eq!(p.edges.iter().filter(|e| e.to == decoder).count(), 1);
}

#[test]
fn engine_refusal_withdraws_edge_and_allows_retry() {
    let (mut p, demuxer, decoder) = build_playback_pipeline();
    p.finalize().unwrap();
    p.start(true).unwrap();
    let before = p.edges.len();
    assert_eq!(
        p.on_port_discovered(demuxer, Some("audio/x-vorbis".to_string())),
        LinkDecision::Linked
    );
    p.confirm_dynamic_link(demuxer, false);
    assert_eq!(p.edges.len(), before);
    assert_eq!(p.edges.iter().filter(|e| e.to == decoder).count(), 0);
    assert_eq!(p.diags.len(), 1);
    assert_eq!(p.diags[0].stage, demuxer);
    assert_eq!(p.diags[0].reason, LinkFailReason::EngineRefused);
    assert_eq!(p.state, RunState::Playing);
    // Both ports are free again, so a re-announcement retries the link.
    assert_eq!(
        p.on_port_discovered(demuxer, Some("audio/x-vorbis".to_string())),
        LinkDecision::Linked
    );
    p.confirm_dynamic_link(demuxer, true);
    assert_eq!(p.edges.iter().filter(|e| e.to == decoder).count(), 1);
    assert_eq!(p.diags.len(), 1);
}

#[test]
fn discovery_matches_unconstrained_input() {
    let (mut p, demuxer, _) = build_playback_pipeline();
    let d = p.on_port_discovered(demuxer, Some("anything/at-all".to_string()));
    assert_eq!(d, LinkDecision::Linked);
}

#[test]
fn lifecycle_table_is_total() {
    let states = [
        RunState::Idle,
        RunState::Ready,
        RunState::Paused,
        RunState::Playing,
        RunState::Stopped,
        RunState::Failed,
    ];
    let commands = [Command::Finalize, Command::Start, Command::Stop];
    for s in states {
        for c in commands {
            let expected = match (s, c) {
                (RunState::Idle, Command::Finalize) => Ok(RunState::Ready),
                (RunState::Ready, Command::Start) => Ok(RunState::Playing),
                (RunState::Playing, Command::Stop) => Ok(RunState::Stopped),
                (RunState::Paused, Command::Stop) => Ok(RunState::Stopped),
                (RunState::Stopped, Command::Stop) => Ok(RunState::Stopped),
                (RunState::Failed, Command::Stop) => Ok(RunState::Failed),
                _ => Err(OrchError::InvalidTransition),
            };
            assert_eq!(lifecycle_step(s, c), expected);
        }
    }
}

#[test]
fn start_requires_ready_state() {
    let mut p = Pipeline::new();
    p.create("decoder", "dec", Vec::new()).unwrap();
    assert_eq!(p.start(true), Err(OrchError::InvalidTransition));
    p.finalize().unwrap();
    assert_eq!(p.finalize(), Err(OrchError::InvalidTransition));
    assert_eq!(p.start(true), Ok(()));
    assert_eq!(p.state, RunState::Playing);
}

#[test]
fn rejected_start_leaves_pipeline_ready() {
    let mut p = Pipeline::new();
    p.create("decoder", "dec", Vec::new()).unwrap();
    p.finalize().unwrap();
    assert_eq!(p.start(false), Err(OrchError::EngineRejected));
    assert_eq!(p.state, RunState::Ready);
    assert_eq!(p.start(true), Ok(()));
    assert_eq!(p.state, RunState::Playing);
}

#[test]
fn stop_twice_from_playing_is_idempotent() {
    let mut p = Pipeline::new();
    p.create("decoder", "dec", Vec::new()).unwrap();
    p.finalize().unwrap();
    p.start(true).unwrap();
    assert_eq!(p.stop(), Ok(()));
    assert_eq!(p.state, RunState::Stopped);
    assert_eq!(p.stop(), Ok(()));
    assert_eq!(p.state, RunState::Stopped);
}

#[test]
fn stop_before_running_is_invalid() {
    let mut p = Pipeline::new();
    assert_eq!(p.stop(), Err(OrchError::InvalidTransition));
    p.finalize().unwrap();
    assert_eq!(p.stop(), Err(OrchError::InvalidTransition));
}

#[test]
fn scenario_end_of_stream_stops_with_zero_exit() {
    let mut p = Pipeline::new();
    let src = p.create("source", "in", location_config("media.ogg")).unwrap();
    let sink = p.create("sink", "out", Vec::new()).unwrap();
    p.link(src, sink).unwrap();
    p.finalize().unwrap();
    p.start(true).unwrap();
    let outcome = p.dispatch(&BusEvent::EndOfStream);
    assert_eq!(outcome, Outcome::Finished);
    assert_eq!(p.state, RunState::Stopped);
    assert_eq!(p.stop(), Ok(()));
    assert_eq!(exit_code(&outcome), 0);
}

#[test]
fn scenario_fatal_error_fails_with_nonzero_exit() {
    let mut p = Pipeline::new();
    let src = p.create("source", "in", location_config("media.ogg")).unwrap();
    let sink = p.create("sink", "out", Vec::new()).unwrap();
    p.link(src, sink).unwrap();
    p.finalize().unwrap();
    p.start(true).unwrap();
    let outcome = p.dispatch(&BusEvent::Error("decode failure".to_string()));
    assert_eq!(outcome, Outcome::Fatal("decode failure".to_string()));
    assert_eq!(p.state, RunState::Failed);
    assert_eq!(p.stop(), Ok(()));
    assert_eq!(p.state, RunState::Failed);
    assert_ne!(exit_code(&outcome), 0);
}

#[test]
fn other_events_change_nothing() {
    let mut p = Pipeline::new();
    p.create("decoder", "dec", Vec::new()).unwrap();
    p.finalize().unwrap();
    p.start(true).unwrap();
    assert_eq!(p.dispatch(&BusEvent::Other), Outcome::Proceed);
    assert_eq!(p.state, RunState::Playing);
}

#[test]
fn events_after_terminal_state_are_drained() {
    let mut p = Pipeline::new();
    p.create("decoder", "dec", Vec::new()).unwrap();
    p.finalize().unwrap();
    p.start(true).unwrap();
    assert_eq!(p.dispatch(&BusEvent::EndOfStream), Outcome::Finished);
    assert_eq!(p.dispatch(&BusEvent::Error("late".to_string())), Outcome::Proceed);
    assert_eq!(p.state, RunState::Stopped);
    assert_eq!(p.dispatch(&BusEvent::EndOfStream), Outcome::Proceed);
    assert_eq!(p.state, RunState::Stopped);
}

#[test]
fn end_of_stream_before_running_changes_nothing() {
    let mut p = Pipeline::new();
    p.finalize().unwrap();
    assert_eq!(p.dispatch(&BusEvent::EndOfStream), Outcome::Proceed);
    assert_eq!(p.state, RunState::Ready);
}

#[test]
fn dispatch_step_is_pure_and_total() {
    assert_eq!(
        dispatch_step(RunState::Paused, &BusEvent::EndOfStream),
        (RunState::Stopped, Outcome::Finished)
    );
    assert_eq!(
        dispatch_step(RunState::Idle, &BusEvent::Error("boom".to_string())),
        (RunState::Failed, Outcome::Fatal("boom".to_string()))
    );
    assert_eq!(
        dispatch_step(RunState::Failed, &BusEvent::Error("again".to_string())),
        (RunState::Failed, Outcome::Proceed)
    );
    assert_eq!(
        dispatch_step(RunState::Stopped, &BusEvent::Other),
        (RunState::Stopped, Outcome::Proceed)
    );
}

#[test]
fn exit_codes_reflect_outcomes() {
    assert_eq!(exit_code(&Outcome::Finished), 0);
    assert_eq!(exit_code(&Outcome::Proceed), 0);
    assert_eq!(exit_code(&Outcome::Fatal("x".to_string())), 1);
}
