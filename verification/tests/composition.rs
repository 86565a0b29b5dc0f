//! The composition plugin and the flow of audio through it.

use evo_device_audio::composition::byte_flow::{
    pipe_step, run_substrate, AudioFormat, ByteFlowError, CompositionEndpoints, Endpoint, EndpointKind, PcmCodec,
    PipeAction, PipeEvent, Substrate, PUMP_BUFFER_BYTES,
};
use evo_device_audio::composition::pcm_flow::{
    alsa_format_for_codec, bytes_per_frame, open_error, opening_plan, pcm_settings, OpenStep, PcmPump, PcmSide,
    PumpAction, PumpEvent, SampleFormat,
};
use evo_device_audio::composition::plugin::{
    AlsaCompositionPlugin, RoutingProbe, SelectModeRequest, MODE_PASSTHROUGH, REQUEST_COMPOSITION_SELECT_MODE,
};
use evo_device_audio::error::PluginError;
use evo_device_audio::request::PluginRequest;

#[test]
fn install_routing_refuses_when_handle_is_none() {
    let mut p = AlsaCompositionPlugin::new();
    let err = p.install_routing(false).expect_err("composition plugin must refuse load without routing");
    match err {
        PluginError::Permanent(msg) => {
            assert!(msg.contains("audio_routing"), "refusal message must name the missing field: {msg:?}");
        }
        other => panic!("expected Permanent error, got {other:?}"),
    }
    assert!(!p.loaded);
    assert!(!p.audio_routing);
}

#[test]
fn install_routing_accepts_handle_and_resets_mode() {
    let mut p = AlsaCompositionPlugin::new();
    p.current_mode = "stale_value".to_string();
    p.install_routing(true).expect("install_routing must accept a Some handle");
    assert!(p.loaded);
    assert_eq!(p.current_mode, MODE_PASSTHROUGH);
    assert!(p.audio_routing);
}

fn loaded_plugin() -> AlsaCompositionPlugin {
    let mut p = AlsaCompositionPlugin::new();
    p.install_routing(true).unwrap();
    p
}

#[test]
fn unload_clears_routing_and_loaded() {
    let mut p = loaded_plugin();
    assert!(p.loaded);
    p.unload();
    assert!(!p.loaded);
    assert!(!p.audio_routing);
}

#[test]
fn health_healthy_when_topology_pending() {
    let p = loaded_plugin();
    assert!(p.health_check(&RoutingProbe::NotConfigured).is_none());
    assert!(p.health_check(&RoutingProbe::Configured).is_none());
    assert!(p.health_check(&RoutingProbe::Failed("gone".to_string())).expect("complaint").contains("gone"));
}

fn req(request_type: &str, payload: &str) -> PluginRequest {
    PluginRequest {
        request_type: request_type.to_string(),
        past_deadline: false,
        payload: payload.as_bytes().to_vec(),
    }
}

fn decode(payload: &str) -> Result<SelectModeRequest, String> {
    let v: serde_json::Value = serde_json::from_str(payload).map_err(|e| e.to_string())?;
    Ok(SelectModeRequest {
        v: v["v"].as_u64().ok_or("missing field `v`")? as u32,
        mode: v["mode"].as_str().ok_or("missing field `mode`")?.to_string(),
    })
}

#[test]
fn select_mode_passthrough_succeeds() {
    let mut p = loaded_plugin();
    let body = r#"{ "v": 1, "mode": "passthrough" }"#;
    let r = p.handle_request(&req(REQUEST_COMPOSITION_SELECT_MODE, body), &decode(body)).unwrap();
    assert_eq!(r.status, "ok");
    assert_eq!(r.active_mode.as_deref(), Some("passthrough"));
    assert_eq!(p.current_mode(), "passthrough");
}

fn refused(body: &str) -> String {
    let mut p = loaded_plugin();
    let r = p.handle_request(&req(REQUEST_COMPOSITION_SELECT_MODE, body), &decode(body)).unwrap();
    assert_eq!(r.status, "bad_request");
    assert_eq!(p.current_mode(), MODE_PASSTHROUGH);
    r.error.unwrap()
}

#[test]
fn select_mode_unknown_mode_refuses() {
    let err = refused(r#"{ "v": 1, "mode": "eq_only" }"#);
    assert!(err.contains("unknown mode"), "got: {err}");
    assert!(err.contains("eq_only"), "got: {err}");
}

#[test]
fn select_mode_empty_mode_refuses() {
    assert!(refused(r#"{ "v": 1, "mode": "  " }"#).contains("must not be empty"));
}

#[test]
fn select_mode_bad_version_refuses() {
    assert!(refused(r#"{ "v": 2, "mode": "passthrough" }"#).contains("unsupported payload version"));
}

#[test]
fn select_mode_bad_json_refuses() {
    assert!(refused("{not-json").contains("invalid JSON payload"));
}

#[test]
fn handle_request_refused_when_not_loaded() {
    let mut p = AlsaCompositionPlugin::new();
    let body = r#"{ "v": 1, "mode": "passthrough" }"#;
    let err = p.handle_request(&req(REQUEST_COMPOSITION_SELECT_MODE, body), &decode(body)).unwrap_err();
    match err {
        PluginError::Permanent(msg) => {
            assert!(msg.contains("not loaded"));
        }
        other => panic!("expected Permanent, got {other:?}"),
    }
}

#[test]
fn refusals_do_not_count() {
    let body = r#"{ "v": 1, "mode": "passthrough" }"#;
    let mut p = AlsaCompositionPlugin::new();
    p.requests_handled = u64::MAX;
    assert!(p.handle_request(&req(REQUEST_COMPOSITION_SELECT_MODE, body), &decode(body)).is_err());
    let mut p = loaded_plugin();
    p.requests_handled = u64::MAX;
    assert!(p.handle_request(&req("composition.other", body), &decode(body)).is_err());
    assert_eq!(p.requests_handled(), u64::MAX);
}

#[test]
fn unknown_request_type_refused() {
    let mut p = loaded_plugin();
    let err = p.handle_request(&req("alsa.pipeline.compose", "{}"), &decode("{}")).unwrap_err();
    match err {
        PluginError::Permanent(msg) => {
            assert!(msg.contains("unknown request type"));
        }
        other => panic!("expected Permanent, got {other:?}"),
    }
}

#[test]
fn modes_and_requests_are_declared() {
    assert_eq!(AlsaCompositionPlugin::declared_modes(), vec![MODE_PASSTHROUGH]);
    assert_eq!(loaded_plugin().request_types(), vec![REQUEST_COMPOSITION_SELECT_MODE]);
}

fn endpoint(kind: EndpointKind, path: &str) -> Endpoint {
    Endpoint {
        kind,
        path: path.to_string(),
        format: AudioFormat::Pcm { codec: PcmCodec::PcmS24Le, rate_hz: 96_000, channels: 2 },
        buffer_frames: 1024,
    }
}

fn ends(input: EndpointKind, output: EndpointKind) -> CompositionEndpoints {
    CompositionEndpoints { input: endpoint(input, "/run/in"), output: endpoint(output, "/run/out") }
}

#[test]
fn like_ends_are_connected() {
    let pipes = ends(EndpointKind::NamedPipe, EndpointKind::NamedPipe);
    assert_eq!(run_substrate(&pipes, false), Ok(Substrate::NamedPipe));
    let cards = ends(EndpointKind::AlsaPcm, EndpointKind::AlsaPcm);
    assert_eq!(run_substrate(&cards, true), Ok(Substrate::AlsaPcm));
    assert_eq!(run_substrate(&cards, false), Err(ByteFlowError::UnsupportedKind(EndpointKind::AlsaPcm)));
    let mixed = ends(EndpointKind::AlsaPcm, EndpointKind::NamedPipe);
    assert_eq!(
        run_substrate(&mixed, true),
        Err(ByteFlowError::MixedSubstrate { input: EndpointKind::AlsaPcm, output: EndpointKind::NamedPipe })
    );
    let jack = ends(EndpointKind::JackPort, EndpointKind::JackPort);
    assert_eq!(run_substrate(&jack, true), Err(ByteFlowError::UnsupportedKind(EndpointKind::JackPort)));
}

#[test]
fn bytes_are_written_as_they_came() {
    let e = ends(EndpointKind::NamedPipe, EndpointKind::NamedPipe);
    assert!(matches!(pipe_step(&e, PipeEvent::Came(17)), PipeAction::Write(17)));
    assert!(matches!(pipe_step(&e, PipeEvent::Went), PipeAction::Read));
    assert!(matches!(pipe_step(&e, PipeEvent::Cancelled), PipeAction::Exit(Ok(()))));
    match pipe_step(&e, PipeEvent::OpenFailed { input: true, error: "gone".to_string() }) {
        PipeAction::Exit(Err(ByteFlowError::OpenFailed(m))) => assert!(m.contains("/run/in") && m.contains("gone")),
        other => panic!("unexpected {other:?}"),
    }
    assert!(matches!(
        pipe_step(&e, PipeEvent::ReadFailed("x".to_string())),
        PipeAction::Exit(Err(ByteFlowError::ReadFailed(_)))
    ));
    assert!(matches!(
        pipe_step(&e, PipeEvent::WriteFailed("x".to_string())),
        PipeAction::Exit(Err(ByteFlowError::WriteFailed(_)))
    ));
    assert_eq!(PUMP_BUFFER_BYTES, 4096);
}

#[test]
fn cards_are_set_up_for_the_format() {
    let s = pcm_settings(&ends(EndpointKind::AlsaPcm, EndpointKind::AlsaPcm)).unwrap();
    assert_eq!((s.format, s.rate_hz, s.channels), (SampleFormat::S24, 96_000, 2));
    assert_eq!(alsa_format_for_codec(PcmCodec::PcmS16Le), SampleFormat::S16);
    assert_eq!(bytes_per_frame(SampleFormat::S16, 2), 4);
    assert_eq!(bytes_per_frame(SampleFormat::Float, 6), 24);
    let mut dsd = ends(EndpointKind::AlsaPcm, EndpointKind::AlsaPcm);
    dsd.input.format = AudioFormat::Dsd;
    assert!(pcm_settings(&dsd).is_err());
    let plan = opening_plan();
    assert_eq!(plan.first(), Some(&OpenStep::Open(PcmSide::Capture)));
    assert!(matches!(open_error(plan[0], &s, "hw:0", "busy"), ByteFlowError::OpenFailed(m) if m.contains("hw:0")));
}

#[test]
fn frames_are_pumped_until_all_are_out() {
    let s = pcm_settings(&ends(EndpointKind::AlsaPcm, EndpointKind::AlsaPcm)).unwrap();
    let mut pump = PcmPump::new(&s);
    let frame = bytes_per_frame(s.format, s.channels);
    assert!(matches!(pump.step(PumpEvent::Round { cancelled: false }), PumpAction::WaitInput));
    assert!(matches!(pump.step(PumpEvent::InputReady(true)), PumpAction::Read));
    assert!(matches!(pump.step(PumpEvent::Read(10)), PumpAction::Write { from: 0, to } if to == 10 * frame));
    assert!(matches!(pump.step(PumpEvent::Wrote(4)), PumpAction::Write { from, to } if from == 4 * frame && to == 10 * frame));
    assert!(matches!(pump.step(PumpEvent::WriteAgain { cancelled: false }), PumpAction::WaitOutput));
    assert!(matches!(pump.step(PumpEvent::OutputReady), PumpAction::Write { .. }));
    assert!(matches!(pump.step(PumpEvent::Wrote(6)), PumpAction::NextRound));
    assert!(matches!(pump.step(PumpEvent::Round { cancelled: true }), PumpAction::Exit(Ok(()))));
    match pump.step(PumpEvent::ReadFailed("xrun".to_string())) {
        PumpAction::Exit(Err(e)) => assert!(e.to_text().contains("xrun")),
        other => panic!("unexpected {other:?}"),
    }
}
