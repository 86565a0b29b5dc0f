//! The multiroom plugin: its settings, its roles, and what it sends and plays.

use evo_device_audio::error::PluginError;
use evo_device_audio::multiroom::capture::{
    capture_step, frame_seed, CaptureAction, CaptureChunk, CaptureEvent, CaptureQueue, SourceCapture,
    CAPTURE_QUEUE_CHUNKS, EAGAIN,
};
use evo_device_audio::multiroom::config::{ConfigSeed, PluginConfig, Role, DEFAULT_LEADER_MS};
use evo_device_audio::multiroom::device_card::{MultiroomDeviceCardEnvelope, StateBadge, TransportState};
use evo_device_audio::multiroom::engagement::{
    engage_role, handle_group_event, handle_role_event, Group, GroupChange, RoleChange, RoleEngagement, RoleSetup,
    RoleTarget, Step, SubstrateReading,
};
use evo_device_audio::multiroom::plugin::{
    LoadContext, MultiroomEvoNativePlugin, MultiroomResponse, REQUEST_FRAME_TRACE, REQUEST_GET_STATUS,
    REQUEST_SET_LEADER_MS,
};
use evo_device_audio::multiroom::receiver::{
    frame_report, AudioFrame, Receiver, ReceiverAction, ReceiverCounters, ReceiverEvent,
};
use evo_device_audio::multiroom::render::{
    after_retry, after_write, payload_samples, playback_setup, setup_error, PcmStep, WriteOutcome, WriteStep,
};
use evo_device_audio::multiroom::samples::{decode_samples, encode_samples, silence, BYTES_PER_CHUNK};
use evo_device_audio::multiroom::trace::{FrameTraceRecord, SourceTracePartial, TraceState, TRACE_WINDOW};

#[test]
fn initial_envelope_carries_supplied_identity() {
    let env = MultiroomDeviceCardEnvelope::initial_for_local_device(
        "device-uuid-1".to_string(),
        "Living Room".to_string(),
        StateBadge::Solo,
    );
    assert_eq!(env.device_or_group_id, "device-uuid-1");
    assert_eq!(env.display_name, "Living Room");
    assert_eq!(env.state_badge, StateBadge::Solo);
    assert_eq!(env.transport_state, TransportState::Idle);
    assert!(env.current_track.is_none());
    assert!(env.master_group_context.is_none());
}

#[test]
fn the_first_card_is_of_the_present() {
    let before = std::time::SystemTime::now();
    let env = MultiroomDeviceCardEnvelope::initial_for_local_device("d".to_string(), "n".to_string(), StateBadge::Solo);
    assert!(env.last_update_at >= before);
}

#[test]
fn transport_state_default_is_idle() {
    assert_eq!(TransportState::default(), TransportState::Idle);
}

#[test]
fn plugin_construction_is_unloaded() {
    let p = MultiroomEvoNativePlugin::new();
    assert!(!p.loaded);
    assert_eq!(p.frames_received(), 0);
    assert_eq!(p.frames_sent(), 0);
}

#[test]
fn default_role_is_auto() {
    let cfg = PluginConfig::default();
    assert_eq!(cfg.role, Role::Auto);
}

fn texts(v: Option<&toml::Value>) -> Option<Vec<String>> {
    let items = v?.as_array()?;
    items.iter().map(|i| i.as_str().map(|s| s.to_string())).collect()
}

fn seed(raw: &str) -> Result<ConfigSeed, String> {
    let t: toml::Table = toml::from_str(raw).unwrap();
    let text = |key: &str| t.get(key).and_then(|v| v.as_str()).map(|s| s.to_string());
    let role = match text("role") {
        None => None,
        Some(name) => Some(Role::from_wire_str(&name).ok_or("unknown variant")?),
    };
    Ok(ConfigSeed {
        role,
        group_id: text("group_id"),
        group_members: texts(t.get("group_members")),
        group_member_addresses: texts(t.get("group_member_addresses")),
        alsa_pcm: text("alsa_pcm"),
        source_pcm: text("source_pcm"),
        leader_ms: t.get("leader_ms").and_then(|v| v.as_integer()).map(|n| n as u64),
    })
}

#[test]
fn parse_source_config() {
    let toml_str = r#"
role = "source"
group_id = "abc-123"
group_members = ["device-a", "device-b"]
group_member_addresses = ["10.0.0.2:7331", "10.0.0.3:7331"]
"#;
    let mut p = MultiroomEvoNativePlugin::new();
    p.apply_config(seed(toml_str)).unwrap();
    assert_eq!(p.config.role, Role::Source);
    assert_eq!(p.config.group_id.as_deref(), Some("abc-123"));
    assert_eq!(p.config.group_members, vec!["device-a".to_string(), "device-b".to_string()],);
    assert_eq!(p.config.group_member_addresses, vec!["10.0.0.2:7331".to_string(), "10.0.0.3:7331".to_string()],);
}

#[test]
fn parse_source_without_group_fields_accepts() {
    let toml_str = r#"role = "source""#;
    let mut p = MultiroomEvoNativePlugin::new();
    p.apply_config(seed(toml_str)).expect("source-role TOML without group fields admits");
    assert_eq!(p.config.role, Role::Source);
    assert!(p.config.group_id.is_none());
    assert!(p.config.group_members.is_empty());
    assert!(p.config.group_member_addresses.is_empty());
}

#[test]
fn parse_source_with_partial_group_fields_accepts() {
    let toml_str = r#"
role = "source"
group_id = "abc-123"
"#;
    let mut p = MultiroomEvoNativePlugin::new();
    p.apply_config(seed(toml_str)).expect("partial source TOML admits under substrate-canonical");
    assert_eq!(p.config.role, Role::Source);
    assert_eq!(p.config.group_id.as_deref(), Some("abc-123"));
    assert!(p.config.group_members.is_empty());
}

#[test]
fn parse_receiver_config() {
    let toml_str = r#"
role = "receiver"
alsa_pcm = "evo"
"#;
    let mut p = MultiroomEvoNativePlugin::new();
    p.apply_config(seed(toml_str)).unwrap();
    assert_eq!(p.config.role, Role::Receiver);
    assert_eq!(p.config.alsa_pcm, "evo");
}

#[test]
fn settings_that_cannot_be_read_are_refused() {
    let mut p = MultiroomEvoNativePlugin::new();
    assert!(matches!(p.apply_config(seed("role = \"conductor\"")), Err(PluginError::Permanent(_))));
    assert_eq!(p.config.role, Role::Auto);
}

fn context(raw: &str, device: Option<&str>, substrate: Option<SubstrateReading>) -> LoadContext {
    LoadContext {
        config: seed(raw),
        local_device_id: device.map(|d| d.to_string()),
        substrate,
        has_alsa: true,
    }
}

fn loaded_plugin() -> MultiroomEvoNativePlugin {
    let mut p = MultiroomEvoNativePlugin::new();
    p.load(context("", Some("device-a"), None)).expect("load");
    p
}

#[test]
fn loading_announces_the_device() {
    let mut p = MultiroomEvoNativePlugin::new();
    let plan = p.load(context("role = \"receiver\"\nalsa_pcm = \"evo\"", Some("device-a"), None)).expect("load");
    assert!(p.loaded);
    assert!(!plan.subscribe);
    assert!(plan.steps.iter().any(|s| matches!(s, Step::StartReceiver { pcm, .. } if pcm == "evo")));
    let card = plan.announcement.expect("announcement");
    assert_eq!(card.value, "device-a");
    assert_eq!(card.card.device_or_group_id, "device-a");
    assert_eq!(card.card.state_badge, StateBadge::MemberOfGroup);
    assert!(p.unload().iter().any(|s| matches!(s, Step::JoinReceiver)));
    assert!(!p.loaded);
}

#[test]
fn loading_needs_the_audio_plane() {
    let mut p = MultiroomEvoNativePlugin::new();
    assert!(matches!(p.load(context("", None, None)), Err(PluginError::Permanent(_))));
    assert!(!p.loaded);
}

#[test]
fn the_lead_is_kept_within_its_bounds() {
    let mut p = loaded_plugin();
    assert_eq!(p.leader_ms(), DEFAULT_LEADER_MS);
    let mut ask = |payload: &str| p.handle_request(REQUEST_SET_LEADER_MS, &payload.as_bytes().to_vec(), 0);
    assert!(matches!(ask(r#"{"value": 500}"#), Ok(MultiroomResponse::LeaderMs { leader_ms: 500, .. })));
    assert!(matches!(ask(r#"{"value": 20}"#), Ok(MultiroomResponse::LeaderMs { leader_ms: 20, .. })));
    assert!(matches!(ask(r#"{"value": 2000}"#), Ok(MultiroomResponse::LeaderMs { leader_ms: 2000, .. })));
    for bad in [r#"{"value": 19}"#, r#"{"value": 2001}"#] {
        assert!(matches!(ask(bad), Err(PluginError::Permanent(m)) if m.contains("out of range")));
    }
    for bad in ["{}", r#"{"value": "500"}"#, r#"{"value": -5}"#, r#"{"val": 500}"#] {
        assert!(matches!(ask(bad), Err(PluginError::Permanent(m)) if m.contains("integer 'value'")));
    }
    assert!(matches!(ask("{not json"), Err(PluginError::Permanent(m)) if m.contains("payload not JSON")));
    assert_eq!(p.leader_ms(), 2000);
}

#[test]
fn the_status_says_what_the_plugin_does() {
    let mut p = loaded_plugin();
    match p.handle_request(REQUEST_GET_STATUS, &vec![], 0) {
        Ok(MultiroomResponse::Status(s)) => {
            assert_eq!(s.role, Role::Auto);
            assert_eq!((s.leader_ms_min, s.leader_ms_max), (20, 2000));
        }
        other => panic!("unexpected {other:?}"),
    }
    match p.handle_request(REQUEST_FRAME_TRACE, &vec![], 77) {
        Ok(MultiroomResponse::FrameTrace(t)) => {
            assert!(t.records.is_empty());
            assert_eq!(t.last_update_at_ms, 77);
        }
        other => panic!("unexpected {other:?}"),
    }
    match p.handle_request("multiroom.dance", &vec![], 0) {
        Err(PluginError::Permanent(m)) => assert!(m.contains("\"multiroom.dance\"")),
        other => panic!("unexpected {other:?}"),
    }
    let mut unloaded = MultiroomEvoNativePlugin::new();
    assert!(unloaded.handle_request(REQUEST_GET_STATUS, &vec![], 0).is_err());
}

fn setup(source_pcm: &str) -> RoleSetup {
    RoleSetup { alsa_pcm: "evo".to_string(), source_pcm: source_pcm.to_string(), has_alsa: true }
}

fn group(id: &str, members: &[&str]) -> Group {
    Group { group_id: id.to_string(), members: members.iter().map(|m| m.to_string()).collect() }
}

#[test]
fn roles_follow_the_framework() {
    let mut state = RoleEngagement::idle();
    let groups = Some(vec![group("g1", &["device-a", "device-b"])]);
    let evt = RoleChange::Assigned { device_id: "device-a".to_string(), new_role: Role::Source };
    let steps = handle_role_event(&mut state, &setup("hw:0"), "device-a", &evt, &groups);
    assert_eq!(state.role, Role::Source);
    assert_eq!(state.group_id.as_deref(), Some("g1"));
    assert!(steps.iter().any(|s| matches!(s, Step::StartCapture { group_id, pcm } if group_id == "g1" && pcm == "hw:0")));
    assert!(state.source_running);

    // The events of other devices do not count.
    let other = RoleChange::Assigned { device_id: "device-z".to_string(), new_role: Role::Auto };
    assert!(handle_role_event(&mut state, &setup("hw:0"), "device-a", &other, &groups).is_empty());
    assert_eq!(state.role, Role::Source);

    // Once the group is gone, so is the source.
    let reading = SubstrateReading { role: Some(Role::Source), groups: Some(vec![]) };
    let steps =
        handle_group_event(&mut state, &setup("hw:0"), "device-a", &GroupChange::Deleted("g1".to_string()), &reading);
    assert!(steps.iter().any(|s| matches!(s, Step::JoinSource)));
    assert!(!state.source_running);
}

#[test]
fn without_a_card_to_capture_a_tone_is_played() {
    let mut state = RoleEngagement::idle();
    let target =
        RoleTarget { role: Role::Source, group_id: Some("g".to_string()), members: vec![], member_addresses: vec![] };
    let steps = engage_role(&mut state, &setup(""), &target);
    assert!(steps.iter().any(|s| matches!(s, Step::StartTone { .. })));
    assert!(state.trace.is_none());
    // What is engaged already is left alone.
    assert!(engage_role(&mut state, &setup(""), &target).is_empty());
    assert!(!state.disengage().is_empty());
}

#[test]
fn samples_are_little_endian() {
    assert_eq!(encode_samples(&[1, -2, 256], 3), vec![1, 0, 0xFE, 0xFF, 0, 1]);
    assert_eq!(encode_samples(&[1, -2, 256], 1), vec![1, 0]);
    assert_eq!(decode_samples(&vec![1, 0, 0xFE, 0xFF, 0, 1]), vec![1, -2, 256]);
    assert_eq!(silence(), vec![0; BYTES_PER_CHUNK]);
    assert_eq!(payload_samples(&vec![0, 1, 0xFF, 0xFF]).unwrap(), vec![256, -1]);
    assert!(payload_samples(&vec![0, 1]).is_err());
}

fn chunk(n: u8) -> CaptureChunk {
    CaptureChunk { capture_readi_return_ns: n as u64, mpsc_send_ns: 0, pcm: vec![n] }
}

#[test]
fn a_full_queue_drops_its_oldest_chunk() {
    let mut q = CaptureQueue::new();
    for n in 0..(CAPTURE_QUEUE_CHUNKS as u8 + 2) {
        q.push(chunk(n));
    }
    assert_eq!(q.pop().map(|c| c.pcm), Some(vec![2]));
    assert_eq!(q.pop().map(|c| c.pcm), Some(vec![3]));
}

#[test]
fn captured_frames_are_queued() {
    match capture_step(CaptureEvent::Read(1), &[1, -1]) {
        CaptureAction::Queue(pcm) => assert_eq!(pcm, vec![1, 0, 0xFF, 0xFF]),
        other => panic!("unexpected {other:?}"),
    }
    assert!(matches!(capture_step(CaptureEvent::Closed, &[]), CaptureAction::Stop));
    assert!(matches!(capture_step(CaptureEvent::TimedOut, &[]), CaptureAction::Wait));
    assert!(matches!(capture_step(CaptureEvent::ReadFailed(EAGAIN), &[]), CaptureAction::Wait));
    assert!(matches!(capture_step(CaptureEvent::ReadFailed(32), &[]), CaptureAction::Recover));
}

#[test]
fn frames_go_out_encoded() {
    let f = frame_seed(7, 140, &vec![1, 2, 3, 4]);
    assert_eq!((f.sequence, f.presentation_time_ms), (7, 140));
    assert_eq!((f.rate_hz, f.channels), (48_000, 2));
    assert_eq!(f.payload_b64, "AQIDBA==");
}

#[test]
fn a_sending_and_a_report_make_one_record() {
    let mut source = SourceCapture::new();
    let mut trace = Some(TraceState::new(TRACE_WINDOW));
    let partial = SourceTracePartial {
        presentation_time_ms: 20,
        capture_readi_return_ns: 1,
        mpsc_send_ns: 2,
        mpsc_recv_ns: 3,
        fanout_enter_ns: 4,
    };
    let sequence = source.next_frame(20, &vec![]).sequence;
    source.note_fan_out(partial, true);
    source.note_frame_send(sequence, "device-b", 5, &mut trace);
    assert!(trace.as_ref().unwrap().snapshot().is_empty());
    source.note_trace_report(sequence, "device-b", 6, 7, 8, &mut trace);
    let records = trace.as_ref().unwrap().snapshot();
    assert_eq!(records.len(), 1);
    assert_eq!(records[0].sequence, sequence);
    assert_eq!(records[0].receiver_device_id, "device-b");
    assert_eq!(records[0].source_wire_send_ns, 5);
    assert_eq!(records[0].receiver_writei_return_ns, 8);
    assert_eq!(source.next_frame(40, &vec![]).sequence, sequence + 1);
}

fn frame(sequence: u64, pts: u64) -> AudioFrame {
    AudioFrame {
        from_device_id: "device-a".to_string(),
        group_id: "g".to_string(),
        sequence,
        presentation_time_ms: pts,
        wire_recv_ns: 9,
        payload: vec![],
    }
}

fn sequences(a: ReceiverAction) -> Vec<u64> {
    match a {
        ReceiverAction::Render(frames) => frames.iter().map(|f| f.sequence).collect(),
        other => panic!("unexpected {other:?}"),
    }
}

#[test]
fn frames_are_played_when_they_are_due() {
    let ms: u64 = 1_000_000;
    let mut counters = ReceiverCounters { frames_received: 0, underruns: 0, queue_depth: 0 };
    let mut r = Receiver::new();
    assert!(matches!(r.step(ReceiverEvent::Frame(frame(0, 1000)), 200, 0, &mut counters), ReceiverAction::Continue));
    r.step(ReceiverEvent::Frame(frame(1, 1020)), 200, 20 * ms, &mut counters);
    assert_eq!(counters.frames_received, 2);
    assert_eq!(counters.queue_depth, 2);
    assert!(sequences(r.step(ReceiverEvent::Tick, 200, 199 * ms, &mut counters)).is_empty());
    assert_eq!(sequences(r.step(ReceiverEvent::Tick, 200, 200 * ms, &mut counters)), vec![0]);
    assert_eq!(sequences(r.step(ReceiverEvent::Tick, 200, 220 * ms, &mut counters)), vec![1]);
    assert_eq!(counters.queue_depth, 0);
    assert!(r.wants_silence(0, 0));
    assert!(!r.wants_silence(1, 0));
    assert!(matches!(r.step(ReceiverEvent::Shutdown, 200, 0, &mut counters), ReceiverAction::Exit));
    let report = frame_report(&frame(3, 0), 10, 11);
    assert_eq!((report.sequence, report.wire_recv_ns, report.writei_return_ns), (3, 9, 11));
}

#[test]
fn writes_are_tried_twice() {
    let failed = WriteOutcome::Failed("xrun".to_string());
    assert!(matches!(after_write(960, &WriteOutcome::Frames(960)), WriteStep::Done));
    assert!(matches!(after_write(960, &failed), WriteStep::Retry));
    assert!(matches!(after_retry(960, &failed), WriteStep::Failed(m) if m.contains("xrun")));
    assert!(matches!(after_retry(960, &WriteOutcome::Frames(960)), WriteStep::Done));
    assert_eq!(playback_setup().first(), Some(&PcmStep::OpenPlayback));
    assert!(setup_error(PcmStep::OpenPlayback, "evo", "busy").contains("busy"));
}

#[test]
fn role_names_are_read_back() {
    for role in [Role::Source, Role::Receiver, Role::Auto] {
        assert_eq!(Role::from_wire_str(role.as_wire_str()), Some(role));
    }
    assert_eq!(Role::from_wire_str("Source"), None);
}

fn record(sequence: u64) -> FrameTraceRecord {
    FrameTraceRecord {
        sequence,
        receiver_device_id: "device-b".to_string(),
        presentation_time_ms: 0,
        source_capture_readi_return_ns: 0,
        source_mpsc_send_ns: 0,
        source_mpsc_recv_ns: 0,
        source_fanout_enter_ns: 0,
        source_wire_send_ns: 0,
        receiver_wire_recv_ns: 0,
        receiver_scheduler_dequeue_ns: 0,
        receiver_writei_return_ns: 0,
        clock_offset_ns: 0,
    }
}

#[test]
fn a_trace_keeps_its_latest_records() {
    let mut trace = TraceState::new(3);
    for n in 0..5 {
        trace.push(record(n));
    }
    let kept: Vec<u64> = trace.snapshot().iter().map(|r| r.sequence).collect();
    assert_eq!(kept, vec![2, 3, 4]);
}

#[test]
fn tasks_end_before_others_begin() {
    let mut state = RoleEngagement::idle();
    let source = RoleTarget {
        role: Role::Source,
        group_id: Some("g".to_string()),
        members: vec!["device-b".to_string()],
        member_addresses: vec!["10.0.0.2:7331".to_string()],
    };
    let steps = engage_role(&mut state, &setup("hw:0"), &source);
    assert!(steps.iter().any(|s| matches!(s, Step::UpsertGroup { members, .. } if members == &["device-b"])));
    assert!(steps.iter().any(|s| matches!(s, Step::DialPeer { address } if address == "10.0.0.2:7331")));
    assert!(state.trace.is_some());
    let receiver = RoleTarget { role: Role::Receiver, group_id: None, members: vec![], member_addresses: vec![] };
    let steps = engage_role(&mut state, &setup("hw:0"), &receiver);
    let ended = steps.iter().rposition(|s| matches!(s, Step::JoinSource | Step::JoinReceiver)).expect("ended");
    let started = steps.iter().position(|s| matches!(s, Step::StartReceiver { .. })).expect("started");
    assert!(ended < started);
    assert!(state.trace.is_none());
    let auto = RoleTarget { role: Role::Auto, group_id: None, members: vec![], member_addresses: vec![] };
    let steps = engage_role(&mut state, &setup("hw:0"), &auto);
    assert!(!steps.iter().any(|s| matches!(s, Step::StartReceiver { .. } | Step::StartTone { .. })));
    assert!(!state.source_running && !state.receiver_running);
}

#[test]
fn the_framework_is_heard_before_the_settings() {
    let mut p = MultiroomEvoNativePlugin::new();
    let reading = SubstrateReading { role: Some(Role::Source), groups: Some(vec![group("g9", &["device-a"])]) };
    let toml_str = "role = \"receiver\"\ngroup_id = \"abc-123\"";
    let plan = p.load(context(toml_str, Some("device-a"), Some(reading))).expect("load");
    assert!(plan.subscribe);
    assert_eq!(p.role_engagement.role, Role::Source);
    assert_eq!(p.role_engagement.group_id.as_deref(), Some("g9"));

    // Where the framework knows nothing of the device, the settings count.
    let mut p = MultiroomEvoNativePlugin::new();
    let silent = SubstrateReading { role: None, groups: Some(vec![]) };
    p.load(context(toml_str, Some("device-a"), Some(silent))).expect("load");
    assert_eq!(p.role_engagement.role, Role::Receiver);
    assert_eq!(p.role_engagement.group_id.as_deref(), Some("abc-123"));
}
