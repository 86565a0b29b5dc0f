//! Whole requests to the network plugin, run against a world that is kept in memory.

use evo_device_audio::error::PluginError;
use evo_device_audio::network::captive_state::{CaptiveCredentialPolicy, CaptivePhase, CaptiveSessionState, PortalForm};
use evo_device_audio::network::config::{PluginConfig, SecretEnvironment};
use evo_device_audio::network::intent::{FallbackIntent, Ipv4Mode, NetworkIntent, StaSelectionMode, WifiRole};
use evo_device_audio::network::nmcli::nmcli_output;
use evo_device_audio::network::notices::REQUEST_NETWORK_CAPTIVE_COMPLETE;
use evo_device_audio::network::notices::{REQUEST_NETWORK_CAPTIVE_START, REQUEST_NETWORK_CAPTIVE_SUBMIT};
use evo_device_audio::network::plugin::{
    NetworkNmPlugin, NetworkRequest, NetworkResponse, ResponseBody, REQUEST_NETWORK_CAPTIVE_STATUS,
    REQUEST_NETWORK_INTENT_APPLY, REQUEST_NETWORK_INTENT_GET, REQUEST_NETWORK_INTENT_SET, REQUEST_NETWORK_SCAN,
    REQUEST_NETWORK_STATUS,
};
use evo_device_audio::network::readings::{BandClass, ScanRow, WifiStaCandidate};
use evo_device_audio::network::scan_cache::CachedScan;
use evo_device_audio::network::secrets::{derive_secret_key, fresh_nonce, SecretEnvelope};
use evo_device_audio::network::storage::{
    load_intent, read_optional_secret, save_captive_state, save_intent, write_optional_secret,
};
use evo_device_audio::network::transcript::{
    Action, CaptiveCompleteRequest, CaptiveStartRequest, CaptiveStatusRequest, CaptiveSubmitRequest, CommandOutput,
    Halt, IntentApplyRequest, IntentSetRequest, Payload, PayloadKind, Reply, Run, ScanRequest, SecretWrite,
};
use evo_device_audio::paths::lkg_shadow_path;
use serde_json::Value;
use std::collections::BTreeMap;

const STATE_DIR: &str = "/state";

fn text(s: &str) -> Value {
    Value::String(s.to_string())
}

fn object(fields: Vec<(&str, Value)>) -> Value {
    Value::Object(fields.into_iter().map(|(k, v)| (k.to_string(), v)).collect())
}

fn field_text(v: &Value, name: &str, into: &mut String) {
    if let Some(s) = v[name].as_str() {
        *into = s.to_string();
    }
}

fn field_bool(v: &Value, name: &str, into: &mut bool) {
    if let Some(b) = v[name].as_bool() {
        *into = b;
    }
}

fn optional_text(v: &Value, name: &str) -> Option<String> {
    v[name].as_str().map(|s| s.to_string())
}

fn ipv4_mode(v: &Value) -> Ipv4Mode {
    match v.as_str() {
        Some("static") | Some("manual") => Ipv4Mode::Static,
        _ => Ipv4Mode::Dhcp,
    }
}

fn role_of(v: &Value) -> WifiRole {
    match v.as_str() {
        Some("ap") => WifiRole::Ap,
        Some("disabled") => WifiRole::Disabled,
        _ => WifiRole::Sta,
    }
}

fn intent_of(v: &Value) -> NetworkIntent {
    let mut intent = NetworkIntent::default();
    if let Some(n) = v["version"].as_u64() {
        intent.version = n as u32;
    }
    let e = &v["ethernet"];
    field_bool(e, "enabled", &mut intent.ethernet.enabled);
    field_text(e, "device", &mut intent.ethernet.device);
    field_text(e, "ifname", &mut intent.ethernet.device);
    intent.ethernet.ipv4_mode = ipv4_mode(&e["ipv4_mode"]);
    let w = &v["wifi"];
    field_text(w, "ifname", &mut intent.wifi.ifname);
    intent.wifi.role = role_of(&w["role"]);
    field_text(w, "sta_ssid", &mut intent.wifi.sta_ssid);
    field_bool(w, "sta_open", &mut intent.wifi.sta_open);
    let f = &v["fallback"];
    field_bool(f, "hotspot_enabled", &mut intent.fallback.hotspot_enabled);
    field_text(f, "hotspot_ifname", &mut intent.fallback.hotspot_ifname);
    intent
}

fn intent_value(intent: &NetworkIntent) -> Value {
    let role = match intent.wifi.role {
        WifiRole::Sta => "sta",
        WifiRole::Ap => "ap",
        WifiRole::Disabled => "disabled",
    };
    object(vec![
        ("version", Value::from(intent.version)),
        (
            "ethernet",
            object(vec![
                ("enabled", Value::Bool(intent.ethernet.enabled)),
                ("device", text(&intent.ethernet.device)),
            ]),
        ),
        (
            "wifi",
            object(vec![
                ("ifname", text(&intent.wifi.ifname)),
                ("role", text(role)),
                ("sta_ssid", text(&intent.wifi.sta_ssid)),
                ("sta_open", Value::Bool(intent.wifi.sta_open)),
            ]),
        ),
        (
            "fallback",
            object(vec![
                ("hotspot_enabled", Value::Bool(intent.fallback.hotspot_enabled)),
                ("hotspot_ifname", text(&intent.fallback.hotspot_ifname)),
            ]),
        ),
    ])
}

fn phases() -> Vec<(&'static str, CaptivePhase)> {
    vec![
        ("idle", CaptivePhase::Idle),
        ("probe_detected", CaptivePhase::ProbeDetected),
        ("awaiting_credentials", CaptivePhase::AwaitingCredentials),
        ("submitting", CaptivePhase::Submitting),
        ("authenticated", CaptivePhase::Authenticated),
        ("failed", CaptivePhase::Failed),
    ]
}

fn captive_of(v: &Value) -> CaptiveSessionState {
    let mut s = CaptiveSessionState::default();
    for (name, phase) in phases() {
        if v["phase"].as_str() == Some(name) {
            s.phase = phase;
        }
    }
    s.last_probe_url = optional_text(v, "last_probe_url");
    s.portal_url = optional_text(v, "portal_url");
    s.last_http_code = v["last_http_code"].as_u64().map(|n| n as u16);
    s.last_error = optional_text(v, "last_error");
    s.last_submit_fingerprint = optional_text(v, "last_submit_fingerprint");
    s.last_submit_at_epoch = v["last_submit_at_epoch"].as_u64();
    s.submit_attempts = v["submit_attempts"].as_u64().unwrap_or(0) as u32;
    s.requires_user_confirmation = v["requires_user_confirmation"].as_bool().unwrap_or(false);
    s
}

fn captive_value(s: &CaptiveSessionState) -> Value {
    let mut m = serde_json::Map::new();
    for (name, phase) in phases() {
        if s.phase == phase {
            m.insert("phase".to_string(), text(name));
        }
    }
    for (name, v) in [
        ("last_probe_url", &s.last_probe_url),
        ("portal_url", &s.portal_url),
        ("last_error", &s.last_error),
        ("last_submit_fingerprint", &s.last_submit_fingerprint),
    ] {
        if let Some(v) = v {
            m.insert(name.to_string(), text(v));
        }
    }
    if let Some(n) = s.last_http_code {
        m.insert("last_http_code".to_string(), Value::from(n));
    }
    if let Some(n) = s.last_submit_at_epoch {
        m.insert("last_submit_at_epoch".to_string(), Value::from(n));
    }
    m.insert("submit_attempts".to_string(), Value::from(s.submit_attempts));
    m.insert("requires_user_confirmation".to_string(), Value::Bool(s.requires_user_confirmation));
    Value::Object(m)
}

/// The two parts of a document that states its schema, where it holds nothing else.
fn envelope_parts<'a>(v: &'a Value, body: &str) -> Result<(u32, &'a Value), String> {
    match v.as_object() {
        Some(m) if m.keys().all(|k| k == "schema_version" || k == body) => {
            Ok((v["schema_version"].as_u64().unwrap_or(1) as u32, &v[body]))
        }
        _ => Err("unknown field".to_string()),
    }
}

fn intent_doc(raw: &str) -> Reply {
    match toml::from_str::<Value>(raw) {
        Ok(v) => Reply::IntentDoc {
            envelope: envelope_parts(&v, "intent").map(|(n, i)| (n, intent_of(i))),
            bare: Ok(intent_of(&v)),
        },
        Err(e) => Reply::IntentDoc { envelope: Err(e.to_string()), bare: Err(e.to_string()) },
    }
}

fn captive_doc(raw: &str) -> Reply {
    match serde_json::from_str::<Value>(raw) {
        Ok(v) => Reply::CaptiveDoc {
            envelope: envelope_parts(&v, "state").map(|(n, s)| (n, captive_of(s))),
            bare: Ok(captive_of(&v)),
        },
        Err(e) => Reply::CaptiveDoc { envelope: Err(e.to_string()), bare: Err(e.to_string()) },
    }
}

fn secret_doc(raw: &str) -> Reply {
    match serde_json::from_str::<Value>(raw) {
        Ok(v) if v.is_object() => Reply::SecretDoc(Some(SecretEnvelope {
            schema_version: v["schema_version"].as_u64().unwrap_or(1) as u32,
            cipher: optional_text(&v, "cipher").unwrap_or_default(),
            nonce_b64: optional_text(&v, "nonce_b64").unwrap_or_default(),
            ciphertext_b64: optional_text(&v, "ciphertext_b64").unwrap_or_default(),
        })),
        _ => Reply::SecretDoc(None),
    }
}

fn payload_of(kind: PayloadKind, v: &Value) -> Payload {
    let intent = v.get("intent").map(intent_of);
    match kind {
        PayloadKind::Scan => Payload::Scan(ScanRequest {
            ifname: optional_text(v, "ifname"),
            refresh: v["refresh"].as_bool().unwrap_or(false),
        }),
        PayloadKind::IntentSet => Payload::IntentSet(IntentSetRequest {
            intent: intent.unwrap_or_default(),
            sta_psk: optional_text(v, "sta_psk"),
            ap_psk: optional_text(v, "ap_psk"),
            apply: v["apply"].as_bool().unwrap_or(true),
        }),
        PayloadKind::IntentApply => Payload::IntentApply(IntentApplyRequest { intent }),
        PayloadKind::CaptiveStatus => Payload::CaptiveStatus(CaptiveStatusRequest {
            probe: v["probe"].as_bool().unwrap_or(false),
            url: optional_text(v, "url"),
        }),
        PayloadKind::CaptiveStart => Payload::CaptiveStart(CaptiveStartRequest { url: optional_text(v, "url") }),
        PayloadKind::CaptiveSubmit => {
            let mut form = PortalForm::new();
            if let Some(m) = v["form"].as_object() {
                for (name, value) in m {
                    form.insert(name.clone(), value.as_str().unwrap_or("").to_string());
                }
            }
            Payload::CaptiveSubmit(CaptiveSubmitRequest {
                url: optional_text(v, "url"),
                method: optional_text(v, "method"),
                form,
                confirm_replay: v["confirm_replay"].as_bool().unwrap_or(false),
            })
        }
        PayloadKind::CaptiveComplete => {
            Payload::CaptiveComplete(CaptiveCompleteRequest { success: v["success"].as_bool() })
        }
    }
}

/// A world: its files, what its programs print, its clocks, and what was run in it.
struct World {
    files: BTreeMap<String, String>,
    programs: fn(&[&str]) -> CommandOutput,
    log: Vec<String>,
    epoch: u64,
    monotonic: u64,
}

impl World {
    fn new(programs: fn(&[&str]) -> CommandOutput) -> World {
        World { files: BTreeMap::new(), programs, log: vec![], epoch: 1_700_000_000, monotonic: 5_000 }
    }

    fn act(&mut self, action: Action, payload: &Value) -> Reply {
        match action {
            Action::Run { program, args, .. } => {
                // What `sudo` runs is what it was told to run.
                let skipped: usize = if program == "sudo" { 2 } else { 0 };
                let args: Vec<&str> = args.iter().skip(skipped).map(|a| a.as_str()).collect();
                self.log.push(args.join(" "));
                Reply::Ran((self.programs)(&args))
            }
            Action::Link { .. } => Reply::Link(None),
            Action::Sleep { .. } => Reply::Slept,
            Action::ReadText { path } => Reply::Text(self.files.get(&path).cloned()),
            Action::Probe { path } => Reply::Present(self.files.contains_key(&path)),
            Action::Remove { path } => {
                self.files.remove(&path);
                Reply::Wrote(Ok(()))
            }
            Action::ReadVar { .. } => Reply::Text(None),
            Action::EpochSeconds => Reply::Now(self.epoch),
            Action::MonotonicMs => Reply::Now(self.monotonic),
            Action::WriteText { path, data, .. } => {
                self.files.insert(path, data);
                Reply::Wrote(Ok(()))
            }
            Action::WriteSecret { path, data, mode, .. } => {
                assert_eq!(mode, 0o600);
                self.files.insert(path, data);
                Reply::SecretWrote(SecretWrite::Done)
            }
            Action::DrawNonce => Reply::Nonce(fresh_nonce()),
            Action::EncodeIntent { schema_version, intent } => {
                let doc =
                    object(vec![("schema_version", Value::from(schema_version)), ("intent", intent_value(&intent))]);
                Reply::Encoded(toml::to_string_pretty(&doc).map_err(|e| e.to_string()))
            }
            Action::EncodeCaptive { schema_version, state } => {
                let doc =
                    object(vec![("schema_version", Value::from(schema_version)), ("state", captive_value(&state))]);
                Reply::Encoded(serde_json::to_string_pretty(&doc).map_err(|e| e.to_string()))
            }
            Action::EncodeSecret { envelope } => {
                let doc = object(vec![
                    ("schema_version", Value::from(envelope.schema_version)),
                    ("cipher", text(&envelope.cipher)),
                    ("nonce_b64", text(&envelope.nonce_b64)),
                    ("ciphertext_b64", text(&envelope.ciphertext_b64)),
                ]);
                Reply::Encoded(serde_json::to_string_pretty(&doc).map_err(|e| e.to_string()))
            }
            Action::DecodeIntent { raw } => intent_doc(&raw),
            Action::DecodeCaptive { raw } => captive_doc(&raw),
            Action::DecodeSecret { raw } => secret_doc(&raw),
            Action::DecodePayload { kind } => Reply::Decoded(Ok(payload_of(kind, payload))),
        }
    }

    /// Runs a piece of logic to its end.
    fn run<T>(&mut self, logic: &dyn Fn(&mut Run) -> Result<T, Halt>) -> Result<T, PluginError> {
        let mut replies: Vec<Reply> = vec![];
        loop {
            let step = logic(&mut Run::new(&replies));
            match step {
                Ok(v) => return Ok(v),
                Err(Halt::Fail(e)) => return Err(e),
                Err(Halt::Need(action)) => replies.push(self.act(action, &Value::Null)),
            }
        }
    }

    fn request(
        &mut self,
        p: &mut NetworkNmPlugin,
        request_type: &str,
        payload: Value,
        correlation_id: u64,
    ) -> Result<NetworkResponse, PluginError> {
        let req = NetworkRequest {
            request_type: request_type.to_string(),
            correlation_id,
            past_deadline: false,
            payload_empty: false,
        };
        let mut replies: Vec<Reply> = vec![];
        loop {
            match p.handle_request(&req, &replies) {
                Ok(r) => return r,
                Err(action) => replies.push(self.act(action, &payload)),
            }
        }
    }
}

fn said(stdout: &str) -> CommandOutput {
    CommandOutput { success: true, code: Some(0), stdout: stdout.to_string(), stderr: String::new() }
}

fn failed(code: i32, stderr: &str) -> CommandOutput {
    CommandOutput { success: false, code: Some(code), stdout: String::new(), stderr: stderr.to_string() }
}

fn silent(_args: &[&str]) -> CommandOutput {
    said("")
}

fn no_env() -> SecretEnvironment {
    SecretEnvironment { key: None, require: None }
}

fn loaded_plugin() -> NetworkNmPlugin {
    let mut p = NetworkNmPlugin::new();
    p.loaded = true;
    p.state_dir = Some(STATE_DIR.to_string());
    p.config = PluginConfig::defaults(&no_env());
    p
}

#[test]
fn load_intent_falls_back_to_lkg_shadow_on_primary_parse_error() {
    let p = loaded_plugin();
    let primary = p.intent_path().expect("intent path");
    let lkg = lkg_shadow_path(&primary);
    let mut world = World::new(silent);
    world.files.insert(primary, "not-valid-toml".to_string());
    world.files.insert(
        lkg,
        r#"
version = 1
[ethernet]
enabled = true
[wifi]
ifname = "wlan1"
role = "sta"
sta_ssid = "HotelWiFi"
[fallback]
hotspot_enabled = true
"#
        .to_string(),
    );
    let intent = world.run(&|run: &mut Run| load_intent(run, Some(STATE_DIR))).expect("load intent");
    assert_eq!(intent.wifi.ifname, "wlan1");
    assert_eq!(intent.wifi.sta_ssid, "HotelWiFi");
}

#[test]
fn save_intent_and_captive_state_write_schema_envelopes() {
    let p = loaded_plugin();
    let mut world = World::new(silent);
    let intent = NetworkIntent::default();
    world.run(&|run: &mut Run| save_intent(run, Some(STATE_DIR), &intent)).expect("save intent");
    let intent_raw = world.files.get(&p.intent_path().expect("path")).expect("read intent");
    assert!(intent_raw.contains("schema_version = 1"));
    assert!(intent_raw.contains("[intent]"));

    let captive = CaptiveSessionState { phase: CaptivePhase::Authenticated, ..Default::default() };
    world.run(&|run: &mut Run| save_captive_state(run, Some(STATE_DIR), &captive)).expect("save captive");
    let captive_raw = world.files.get(&p.captive_state_path().expect("path")).expect("read captive");
    assert!(captive_raw.contains("\"schema_version\": 1"));
    assert!(captive_raw.contains("\"state\""));
}

#[test]
fn a_saved_intent_is_loaded_again() {
    let mut world = World::new(silent);
    let mut intent = NetworkIntent::default();
    intent.wifi.sta_ssid = "HotelWiFi".to_string();
    intent.wifi.role = WifiRole::Ap;
    world.run(&|run: &mut Run| save_intent(run, Some(STATE_DIR), &intent)).expect("save intent");
    // What was there before stays beside the new file.
    world.run(&|run: &mut Run| save_intent(run, Some(STATE_DIR), &intent)).expect("save intent again");
    assert!(world.files.contains_key("/state/network-intent.lkg.toml"));
    let back = world.run(&|run: &mut Run| load_intent(run, Some(STATE_DIR))).expect("load intent");
    assert_eq!(back.wifi.sta_ssid, "HotelWiFi");
    assert_eq!(back.wifi.role, WifiRole::Ap);
    assert_eq!(back.version, 1);
}

#[test]
fn write_secret_encrypts_when_key_configured() {
    let mut p = loaded_plugin();
    p.config.secret_key = Some(derive_secret_key("test-key"));
    let path = p.sta_psk_path().expect("path");
    let mut world = World::new(silent);
    world.run(&|run: &mut Run| write_optional_secret(run, &p.config, &path, Some("SeCrEt9"))).expect("write");
    let raw = world.files.get(&path).expect("read").clone();
    assert!(raw.contains("\"schema_version\": 1"));
    assert!(!raw.contains("SeCrEt9"));
    let decoded = world.run(&|run: &mut Run| read_optional_secret(run, &p.config, &path)).expect("decode");
    assert_eq!(decoded.as_deref(), Some("SeCrEt9"));

    // With another key it is not read.
    p.config.secret_key = Some(derive_secret_key("another key"));
    assert!(world.run(&|run: &mut Run| read_optional_secret(run, &p.config, &path)).is_err());
}

#[test]
fn a_plain_secret_is_read_back() {
    let p = loaded_plugin();
    let path = p.ap_psk_path().expect("path");
    let mut world = World::new(silent);
    world.run(&|run: &mut Run| write_optional_secret(run, &p.config, &path, Some("HotspotPass9"))).expect("write");
    let back = world.run(&|run: &mut Run| read_optional_secret(run, &p.config, &path)).expect("read");
    assert_eq!(back.as_deref(), Some("HotspotPass9"));
    // An empty value removes the file, as no value does.
    world.run(&|run: &mut Run| write_optional_secret(run, &p.config, &path, Some(" "))).expect("clear");
    assert!(!world.files.contains_key(&path));
    world.run(&|run: &mut Run| write_optional_secret(run, &p.config, &path, None)).expect("clear again");
    assert!(!world.files.contains_key(&path));
}

#[test]
fn read_plaintext_secret_rejected_when_encryption_required() {
    let mut p = loaded_plugin();
    p.config.require_encrypted_secrets = true;
    let path = p.sta_psk_path().expect("path");
    let mut world = World::new(silent);
    world.files.insert(path.clone(), "plainsecret\n".to_string());
    let err = world
        .run(&|run: &mut Run| read_optional_secret(run, &p.config, &path))
        .expect_err("must reject plaintext");
    assert!(err.message().contains("plaintext secret"));
}

fn intent_payload(role: &str) -> Value {
    object(vec![
        ("version", Value::from(1)),
        ("ethernet", object(vec![("enabled", Value::Bool(false))])),
        (
            "wifi",
            object(vec![
                ("role", text(role)),
                ("ifname", text("wlan0")),
                ("sta_ssid", text("HotelWiFi")),
                ("sta_open", Value::Bool(false)),
            ]),
        ),
        ("fallback", object(vec![("hotspot_enabled", Value::Bool(false))])),
    ])
}

#[test]
fn request_flow_intent_set_and_get_roundtrip() {
    let mut p = loaded_plugin();
    p.config.secret_key = Some(derive_secret_key("integration-key"));
    let mut world = World::new(silent);

    let payload = object(vec![
        ("intent", intent_payload("sta")),
        ("sta_psk", text("AbC123xY")),
        ("ap_psk", text("HotspotPass9")),
        ("apply", Value::Bool(false)),
    ]);
    let set = world.request(&mut p, REQUEST_NETWORK_INTENT_SET, payload, 1001).expect("intent.set");
    assert!(matches!(&set.body, ResponseBody::IntentSet(b) if b.apply.is_none()));
    assert_eq!(set.observability.request_type, REQUEST_NETWORK_INTENT_SET);
    assert_eq!(set.observability.correlation_id, 1001);

    let get = world.request(&mut p, REQUEST_NETWORK_INTENT_GET, object(vec![]), 1002).expect("intent.get");
    match &get.body {
        ResponseBody::IntentGet(b) => {
            assert!(b.sta_psk_configured);
            assert!(b.ap_psk_configured);
            assert_eq!(b.intent.wifi.sta_ssid, "HotelWiFi");
        }
        other => panic!("unexpected {other:?}"),
    }
    assert_eq!(get.observability.request_type, REQUEST_NETWORK_INTENT_GET);
    assert_eq!(get.observability.correlation_id, 1002);
    assert_eq!(get.observability.requests_handled, 2);
    assert!(get.observability.secret_encryption);

    let raw = world.files.get(&p.sta_psk_path().expect("path")).expect("read sta secret");
    assert!(raw.contains("\"cipher\": \"xchacha20poly1305\""));
}

fn applying(args: &[&str]) -> CommandOutput {
    match args {
        ["-t", "-f", "DEVICE,TYPE,STATE,CONNECTION", "device", ..] => said("wlan0:wifi:connected:evo-network-wifi-sta\n"),
        ["general", "status", ..] => said("connected\n"),
        ["connection", "show", ..] => failed(1, ""),
        ["-t", "-f", "SSID,SIGNAL,SECURITY,ACTIVE", ..] => said("HotelWiFi:80:WPA2:yes\n"),
        ["-t", "-f", "BSSID,SSID,SIGNAL,FREQ,ACTIVE", ..] => said("AA:BB:CC:DD:EE:FF:HotelWiFi:80:5180:yes\n"),
        _ => said(""),
    }
}

#[test]
fn request_flow_apply_works_with_mock_nmcli() {
    let mut p = loaded_plugin();
    let mut world = World::new(applying);
    let payload = object(vec![("intent", intent_payload("disabled"))]);
    let out = world.request(&mut p, REQUEST_NETWORK_INTENT_APPLY, payload, 1003).expect("intent.apply");
    match &out.body {
        ResponseBody::IntentApply(b) => {
            assert!(b.apply.as_ref().expect("report").ok);
            assert!(b.notices.iter().any(|n| n.code == "network_apply_ok"));
        }
        other => panic!("unexpected {other:?}"),
    }
    assert_eq!(out.observability.request_type, REQUEST_NETWORK_INTENT_APPLY);
    assert_eq!(out.observability.correlation_id, 1003);
    assert!(world.log.join("\n").contains("connection down evo-network-wifi-sta"));
}

#[test]
fn applying_a_station_brings_its_profile_up() {
    let mut p = loaded_plugin();
    let mut world = World::new(applying);
    let payload = object(vec![
        ("intent", intent_payload("sta")),
        ("sta_psk", text("AbC123xY")),
        ("apply", Value::Bool(true)),
    ]);
    let out = world.request(&mut p, REQUEST_NETWORK_INTENT_SET, payload, 1).expect("intent.set");
    match &out.body {
        ResponseBody::IntentSet(b) => assert!(b.apply.as_ref().expect("report").ok, "{:?}", b.apply),
        other => panic!("unexpected {other:?}"),
    }
    let log = world.log.join("\n");
    assert!(log.contains("connection up evo-network-wifi-sta"), "{log}");
    assert!(log.contains("AbC123xY"), "{log}");
}

fn half_broken(args: &[&str]) -> CommandOutput {
    match args {
        ["-t", "-f", "DEVICE,TYPE,STATE,CONNECTION", "device", ..] => failed(10, "device-table-failed\n"),
        _ => applying(args),
    }
}

#[test]
fn request_flow_status_is_degraded_on_partial_backend_failure() {
    let mut p = loaded_plugin();
    let mut world = World::new(half_broken);
    let out = world.request(&mut p, REQUEST_NETWORK_STATUS, object(vec![]), 1004).expect("status");
    match &out.body {
        ResponseBody::Status(b) => {
            assert!(b.degraded);
            assert!(b.devices_error.as_ref().expect("error").contains("device-table-failed"));
            assert!(b.general_error.is_none());
            assert_eq!(b.general_status.as_deref(), Some("connected"));
        }
        other => panic!("unexpected {other:?}"),
    }
}

#[test]
fn request_flow_scan_uses_cache_until_refresh_requested() {
    let mut p = loaded_plugin();
    p.config.scan_cache_ttl_ms = 60000;
    let mut world = World::new(applying);
    world.request(&mut p, REQUEST_NETWORK_SCAN, object(vec![]), 1101).expect("scan-1");
    world.request(&mut p, REQUEST_NETWORK_SCAN, object(vec![]), 1102).expect("scan-2");
    let payload = object(vec![("refresh", Value::Bool(true))]);
    world.request(&mut p, REQUEST_NETWORK_SCAN, payload, 1103).expect("scan-3");
    let log = world.log.join("\n");
    assert_eq!(log.matches("SSID,SIGNAL,SECURITY,ACTIVE").count(), 2);
    assert_eq!(log.matches("BSSID,SSID,SIGNAL,FREQ,ACTIVE").count(), 2);
}

#[test]
fn an_old_scan_is_made_again() {
    let mut p = loaded_plugin();
    p.config.scan_cache_ttl_ms = 60000;
    let mut world = World::new(applying);
    world.request(&mut p, REQUEST_NETWORK_SCAN, object(vec![]), 1).expect("scan");
    world.monotonic += 60_001;
    world.request(&mut p, REQUEST_NETWORK_SCAN, object(vec![]), 2).expect("scan");
    assert_eq!(world.log.join("\n").matches("SSID,SIGNAL,SECURITY,ACTIVE").count(), 2);
}

fn broken_scan(_args: &[&str]) -> CommandOutput {
    failed(10, "scan-failed\n")
}

#[test]
fn request_flow_scan_returns_stale_cache_on_backend_error() {
    let mut p = loaded_plugin();
    p.config.scan_cache_ttl_ms = 60000;
    let mut world = World::new(broken_scan);
    p.scan_cache.insert(
        "wlan0".to_string(),
        CachedScan {
            available: vec![ScanRow {
                ssid: "HotelWiFi".to_string(),
                signal: 4,
                security: "wpa2".to_string(),
                active: true,
            }],
            candidates: vec![WifiStaCandidate {
                bssid: "AA:BB:CC:DD:EE:FF".to_string(),
                ssid: "HotelWiFi".to_string(),
                signal_pct: 80,
                freq_mhz: Some(5180),
                band: BandClass::Ghz5,
                active: true,
            }],
            captured_at: world.monotonic,
        },
    );
    let payload = object(vec![("ifname", text("wlan0")), ("refresh", Value::Bool(true))]);
    let out = world.request(&mut p, REQUEST_NETWORK_SCAN, payload, 1104).expect("scan");
    match &out.body {
        ResponseBody::Scan(b) => {
            assert!(b.cache_hit);
            assert!(b.cache_stale);
            assert_eq!(b.available[0].ssid, "HotelWiFi");
            assert!(b.scan_error.as_ref().expect("error").contains("scan-failed"));
        }
        other => panic!("unexpected {other:?}"),
    }
}

#[test]
fn nmcli_output_times_out_on_slow_backend() {
    let mut config = PluginConfig::defaults(&no_env());
    config.nmcli_timeout_ms = 50;
    let args = || vec!["general".to_string(), "status".to_string()];
    let replies = vec![];
    match nmcli_output(&mut Run::new(&replies), &config, args()) {
        Err(Halt::Need(Action::Run { timeout_ms, .. })) => assert_eq!(timeout_ms, Some(50)),
        _ => panic!("expected a program to run"),
    }
    let replies = vec![Reply::TimedOut];
    let mut run = Run::new(&replies);
    match nmcli_output(&mut run, &config, args()) {
        Ok(Err(e)) => assert!(e.message().contains("timed out")),
        _ => panic!("must timeout"),
    };
}

#[test]
fn a_plugin_that_is_not_loaded_refuses_requests() {
    let mut p = NetworkNmPlugin::new();
    assert!(p.health_check().is_some());
    let mut world = World::new(silent);
    let err = world.request(&mut p, REQUEST_NETWORK_STATUS, object(vec![]), 1).expect_err("not loaded");
    assert!(err.message().contains("not loaded"));
}

#[test]
fn unknown_requests_and_late_ones_are_refused() {
    let mut p = loaded_plugin();
    assert!(p.health_check().is_none());
    let mut world = World::new(silent);
    assert!(matches!(world.request(&mut p, "network.nm.reboot", object(vec![]), 1), Err(PluginError::Permanent(_))));
    let late = NetworkRequest {
        request_type: REQUEST_NETWORK_STATUS.to_string(),
        correlation_id: 2,
        past_deadline: true,
        payload_empty: true,
    };
    assert!(matches!(p.handle_request(&late, &vec![]), Ok(Err(PluginError::Transient(_)))));
    assert_eq!(NetworkNmPlugin::request_types().len(), 9);
}

fn portal(args: &[&str]) -> CommandOutput {
    if args.contains(&"%{http_code}|%{url_effective}") {
        return said("302|http://portal.example/login");
    }
    match args {
        ["-t", "-f", "CONNECTIVITY", "general"] => said("portal\n"),
        _ => said(""),
    }
}

fn open_net(args: &[&str]) -> CommandOutput {
    if args.contains(&"%{http_code}|%{url_effective}") {
        return said("200|http://portal.example/welcome");
    }
    match args {
        ["-t", "-f", "CONNECTIVITY", "general"] => said("full\n"),
        _ => said(""),
    }
}

fn captive(r: NetworkResponse) -> (CaptiveSessionState, Vec<String>) {
    match r.body {
        ResponseBody::Captive(b) => (b.captive, b.actions.into_iter().map(|a| a.id).collect()),
        other => panic!("unexpected {other:?}"),
    }
}

fn ticket(code: &str, confirm: bool) -> Value {
    object(vec![
        ("url", text("http://portal.example/login")),
        ("form", object(vec![("ticket", text(code))])),
        ("confirm_replay", Value::Bool(confirm)),
    ])
}

#[test]
fn a_portal_is_found_and_passed() {
    let mut p = loaded_plugin();
    let mut world = World::new(portal);
    let (s, _) = captive(world.request(&mut p, REQUEST_NETWORK_CAPTIVE_START, object(vec![]), 1).expect("start"));
    assert_eq!(s.portal_url.as_deref(), Some("http://portal.example/login"));
    assert_eq!(s.last_http_code, Some(302));
    assert_eq!(s.phase, CaptivePhase::AwaitingCredentials);

    world.programs = open_net;
    let (s, _) = captive(
        world.request(&mut p, REQUEST_NETWORK_CAPTIVE_SUBMIT, ticket("ABC123", false), 2).expect("submit"),
    );
    assert_eq!(s.phase, CaptivePhase::Authenticated);
    assert_eq!(s.submit_attempts, 1);
    assert_eq!(s.last_submission_fields, vec!["ticket"]);

    let done = object(vec![("success", Value::Bool(true))]);
    let (s, _) = captive(world.request(&mut p, REQUEST_NETWORK_CAPTIVE_COMPLETE, done, 3).expect("complete"));
    assert_eq!(s.phase, CaptivePhase::Authenticated);
    let (s, _) = captive(world.request(&mut p, REQUEST_NETWORK_CAPTIVE_STATUS, object(vec![]), 4).expect("status"));
    assert_eq!(s.phase, CaptivePhase::Authenticated);
}

#[test]
fn a_ticket_is_not_sent_twice_unless_confirmed() {
    let mut p = loaded_plugin();
    p.config.captive.credential_policy = CaptiveCredentialPolicy::SingleUseTicket;
    p.config.captive.retry_budget = 5;
    let mut world = World::new(portal);
    let sent = |w: &World| w.log.iter().filter(|l| l.contains("ABC123")).count();
    let (first, _) =
        captive(world.request(&mut p, REQUEST_NETWORK_CAPTIVE_SUBMIT, ticket("ABC123", false), 1).expect("first"));
    assert_ne!(first.phase, CaptivePhase::Authenticated);
    assert_eq!(sent(&world), 1);
    let again = world.request(&mut p, REQUEST_NETWORK_CAPTIVE_SUBMIT, ticket("ABC123", false), 2);
    assert!(again.is_err() || captive(again.unwrap()).0.requires_user_confirmation);
    assert_eq!(sent(&world), 1);
    let _ = world.request(&mut p, REQUEST_NETWORK_CAPTIVE_SUBMIT, ticket("ABC123", true), 3);
    assert_eq!(sent(&world), 2);
}

#[test]
fn the_default_intent_is_what_a_first_start_has() {
    let mut world = World::new(silent);
    let intent = world.run(&|run: &mut Run| load_intent(run, Some(STATE_DIR))).expect("load intent");
    assert_eq!(intent.version, 1);
    assert!(intent.ethernet.enabled);
    assert_eq!(intent.wifi.sta_selection_mode, StaSelectionMode::AutoStable);
    assert_eq!(intent.fallback.hotspot_connection_name, FallbackIntent::default().hotspot_connection_name);
}

#[test]
fn the_retry_budget_holds_credentials_back() {
    let mut p = loaded_plugin();
    p.config.captive.retry_budget = 2;
    let mut world = World::new(portal);
    let sent = |w: &World| w.log.iter().filter(|l| l.contains("ABC123")).count();
    for n in 1..5 {
        let (s, actions) =
            captive(world.request(&mut p, REQUEST_NETWORK_CAPTIVE_SUBMIT, ticket("ABC123", false), n).expect("submit"));
        assert_eq!(sent(&world), (n as usize).min(2));
        assert_eq!(s.submit_attempts as u64, n.min(2));
        if n > 2 {
            assert!(s.requires_user_confirmation);
            assert!(s.last_error.expect("why").contains("captive retry budget (2) reached"));
            assert!(actions.contains(&"captive.confirm_replay".to_string()));
        }
    }
    // Other credentials have a budget of their own, and so have these after a while.
    let _ = world.request(&mut p, REQUEST_NETWORK_CAPTIVE_SUBMIT, ticket("XYZ999", false), 9).expect("submit");
    assert!(world.log.iter().any(|l| l.contains("XYZ999")));
}

#[test]
fn failures_are_left_to_the_operator_where_the_policy_says_so() {
    let mut p = loaded_plugin();
    p.config.captive.credential_policy = CaptiveCredentialPolicy::ManualAfterFailure;
    p.config.captive.retry_budget = 9;
    let mut world = World::new(broken_scan);
    let (s, _) =
        captive(world.request(&mut p, REQUEST_NETWORK_CAPTIVE_SUBMIT, ticket("ABC123", false), 1).expect("submit"));
    assert_eq!(s.phase, CaptivePhase::Failed);
    assert_eq!(s.last_error.as_deref(), Some("curl submit failed (exit 10): scan-failed"));
    assert!(s.requires_user_confirmation);
    let (s, _) =
        captive(world.request(&mut p, REQUEST_NETWORK_CAPTIVE_SUBMIT, ticket("ABC123", false), 2).expect("submit"));
    assert_eq!(s.phase, CaptivePhase::AwaitingCredentials);
    assert_eq!(world.log.iter().filter(|l| l.contains("ABC123")).count(), 1);
}

#[test]
fn a_submission_needs_an_address() {
    let mut p = loaded_plugin();
    let mut world = World::new(portal);
    let err = world.request(&mut p, REQUEST_NETWORK_CAPTIVE_SUBMIT, object(vec![]), 1).expect_err("no address");
    assert!(err.message().contains("captive submit requires URL"));
    assert_eq!(p.requests_handled, 1);
}
