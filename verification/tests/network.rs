//! The network plugin's settings, readings, state documents and messages.

use evo_device_audio::config_value::{ConfigEntry, ConfigTable, ConfigValue};
use evo_device_audio::error::PluginError;
use evo_device_audio::network::apply::ApplyReport;
use evo_device_audio::network::captive::captive_submit_fingerprint;
use evo_device_audio::network::captive_state::{
    CaptiveCredentialPolicy, CaptivePhase, CaptiveSessionState, PortalForm,
};
use evo_device_audio::network::config::{PluginConfig, SecretEnvironment};
use evo_device_audio::network::intent::{NetworkIntent, StaSelectionMode, WifiIntent};
use evo_device_audio::network::notices::{build_apply_notices, build_captive_actions, build_captive_notices};
use evo_device_audio::network::plugin::NetworkNmPlugin;
use evo_device_audio::network::profiles::resolve_ap_ifname;
use evo_device_audio::network::readings::{
    band_from_freq, freq_to_channel_and_band, link_has_channel_numbers, parse_candidates, parse_device_table,
    parse_http_probe_metrics, parse_link, parse_scan_rows, push_nm_ap_channel, security_label, signal_bars_from_pct,
    BandClass, WifiStaCandidate,
};
use evo_device_audio::network::secrets::{
    decrypt_if_openable, decrypt_secret_value, derive_secret_key, encrypt_secret_value, fits_the_cipher, fresh_nonce,
    nonce_drawn, seal_secret, SecretEnvelope,
};
use evo_device_audio::network::storage::{parse_captive_state_json, parse_intent_state_toml};
use evo_device_audio::paths::{lkg_shadow_path, tmp_shadow_path};
use sha2::Digest;

#[test]
fn signal_bar_mapping() {
    assert_eq!(signal_bars_from_pct(None), 0);
    assert_eq!(signal_bars_from_pct(Some(1)), 1);
    assert_eq!(signal_bars_from_pct(Some(25)), 2);
    assert_eq!(signal_bars_from_pct(Some(45)), 3);
    assert_eq!(signal_bars_from_pct(Some(65)), 4);
    assert_eq!(signal_bars_from_pct(Some(85)), 5);
}

#[test]
fn security_label_mapping() {
    assert_eq!(security_label(""), "open");
    assert_eq!(security_label("WPA2"), "wpa2");
    assert_eq!(security_label("WPA3 SAE"), "wpa3");
    assert_eq!(security_label("WEP"), "wep");
}

#[test]
fn resolve_ap_ifname_prefers_explicit_hotspot_iface() {
    let mut intent = NetworkIntent::default();
    intent.fallback.hotspot_ifname = "wlan0".to_string();
    let (resolved, explicit) = resolve_ap_ifname(&intent, "wlan1", "wlan0", true, None);
    assert_eq!(resolved, "wlan0");
    assert!(explicit);
}

#[test]
fn resolve_ap_ifname_uses_ap0_when_concurrent_supported() {
    let intent = NetworkIntent::default();
    let (resolved, explicit) = resolve_ap_ifname(&intent, "wlan1", "wlan1", true, None);
    assert_eq!(resolved, "ap0");
    assert!(!explicit);
}

#[test]
fn resolve_ap_ifname_falls_back_to_sta_when_not_concurrent() {
    let intent = NetworkIntent::default();
    let (resolved, explicit) = resolve_ap_ifname(&intent, "wlan1", "wlan1", false, None);
    assert_eq!(resolved, "wlan1");
    assert!(!explicit);
}

#[test]
fn ap_channel_mapping_respects_explicit_band_and_defaults() {
    let wifi = WifiIntent { ap_channel: 6, ap_band: String::new(), ..WifiIntent::default() };
    let mut seq = Vec::new();
    push_nm_ap_channel(&mut seq, &wifi);
    assert_eq!(seq, vec!["802-11-wireless.band", "bg", "802-11-wireless.channel", "6",]);

    let wifi6 = WifiIntent { ap_channel: 5, ap_band: "6GHz".to_string(), ..WifiIntent::default() };
    let mut seq6 = Vec::new();
    push_nm_ap_channel(&mut seq6, &wifi6);
    assert_eq!(seq6, vec!["802-11-wireless.band", "6GHz", "802-11-wireless.channel", "5",]);
}

#[test]
fn band_from_freq_maps_common_ranges() {
    assert_eq!(band_from_freq(Some(2412)), BandClass::Ghz2_4);
    assert_eq!(band_from_freq(Some(5180)), BandClass::Ghz5);
    assert_eq!(band_from_freq(Some(5975)), BandClass::Ghz6);
    assert_eq!(band_from_freq(Some(1000)), BandClass::Unknown);
}

fn candidate(bssid: &str, signal_pct: u8, freq: u32, band: BandClass) -> WifiStaCandidate {
    WifiStaCandidate {
        bssid: bssid.to_string(),
        ssid: "HotelWiFi".to_string(),
        signal_pct,
        freq_mhz: Some(freq),
        band,
        active: false,
    }
}

#[test]
fn select_sta_candidate_honors_lock_bssid() {
    let plugin = NetworkNmPlugin::new();
    let wifi = WifiIntent {
        sta_ssid: "HotelWiFi".to_string(),
        sta_lock_bssid: "AA:BB:CC:DD:EE:FF".to_string(),
        ..WifiIntent::default()
    };
    let candidates = vec![
        candidate("11:22:33:44:55:66", 90, 5180, BandClass::Ghz5),
        candidate("AA:BB:CC:DD:EE:FF", 40, 2412, BandClass::Ghz2_4),
    ];
    let picked = plugin.select_sta_candidate(&wifi, &candidates).expect("candidate selected");
    assert_eq!(picked.bssid, "AA:BB:CC:DD:EE:FF");
}

#[test]
fn select_sta_candidate_prefers_performance_band() {
    let plugin = NetworkNmPlugin::new();
    let wifi = WifiIntent {
        sta_ssid: "HotelWiFi".to_string(),
        sta_selection_mode: StaSelectionMode::AutoPerformance,
        ..WifiIntent::default()
    };
    let candidates = vec![
        candidate("11:22:33:44:55:66", 80, 2412, BandClass::Ghz2_4),
        candidate("AA:BB:CC:DD:EE:FF", 65, 5180, BandClass::Ghz5),
    ];
    let picked = plugin.select_sta_candidate(&wifi, &candidates).expect("candidate selected");
    assert_eq!(picked.bssid, "AA:BB:CC:DD:EE:FF");
}

#[test]
fn parse_http_probe_metrics_parses_code_and_url() {
    let (code, url) = parse_http_probe_metrics("302|http://portal.example/login");
    assert_eq!(code, Some(302));
    assert_eq!(url.as_deref(), Some("http://portal.example/login"));
}

#[test]
fn parse_http_probe_metrics_handles_code_only() {
    let (code, url) = parse_http_probe_metrics("204|");
    assert_eq!(code, Some(204));
    assert!(url.is_none());
}

#[test]
fn parse_http_probe_metrics_handles_malformed_payload() {
    let (code, url) = parse_http_probe_metrics("not-a-code");
    assert_eq!(code, None);
    assert!(url.is_none());
}

fn form_of(fields: &[(&str, &str)]) -> PortalForm {
    let mut form = PortalForm::new();
    for (name, value) in fields {
        form.insert(name.to_string(), value.to_string());
    }
    form
}

#[test]
fn captive_submit_fingerprint_is_deterministic_and_sensitive_to_values() {
    let form_a = form_of(&[("room", "A10"), ("code", "AbC123")]);
    let form_b = form_of(&[("room", "A10"), ("code", "AbC123")]);
    let form_c = form_of(&[("room", "A10"), ("code", "AbC124")]);

    let f1 = captive_submit_fingerprint("http://portal/login", "POST", &form_a);
    let f2 = captive_submit_fingerprint("http://portal/login", "POST", &form_b);
    let f3 = captive_submit_fingerprint("http://portal/login", "POST", &form_c);

    assert_eq!(f1, f2);
    assert_ne!(f1, f3);
    // The order in which the fields were given does not count.
    let form_d = form_of(&[("code", "AbC123"), ("room", "A10")]);
    assert_eq!(f1, captive_submit_fingerprint("http://portal/login", "POST", &form_d));
}

fn config_value(v: &toml::Value) -> ConfigValue {
    match v {
        toml::Value::String(s) => ConfigValue::Text(s.clone()),
        toml::Value::Integer(n) => ConfigValue::Integer(*n),
        toml::Value::Boolean(b) => ConfigValue::Boolean(*b),
        toml::Value::Array(items) => ConfigValue::List(items.iter().map(config_value).collect()),
        toml::Value::Table(t) => ConfigValue::Table(config_table(t)),
        other => ConfigValue::Other(other.to_string()),
    }
}

fn config_table(t: &toml::Table) -> ConfigTable {
    ConfigTable { entries: t.iter().map(|(k, v)| ConfigEntry { key: k.clone(), value: config_value(v) }).collect() }
}

fn no_env() -> SecretEnvironment {
    SecretEnvironment { key: None, require: None }
}

#[test]
fn plugin_config_parses_captive_reliability_policy() {
    let t: toml::Table = toml::from_str(
        r#"
nmcli_path = "/usr/bin/nmcli"
wifi_iface = "wlan1"
nmcli_timeout_ms = 12000
curl_timeout_ms = 45000
scan_cache_ttl_ms = 6000

[captive]
credential_policy = "single_use_ticket"
retry_budget = 1
replay_window_sec = 120

[secrets]
require_encrypted = true
"#,
    )
    .expect("toml parses");
    let cfg = PluginConfig::from_toml_table(&config_table(&t), &no_env()).expect("plugin config parses");
    assert_eq!(cfg.captive.credential_policy, CaptiveCredentialPolicy::SingleUseTicket);
    assert_eq!(cfg.captive.retry_budget, 1);
    assert_eq!(cfg.captive.replay_window_sec, 120);
    assert!(cfg.require_encrypted_secrets);
    assert_eq!(cfg.nmcli_timeout_ms, 12000);
    assert_eq!(cfg.curl_timeout_ms, 45000);
    assert_eq!(cfg.scan_cache_ttl_ms, 6000);
    assert_eq!(cfg.nmcli_path, "/usr/bin/nmcli");
    assert_eq!(cfg.default_wifi_iface, "wlan1");
    assert!(cfg.secret_key.is_none());
}

#[test]
fn a_key_in_the_environment_is_hashed() {
    let env = SecretEnvironment { key: Some(" abc\n".to_string()), require: Some("yes".to_string()) };
    let cfg = PluginConfig::defaults(&env);
    // The SHA-256 digest of the text with its purpose before it.
    let expected = sha2::Sha256::digest(b"org.evoframework.network.nm:secret-key:v1:abc");
    assert_eq!(cfg.secret_key.expect("key")[..], expected[..]);
    assert!(cfg.require_encrypted_secrets);
}

#[test]
fn build_apply_notices_includes_success_or_error() {
    let ok = ApplyReport { ok: true, steps: vec!["step a".to_string()] };
    let err = ApplyReport { ok: false, steps: vec!["error: failed to apply".to_string()] };
    let ok_notices = build_apply_notices(&ok);
    let err_notices = build_apply_notices(&err);
    assert!(ok_notices.iter().any(|n| n.code == "network_apply_ok"));
    assert!(err_notices.iter().any(|n| n.code == "network_apply_failed"));
}

fn awaiting() -> CaptiveSessionState {
    CaptiveSessionState {
        phase: CaptivePhase::AwaitingCredentials,
        requires_user_confirmation: true,
        ..Default::default()
    }
}

#[test]
fn build_captive_notices_marks_confirmation_required() {
    let notices = build_captive_notices(&awaiting(), Some("portal"));
    assert!(notices.iter().any(|n| n.code == "network_connectivity_portal"));
    assert!(notices.iter().any(|n| n.code == "captive_confirmation_required"));
}

#[test]
fn build_captive_actions_includes_guarded_replay_action() {
    let actions = build_captive_actions(&awaiting());
    assert!(actions.iter().any(|a| a.id == "captive.confirm_replay"));
}

#[test]
fn lkg_naming_matches_steward_style() {
    let p = "/var/lib/evo/plugins/x/state/network-intent.toml";
    assert_eq!(lkg_shadow_path(p), "/var/lib/evo/plugins/x/state/network-intent.lkg.toml");
    assert_eq!(tmp_shadow_path(p), "/var/lib/evo/plugins/x/state/network-intent.toml.tmp");
}

fn intent_on(ifname: &str, ssid: &str) -> NetworkIntent {
    let mut intent = NetworkIntent::default();
    intent.wifi.ifname = ifname.to_string();
    intent.wifi.sta_ssid = ssid.to_string();
    intent
}

#[test]
fn parse_intent_state_toml_accepts_legacy_and_envelope() {
    let legacy = r#"
version = 1
[wifi]
ifname = "wlan1"
role = "sta"
sta_ssid = "HotelWiFi"
"#;
    let parsed_legacy =
        parse_intent_state_toml(legacy, &Err("unknown field `version`".to_string()), &Ok(intent_on("wlan1", "HotelWiFi")))
            .expect("legacy parses");
    assert_eq!(parsed_legacy.wifi.ifname, "wlan1");
    assert_eq!(parsed_legacy.wifi.sta_ssid, "HotelWiFi");

    let envelope = r#"
schema_version = 1
[intent]
version = 1
[intent.wifi]
ifname = "wlan0"
role = "sta"
sta_ssid = "OfficeWiFi"
"#;
    let parsed_envelope =
        parse_intent_state_toml(envelope, &Ok((1, intent_on("wlan0", "OfficeWiFi"))), &Ok(NetworkIntent::default()))
            .expect("envelope parses");
    assert_eq!(parsed_envelope.wifi.ifname, "wlan0");
    assert_eq!(parsed_envelope.wifi.sta_ssid, "OfficeWiFi");
}

#[test]
fn parse_intent_state_toml_rejects_unknown_schema() {
    let src = r#"
schema_version = 99
[intent]
version = 1
"#;
    let err = parse_intent_state_toml(src, &Ok((99, NetworkIntent::default())), &Ok(NetworkIntent::default()))
        .expect_err("must fail");
    assert!(err.contains("unsupported intent state schema_version"));
}

#[test]
fn documents_that_cannot_be_read_say_why() {
    let err = parse_intent_state_toml("x", &Err("a".to_string()), &Err("b".to_string())).expect_err("must fail");
    assert_eq!(err, "intent state parse failed (envelope: a; legacy: b)");
    let blank = parse_intent_state_toml(" \n", &Err("a".to_string()), &Err("b".to_string())).expect("default");
    assert_eq!(blank.version, 1);
}

#[test]
fn parse_captive_state_json_accepts_legacy_and_envelope() {
    let legacy = r#"{"phase":"authenticated","submit_attempts":1}"#;
    let bare = CaptiveSessionState { phase: CaptivePhase::Authenticated, submit_attempts: 1, ..Default::default() };
    let parsed_legacy = parse_captive_state_json(legacy, &Err("unknown field `phase`".to_string()), &Ok(bare))
        .expect("legacy parses");
    assert!(matches!(parsed_legacy.phase, CaptivePhase::Authenticated));
    assert_eq!(parsed_legacy.submit_attempts, 1);

    let envelope = r#"{
  "schema_version": 1,
  "state": {
    "phase": "awaiting_credentials",
    "requires_user_confirmation": true
  }
}"#;
    let parsed_envelope =
        parse_captive_state_json(envelope, &Ok((1, awaiting())), &Err("missing field `phase`".to_string()))
            .expect("envelope parses");
    assert!(matches!(parsed_envelope.phase, CaptivePhase::AwaitingCredentials));
    assert!(parsed_envelope.requires_user_confirmation);
}

#[test]
fn secret_crypto_roundtrip() {
    let key = derive_secret_key("test-key-material");
    assert!(fits_the_cipher("AbC123xY"));
    let env = encrypt_secret_value("AbC123xY", &key).expect("encrypt");
    let plain = decrypt_secret_value(&env, &key).expect("decrypt");
    assert_eq!(plain, "AbC123xY");
}

#[test]
fn a_sealed_secret_depends_on_its_key_and_its_nonce() {
    let key = derive_secret_key("a");
    let one = seal_secret("AbC123xY", &key, &[1; 24]).expect("seal");
    let two = seal_secret("AbC123xY", &key, &[2; 24]).expect("seal");
    assert_eq!(one.ciphertext_b64, seal_secret("AbC123xY", &key, &[1; 24]).expect("seal").ciphertext_b64);
    assert_ne!(one.ciphertext_b64, two.ciphertext_b64);
    assert_eq!(one.nonce_b64, "AQEBAQEBAQEBAQEBAQEBAQEBAQEBAQEB");
    assert!(decrypt_secret_value(&one, &derive_secret_key("b")).is_err());
    // Two values that are sealed one after another do not share a nonce.
    let three = encrypt_secret_value("AbC123xY", &key).expect("encrypt");
    let four = encrypt_secret_value("AbC123xY", &key).expect("encrypt");
    assert_ne!(three.nonce_b64, four.nonce_b64);
}

#[test]
fn sealed_secrets_that_were_changed_are_refused() {
    let key = derive_secret_key("a");
    let sealed = seal_secret("AbC123xY", &key, &[1; 24]).expect("seal");
    let changed = |schema: u32, cipher: &str, nonce: &str, text: &str| SecretEnvelope {
        schema_version: schema,
        cipher: cipher.to_string(),
        nonce_b64: nonce.to_string(),
        ciphertext_b64: text.to_string(),
    };
    let (c, n, t) = (sealed.cipher.as_str(), sealed.nonce_b64.as_str(), sealed.ciphertext_b64.as_str());
    assert!(decrypt_secret_value(&changed(1, c, n, t), &key).is_ok());
    assert!(decrypt_secret_value(&changed(2, c, n, t), &key).is_err());
    assert!(decrypt_secret_value(&changed(1, "rot13", n, t), &key).is_err());
    assert!(decrypt_secret_value(&changed(1, c, "!", t), &key).is_err());
    assert!(decrypt_secret_value(&changed(1, c, "AQEB", t), &key).is_err());
    assert!(decrypt_secret_value(&changed(1, c, n, "!"), &key).is_err());
    assert!(decrypt_secret_value(&changed(1, c, n, "AAAA"), &key).is_err());
}

#[test]
fn an_envelope_is_opened_or_refused_as_its_parts_say() {
    let key = derive_secret_key("a");
    let sealed = seal_secret(" AbC123xY ", &key, &[1; 24]).expect("seal");
    assert_eq!(decrypt_if_openable(&sealed, &key).expect("openable").expect("decrypt"), "AbC123xY");
    let short = SecretEnvelope { ciphertext_b64: "AAAA".to_string(), ..sealed.clone() };
    let err = decrypt_if_openable(&short, &key).expect("openable").expect_err("no seal");
    assert_eq!(err.message(), "cannot decrypt secret value: aead::Error");
    let other = SecretEnvelope { cipher: "rot13".to_string(), ..sealed };
    let err = decrypt_if_openable(&other, &key).expect("openable").expect_err("another cipher");
    assert_eq!(err.message(), "unsupported secret cipher rot13");
}

#[test]
fn tables_of_nmcli_are_read() {
    let devices = parse_device_table("eth0:ethernet:connected:Wired\nwlan0:wifi:disconnected:\n \n");
    assert_eq!(devices.len(), 2);
    assert_eq!(devices[0].connection, "Wired");
    let rows = parse_scan_rows("HotelWiFi:80:WPA2:yes\n:70:WPA2:no\nHotelWiFi:40:WPA2:no\n");
    assert_eq!(rows.len(), 1);
    assert_eq!((rows[0].ssid.as_str(), rows[0].signal, rows[0].active), ("HotelWiFi", 5, true));
    let found = parse_candidates("ap-1:HotelWiFi:80:5180:yes\n:x:1:2:no\n");
    assert_eq!(found.len(), 1);
    assert_eq!(found[0].bssid, "ap-1");
    assert_eq!(found[0].signal_pct, 80);
    assert_eq!(found[0].band, BandClass::Ghz5);
}

#[test]
fn links_are_read() {
    let raw = "Connected to aa:bb:cc:dd:ee:ff (on wlan0)\n\tfreq: 2437\n";
    assert!(link_has_channel_numbers(raw));
    let link = parse_link(raw);
    assert!(link.connected);
    assert_eq!(link.channel, Some(6));
    assert_eq!(freq_to_channel_and_band(5180), Some((36, "a".to_string())));
    assert_eq!(freq_to_channel_and_band(1000), None);
}

#[test]
fn a_nonce_that_cannot_be_drawn_says_why() {
    assert_eq!(nonce_drawn(Ok([7; 24])), Ok([7; 24]));
    let err = nonce_drawn(Err("no entropy".to_string())).expect_err("no nonce");
    assert_eq!(err, PluginError::Permanent("cannot generate secret nonce: no entropy".to_string()));
    assert_ne!(fresh_nonce().expect("nonce"), fresh_nonce().expect("another nonce"));
}
