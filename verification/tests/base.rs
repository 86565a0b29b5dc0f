//! Texts, numbers, paths and the topology of the device.

use evo_device_audio::config_value::{show, ConfigValue};
use evo_device_audio::multiroom::config::Role;
use evo_device_audio::number::{parse_u16, parse_u8, to_decimal, to_hex16, to_signed_decimal, words_of};
use evo_device_audio::paths::{extension_of_path, file_name_of, join_path, parent_path, path_in};
use evo_device_audio::text::{eq_ignoring_case, find, lines_of, splitn, to_lower, to_upper, trim};
use evo_device_audio::text_map::TextMap;
use evo_device_audio::text_order::sort_texts;
use evo_device_audio::topology::{
    audio_distribution_admission, default_topology, read_multiroom_role, recognised_role, StageKind,
};

#[test]
fn texts_are_cut_and_compared_as_std_does() {
    for s in ["", " a ", "\u{3000}a b\u{85}", "\ta\n", "no"] {
        assert_eq!(trim(s), s.trim());
        assert_eq!(lines_of(s), s.lines().collect::<Vec<&str>>());
        assert_eq!(words_of(s), s.split_whitespace().collect::<Vec<&str>>());
    }
    for s in ["a\nb\r\nc", "\n\n", "a\r", "x\n"] {
        assert_eq!(lines_of(s), s.lines().collect::<Vec<&str>>());
    }
    assert_eq!(splitn("a:b:c", 2, ':'), "a:b:c".splitn(2, ':').collect::<Vec<&str>>());
    assert_eq!(find("abcabc", "ca"), Some(2));
    assert_eq!(find("abc", "x"), None);
    assert_eq!(to_lower("AbÉ"), "AbÉ".to_ascii_lowercase());
    assert_eq!(to_upper("abé"), "abé".to_ascii_uppercase());
    assert!(eq_ignoring_case("WPA2", "wpa2"));
}

#[test]
fn numbers_are_written_and_read() {
    for n in [0, 7, 10, 4_294_967_296, u64::MAX] {
        assert_eq!(to_decimal(n), n.to_string());
        assert_eq!(to_hex16(n), format!("{n:016x}"));
    }
    for n in [0u8, 9, 10, 255] {
        assert_eq!(parse_u8(&to_decimal(n as u64)), Some(n));
    }
    for n in [0, -1, 42, i64::MIN, i64::MAX] {
        assert_eq!(to_signed_decimal(n), n.to_string());
    }
    for s in ["0", "+7", "255", "256", "-1", "", "+", "007", "1 "] {
        assert_eq!(parse_u8(s), s.parse::<u8>().ok(), "{s}");
        assert_eq!(parse_u16(s), s.parse::<u16>().ok(), "{s}");
    }
}

#[test]
fn paths_are_joined_as_std_does() {
    for (dir, name) in [("/a", "b"), ("/a/", "b"), ("", "b"), ("/a", "/b")] {
        let joined = std::path::Path::new(dir).join(name);
        assert_eq!(path_in(dir, name), joined.to_str().unwrap(), "{dir} {name}");
    }
    assert_eq!(join_path("/state", "network-intent.toml"), "/state/network-intent.toml");
    for p in ["/a/b.flac", "/a/.hidden", "b", "/a/b.", "/a/b.c.d"] {
        let path = std::path::Path::new(p);
        assert_eq!(extension_of_path(p), path.extension().map(|e| e.to_str().unwrap()), "{p}");
        assert_eq!(file_name_of(p), path.file_name().map(|e| e.to_str().unwrap()), "{p}");
    }
    assert_eq!(parent_path("/a/b"), "/a");
}

#[test]
fn sorting_orders_and_keeps() {
    let mut v: Vec<String> = ["b", "a", "é", "", "ab", "a", "Z"].iter().map(|s| s.to_string()).collect();
    let sorted = sort_texts(v.clone());
    v.sort();
    assert_eq!(sorted, v);
}

#[test]
fn maps_keep_the_last_value() {
    let mut m = TextMap::new();
    m.insert("a".to_string(), "1".to_string());
    m.insert("b".to_string(), "2".to_string());
    m.insert("a".to_string(), "3".to_string());
    assert_eq!(m.get("a").map(String::as_str), Some("3"));
    assert_eq!(m.get("c"), None);
    assert_eq!(m.entries.len(), 2);
}

#[test]
fn settings_are_shown_with_their_kind() {
    // A text is shown as it is written in source text.
    assert!(show(&ConfigValue::Text("a\"b".to_string())).contains("\"a\\\"b\""));
    assert!(show(&ConfigValue::Integer(-3)).contains("-3"));
}

#[test]
fn the_role_is_read_from_the_settings() {
    let role = |raw: &str| read_multiroom_role(&Some(raw.to_string()));
    assert_eq!(role("role = \"source\"\n"), Some(Role::Source));
    assert_eq!(role("role = \"receiver\"\nalsa_pcm = \"evo\"\n"), Some(Role::Receiver));
    assert_eq!(role("role = \"conductor\"\n"), None);
    assert_eq!(role("role = 3\n"), None);
    assert_eq!(role("alsa_pcm = \"evo\"\n"), None);
    assert_eq!(role("not toml"), None);
    assert_eq!(read_multiroom_role(&None), None);
    assert_eq!(recognised_role(&Some("auto".to_string())), Some(Role::Auto));
}

#[test]
fn the_default_topology_ends_in_a_delivery() {
    let plain = default_topology(None);
    assert_eq!(plain.chain.first().unwrap().kind, StageKind::Source);
    assert_eq!(plain.chain.last().unwrap().kind, StageKind::Delivery);
    let steps = audio_distribution_admission();
    assert_eq!(steps.len(), 8);
    assert!(steps.iter().all(|s| !s.context().is_empty()));
}
