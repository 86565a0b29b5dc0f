//! The settings of the library plugins, and what every plugin does before it is loaded.

use evo_device_audio::artwork;
use evo_device_audio::artwork::plugin::{ArtworkLocalPlugin, REQUEST_ARTWORK_RESOLVE};
use evo_device_audio::composition::plugin::{AlsaCompositionPlugin, RoutingProbe};
use evo_device_audio::config_value::{ConfigEntry, ConfigTable, ConfigValue};
use evo_device_audio::error::PluginError;
use evo_device_audio::metadata;
use evo_device_audio::metadata::config::MetadataProfile;
use evo_device_audio::metadata::plugin::{MetadataLocalPlugin, REQUEST_METADATA_QUERY};
use evo_device_audio::network::plugin::NetworkNmPlugin;
use evo_device_audio::request::PluginRequest;

fn config_value(v: &toml::Value) -> ConfigValue {
    match v {
        toml::Value::String(s) => ConfigValue::Text(s.clone()),
        toml::Value::Integer(n) => ConfigValue::Integer(*n),
        toml::Value::Boolean(b) => ConfigValue::Boolean(*b),
        toml::Value::Array(items) => ConfigValue::List(items.iter().map(config_value).collect()),
        toml::Value::Table(t) => ConfigValue::Table(config_table(t)),
        other => ConfigValue::Other(other.to_string()),
    }
}

fn config_table(t: &toml::Table) -> ConfigTable {
    ConfigTable { entries: t.iter().map(|(k, v)| ConfigEntry { key: k.clone(), value: config_value(v) }).collect() }
}

fn read(raw: &str) -> ConfigTable {
    let t: toml::Table = raw.parse().unwrap();
    config_table(&t)
}

#[test]
fn config_empty_table() {
    let c = artwork::config::PluginConfig::from_toml_table(&read("")).unwrap();
    assert!(c.library_roots.is_empty());

    let c = metadata::config::PluginConfig::from_toml_table(&read("")).unwrap();
    assert!(c.library_roots.is_empty());
    assert_eq!(c.metadata_profile, MetadataProfile::Standard);
}

#[test]
fn config_roots_list() {
    let t = read(
        r#"
            [library]
            roots = ["/a/music", "/b/usb"]
        "#,
    );
    let c = artwork::config::PluginConfig::from_toml_table(&t).unwrap();
    assert_eq!(c.library_roots.len(), 2);
    assert_eq!(c.library_roots[0], "/a/music");

    let c = metadata::config::PluginConfig::from_toml_table(&t).unwrap();
    assert_eq!(c.library_roots.len(), 2);
    assert_eq!(c.library_roots[0], "/a/music");
    assert_eq!(c.metadata_profile, MetadataProfile::Standard);
}

#[test]
fn metadata_profile_extended() {
    let t = read(
        r#"
            [metadata]
            profile = "extended"
        "#,
    );
    let c = metadata::config::PluginConfig::from_toml_table(&t).unwrap();
    assert_eq!(c.metadata_profile, MetadataProfile::Extended);
}

#[test]
fn metadata_profile_rejects_garbage() {
    let t = read(
        r#"
            [metadata]
            profile = "audiophile"
        "#,
    );
    let e = metadata::config::PluginConfig::from_toml_table(&t).unwrap_err();
    assert_eq!(e.key, "metadata.profile");
}

#[test]
fn settings_of_the_wrong_kind_are_refused() {
    for (raw, key) in [
        ("library = 3", "library"),
        ("[library]\nroot = \"a\"", "library.root"),
        ("[library]\nroots = [3]", "library.roots[0]"),
        ("[library]\nroots = [\"relative\"]", "library.roots[0]"),
        ("[library]\nroots = [\"/a\", \" \"]", "library.roots[1]"),
    ] {
        let e = artwork::config::PluginConfig::from_toml_table(&read(raw)).unwrap_err();
        assert_eq!(e.key, key, "{}", e.to_text());
        let e = metadata::config::PluginConfig::from_toml_table(&read(raw)).unwrap_err();
        assert_eq!(e.key, key, "{}", e.to_text());
    }
}

fn request(request_type: &str, past_deadline: bool) -> PluginRequest {
    PluginRequest { request_type: request_type.to_string(), past_deadline, payload: vec![] }
}

#[test]
fn lib_health_unhealthy_before_load() {
    assert!(ArtworkLocalPlugin::new().health_check().is_some());
    assert!(MetadataLocalPlugin::new().health_check().is_some());
    assert!(NetworkNmPlugin::new().health_check().is_some());
    assert!(AlsaCompositionPlugin::new().health_check(&RoutingProbe::Configured).is_some());
}

#[test]
fn lib_handle_rejects_before_load() {
    let mut p = ArtworkLocalPlugin::new();
    let e = p.admit_request(&request(REQUEST_ARTWORK_RESOLVE, false)).unwrap_err();
    assert!(matches!(e, PluginError::Permanent(_)));
    assert_eq!(p.requests_handled(), 0);

    let mut p = MetadataLocalPlugin::new();
    let e = p.handle_request(&request(REQUEST_METADATA_QUERY, false), &vec![]).unwrap().unwrap_err();
    assert!(matches!(e, PluginError::Permanent(_)));
    assert_eq!(p.requests_handled(), 0);
}

fn loaded_artwork() -> ArtworkLocalPlugin {
    let mut p = ArtworkLocalPlugin::new();
    p.load(&read(""), "/state").unwrap();
    p
}

#[test]
fn handle_unknown_request_type() {
    let mut p = loaded_artwork();
    let e = p.admit_request(&request("metadata.query", false)).unwrap_err();
    assert!(matches!(e, PluginError::Permanent(_)));
    assert_eq!(p.requests_handled(), 1);
}

#[test]
fn handle_past_deadline() {
    let mut p = loaded_artwork();
    let e = p.admit_request(&request(REQUEST_ARTWORK_RESOLVE, true)).unwrap_err();
    assert!(matches!(e, PluginError::Transient(_)));
    assert_eq!(p.requests_handled(), 0);
}

#[test]
fn a_loaded_artwork_plugin_is_healthy_until_it_is_unloaded() {
    let mut p = loaded_artwork();
    assert!(p.health_check().is_none());
    assert!(p.admit_request(&request(REQUEST_ARTWORK_RESOLVE, false)).is_ok());
    assert_eq!(p.request_types(), vec![REQUEST_ARTWORK_RESOLVE]);
    p.unload();
    assert!(p.health_check().is_some());
}
