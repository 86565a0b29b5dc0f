//! The settings of the network plugin.

use crate::config_value::ConfigTable;
use crate::error::{ErrorView, PluginError};
use crate::network::captive_state::CaptiveCredentialPolicy;
use crate::network::secrets::{derive_secret_key, key_domain, sha256};
use crate::text::{blank, cat, is_blank, lowered, text_eq, to_lower, trim, trimmed, trimming_is_idempotent};
use vstd::prelude::*;
use vstd::utf8::encode_utf8;

verus! {

/// How captive-portal credentials are handled.
#[derive(Debug, Clone, Copy, PartialEq, Eq, Structural)]
pub struct CaptiveConfig {
    pub credential_policy: CaptiveCredentialPolicy,
    pub retry_budget: u32,
    pub replay_window_sec: u64,
}

impl Default for CaptiveConfig {
    fn default() -> (r: Self)
        ensures
            r == (CaptiveConfig {
                credential_policy: CaptiveCredentialPolicy::ReplayAllowed,
                retry_budget: 2,
                replay_window_sec: 900,
            }),
    {
        CaptiveConfig {
            credential_policy: CaptiveCredentialPolicy::ReplayAllowed,
            retry_budget: 2,
            replay_window_sec: 900,
        }
    }
}

/// The settings of the network plugin.
#[derive(Debug, Clone)]
pub struct PluginConfig {
    pub nmcli_path: String,
    pub default_wifi_iface: String,
    pub captive: CaptiveConfig,
    pub secret_key: Option<[u8; 32]>,
    pub require_encrypted_secrets: bool,
    pub nmcli_timeout_ms: u64,
    pub curl_timeout_ms: u64,
    pub scan_cache_ttl_ms: u64,
}

/// [`PluginConfig`] over mathematical values.
#[verifier::ext_equal]
pub struct ConfigView {
    pub nmcli_path: Seq<char>,
    pub default_wifi_iface: Seq<char>,
    pub captive: CaptiveConfig,
    pub secret_key: Option<Seq<u8>>,
    pub require_encrypted_secrets: bool,
    pub nmcli_timeout_ms: u64,
    pub curl_timeout_ms: u64,
    pub scan_cache_ttl_ms: u64,
}

/// The view of an optional key.
pub open spec fn key_view(k: Option<[u8; 32]>) -> Option<Seq<u8>> {
    match k {
        Some(b) => Some(b@),
        None => None,
    }
}

impl View for PluginConfig {
    type V = ConfigView;

    open spec fn view(&self) -> ConfigView {
        ConfigView {
            nmcli_path: self.nmcli_path@,
            default_wifi_iface: self.default_wifi_iface@,
            captive: self.captive,
            secret_key: key_view(self.secret_key),
            require_encrypted_secrets: self.require_encrypted_secrets,
            nmcli_timeout_ms: self.nmcli_timeout_ms,
            curl_timeout_ms: self.curl_timeout_ms,
            scan_cache_ttl_ms: self.scan_cache_ttl_ms,
        }
    }
}

/// What the environment says of secrets: the values of the two variables.
#[derive(Debug, Clone)]
pub struct SecretEnvironment {
    pub key: Option<String>,
    pub require: Option<String>,
}

/// Whether a text switches something on.
pub open spec fn means_yes(raw: Seq<char>) -> bool {
    let v = lowered(trimmed(raw));
    v == "1"@ || v == "true"@ || v == "yes"@ || v == "on"@
}

/// Decides [`means_yes`].
pub fn is_yes(raw: &str) -> (r: bool)
    ensures
        r == means_yes(raw@),
{
    let v = to_lower(trim(raw));
    text_eq(v.as_str(), "1") || text_eq(v.as_str(), "true") || text_eq(v.as_str(), "yes") || text_eq(
        v.as_str(),
        "on",
    )
}

/// The key that key material of the environment gives.
pub open spec fn environment_key(env: SecretEnvironment) -> Option<Seq<u8>> {
    match env.key {
        Some(raw) => Some(sha256(encode_utf8(key_domain()) + encode_utf8(trimmed(trimmed(raw@))))),
        None => None,
    }
}

/// The settings where the table says nothing.
pub open spec fn config_defaults(env: SecretEnvironment) -> ConfigView {
    ConfigView {
        nmcli_path: "/usr/bin/nmcli"@,
        default_wifi_iface: "wlan0"@,
        captive: CaptiveConfig {
            credential_policy: CaptiveCredentialPolicy::ReplayAllowed,
            retry_budget: 2,
            replay_window_sec: 900,
        },
        secret_key: environment_key(env),
        require_encrypted_secrets: match env.require {
            Some(raw) => means_yes(raw@),
            None => false,
        },
        nmcli_timeout_ms: 8000,
        curl_timeout_ms: 30000,
        scan_cache_ttl_ms: 3000,
    }
}

/// The table in which the captive settings stand: `[captive]`, or the whole.
pub open spec fn captive_table(table: ConfigTable) -> ConfigTable {
    match table.table_at("captive"@) {
        Some(t) => t,
        None => table,
    }
}

/// The table in which the settings of secrets stand: `[secrets]`, or the whole.
pub open spec fn secrets_table(table: ConfigTable) -> ConfigTable {
    match table.table_at("secrets"@) {
        Some(t) => t,
        None => table,
    }
}

/// Whether a text setting is there and blank.
pub open spec fn blank_at(table: ConfigTable, key: Seq<char>) -> bool {
    table.text_at(key) matches Some(s) && is_blank(s)
}

/// Whether an integer setting is there and below `min`.
pub open spec fn below_at(table: ConfigTable, key: Seq<char>, min: int) -> bool {
    table.integer_at(key) matches Some(v) && v < min
}

/// The credential policy of a name.
pub open spec fn policy_named(raw: Seq<char>) -> Option<CaptiveCredentialPolicy> {
    let v = lowered(trimmed(raw));
    if v == "replay_allowed"@ {
        Some(CaptiveCredentialPolicy::ReplayAllowed)
    } else if v == "single_use_ticket"@ {
        Some(CaptiveCredentialPolicy::SingleUseTicket)
    } else if v == "manual_after_failure"@ {
        Some(CaptiveCredentialPolicy::ManualAfterFailure)
    } else {
        None
    }
}

/// The first complaint about a table, where there is one.
pub open spec fn config_complaint(table: ConfigTable) -> Option<Seq<char>> {
    let captive = captive_table(table);
    if blank_at(table, "nmcli_path"@) {
        Some("nmcli_path cannot be empty"@)
    } else if blank_at(table, "wifi_iface"@) {
        Some("wifi_iface cannot be empty"@)
    } else if below_at(table, "nmcli_timeout_ms"@, 100) {
        Some("nmcli_timeout_ms must be >= 100"@)
    } else if below_at(table, "curl_timeout_ms"@, 100) {
        Some("curl_timeout_ms must be >= 100"@)
    } else if below_at(table, "scan_cache_ttl_ms"@, 0) {
        Some("scan_cache_ttl_ms must be >= 0"@)
    } else if captive.text_at("credential_policy"@) matches Some(p) && policy_named(p) is None {
        Some("invalid captive credential_policy: "@ + captive.text_at("credential_policy"@)->0)
    } else if below_at(captive, "retry_budget"@, 1) {
        Some("captive retry_budget must be >= 1"@)
    } else if below_at(captive, "replay_window_sec"@, 1) {
        Some("captive replay_window_sec must be >= 1"@)
    } else {
        None
    }
}

/// A text setting without the white space at its ends, or its default.
pub open spec fn text_or(table: ConfigTable, key: Seq<char>, default: Seq<char>) -> Seq<char> {
    match table.text_at(key) {
        Some(s) => trimmed(s),
        None => default,
    }
}

/// An integer setting, or its default.
pub open spec fn count_or(table: ConfigTable, key: Seq<char>, default: u64) -> u64 {
    match table.integer_at(key) {
        Some(v) => v as u64,
        None => default,
    }
}

/// The settings that a table gives, where there is no complaint about it.
pub open spec fn config_of(table: ConfigTable, env: SecretEnvironment) -> ConfigView {
    let base = config_defaults(env);
    let captive = captive_table(table);
    ConfigView {
        nmcli_path: text_or(table, "nmcli_path"@, base.nmcli_path),
        default_wifi_iface: text_or(table, "wifi_iface"@, base.default_wifi_iface),
        captive: CaptiveConfig {
            credential_policy: match captive.text_at("credential_policy"@) {
                Some(p) => policy_named(p)->0,
                None => base.captive.credential_policy,
            },
            retry_budget: match captive.integer_at("retry_budget"@) {
                Some(v) => v as u32,
                None => base.captive.retry_budget,
            },
            replay_window_sec: count_or(captive, "replay_window_sec"@, base.captive.replay_window_sec),
        },
        secret_key: base.secret_key,
        require_encrypted_secrets: match secrets_table(table).boolean_at("require_encrypted"@) {
            Some(b) => b,
            None => base.require_encrypted_secrets,
        },
        nmcli_timeout_ms: count_or(table, "nmcli_timeout_ms"@, base.nmcli_timeout_ms),
        curl_timeout_ms: count_or(table, "curl_timeout_ms"@, base.curl_timeout_ms),
        scan_cache_ttl_ms: count_or(table, "scan_cache_ttl_ms"@, base.scan_cache_ttl_ms),
    }
}

fn policy_of(raw: &str) -> (r: Option<CaptiveCredentialPolicy>)
    ensures
        r == policy_named(raw@),
{
    let v = to_lower(trim(raw));
    if text_eq(v.as_str(), "replay_allowed") {
        Some(CaptiveCredentialPolicy::ReplayAllowed)
    } else if text_eq(v.as_str(), "single_use_ticket") {
        Some(CaptiveCredentialPolicy::SingleUseTicket)
    } else if text_eq(v.as_str(), "manual_after_failure") {
        Some(CaptiveCredentialPolicy::ManualAfterFailure)
    } else {
        None
    }
}

/// The views of a reading of settings.
pub open spec fn config_result(r: Result<PluginConfig, PluginError>) -> Result<ConfigView, ErrorView> {
    match r {
        Ok(c) => Ok(c@),
        Err(e) => Err(e@),
    }
}

impl PluginConfig {
    /// The settings where the table says nothing.
    pub fn defaults(env: &SecretEnvironment) -> (r: PluginConfig)
        ensures
            r@ == config_defaults(*env),
    {
        let secret_key = match &env.key {
            Some(raw) => Some(derive_secret_key(trim(raw.as_str()))),
            None => None,
        };
        let require_encrypted_secrets = match &env.require {
            Some(raw) => is_yes(raw.as_str()),
            None => false,
        };
        PluginConfig {
            nmcli_path: "/usr/bin/nmcli".to_owned(),
            default_wifi_iface: "wlan0".to_owned(),
            captive: CaptiveConfig::default(),
            secret_key,
            require_encrypted_secrets,
            nmcli_timeout_ms: 8000,
            curl_timeout_ms: 30000,
            scan_cache_ttl_ms: 3000,
        }
    }

    /// Reads the settings out of a table.
    pub fn from_toml_table(table: &ConfigTable, env: &SecretEnvironment) -> (r: Result<PluginConfig, PluginError>)
        ensures
            config_result(r) == match config_complaint(*table) {
                Some(m) => Err::<ConfigView, ErrorView>(ErrorView::Permanent(m)),
                None => Ok::<ConfigView, ErrorView>(config_of(*table, *env)),
            },
    {
        let mut out = PluginConfig::defaults(env);
        if let Some(v) = table.get_text("nmcli_path") {
            if blank(v) {
                return Err(PluginError::Permanent("nmcli_path cannot be empty".to_owned()));
            }
            out.nmcli_path = trim(v).to_owned();
        }
        if let Some(v) = table.get_text("wifi_iface") {
            if blank(v) {
                return Err(PluginError::Permanent("wifi_iface cannot be empty".to_owned()));
            }
            out.default_wifi_iface = trim(v).to_owned();
        }
        if let Some(v) = table.get_integer("nmcli_timeout_ms") {
            if v < 100 {
                return Err(PluginError::Permanent("nmcli_timeout_ms must be >= 100".to_owned()));
            }
            out.nmcli_timeout_ms = v as u64;
        }
        if let Some(v) = table.get_integer("curl_timeout_ms") {
            if v < 100 {
                return Err(PluginError::Permanent("curl_timeout_ms must be >= 100".to_owned()));
            }
            out.curl_timeout_ms = v as u64;
        }
        if let Some(v) = table.get_integer("scan_cache_ttl_ms") {
            if v < 0 {
                return Err(PluginError::Permanent("scan_cache_ttl_ms must be >= 0".to_owned()));
            }
            out.scan_cache_ttl_ms = v as u64;
        }
        let captive = match table.get_table("captive") {
            Some(t) => t,
            None => table,
        };
        if let Some(v) = captive.get_text("credential_policy") {
            out.captive.credential_policy = match policy_of(v) {
                Some(p) => p,
                None => {
                    return Err(PluginError::Permanent(cat("invalid captive credential_policy: ", v)));
                },
            };
        }
        if let Some(v) = captive.get_integer("retry_budget") {
            if v < 1 {
                return Err(PluginError::Permanent("captive retry_budget must be >= 1".to_owned()));
            }
            out.captive.retry_budget = #[verifier::truncate] (v as u32);
        }
        if let Some(v) = captive.get_integer("replay_window_sec") {
            if v < 1 {
                return Err(PluginError::Permanent("captive replay_window_sec must be >= 1".to_owned()));
            }
            out.captive.replay_window_sec = v as u64;
        }
        let secrets = match table.get_table("secrets") {
            Some(t) => t,
            None => table,
        };
        if let Some(v) = secrets.get_boolean("require_encrypted") {
            out.require_encrypted_secrets = v;
        }
        Ok(out)
    }
}

/// Settings that are given are taken up, each from under its own name, and texts without
/// the white space around them; those that are not keep their defaults.
pub proof fn settings_are_taken_up(table: ConfigTable, env: SecretEnvironment)
    requires
        config_complaint(table) is None,
    ensures
        ({
            let c = config_of(table, env);
            &&& table.text_at("nmcli_path"@) matches Some(s) ==> c.nmcli_path == trimmed(s)
            &&& table.text_at("nmcli_path"@) is None ==> c.nmcli_path == "/usr/bin/nmcli"@
            &&& table.text_at("wifi_iface"@) matches Some(s) ==> c.default_wifi_iface == trimmed(s)
            &&& table.text_at("wifi_iface"@) is None ==> c.default_wifi_iface == "wlan0"@
            &&& table.integer_at("nmcli_timeout_ms"@) matches Some(v) ==> c.nmcli_timeout_ms == v && v >= 100
            &&& table.integer_at("nmcli_timeout_ms"@) is None ==> c.nmcli_timeout_ms == 8000
            &&& table.integer_at("curl_timeout_ms"@) matches Some(v) ==> c.curl_timeout_ms == v && v >= 100
            &&& table.integer_at("curl_timeout_ms"@) is None ==> c.curl_timeout_ms == 30000
            &&& table.integer_at("scan_cache_ttl_ms"@) matches Some(v) ==> c.scan_cache_ttl_ms == v && v >= 0
            &&& table.integer_at("scan_cache_ttl_ms"@) is None ==> c.scan_cache_ttl_ms == 3000
        }),
{
}

/// How credentials are handled is set in a table of its own, or else among the other
/// settings; so is whether secrets have to be sealed.
pub proof fn credential_settings_are_taken_up(table: ConfigTable, env: SecretEnvironment, t: ConfigTable)
    requires
        config_complaint(table) is None,
        table.table_at("captive"@) == Some(t) || (table.table_at("captive"@) is None && t == table),
    ensures
        ({
            let c = config_of(table, env).captive;
            &&& t.text_at("credential_policy"@) matches Some(p) ==> {
                &&& lowered(trimmed(p)) == "replay_allowed"@ ==> c.credential_policy
                    == CaptiveCredentialPolicy::ReplayAllowed
                &&& lowered(trimmed(p)) == "single_use_ticket"@ ==> c.credential_policy
                    == CaptiveCredentialPolicy::SingleUseTicket
                &&& lowered(trimmed(p)) == "manual_after_failure"@ ==> c.credential_policy
                    == CaptiveCredentialPolicy::ManualAfterFailure
            }
            &&& t.text_at("credential_policy"@) is None ==> c.credential_policy == CaptiveCredentialPolicy::ReplayAllowed
            &&& t.integer_at("retry_budget"@) matches Some(v) ==> v >= 1 && (v <= u32::MAX ==> c.retry_budget == v)
            &&& t.integer_at("retry_budget"@) is None ==> c.retry_budget == 2
            &&& t.integer_at("replay_window_sec"@) matches Some(v) ==> c.replay_window_sec == v && v >= 1
            &&& t.integer_at("replay_window_sec"@) is None ==> c.replay_window_sec == 900
        }),
{
    reveal_strlit("replay_allowed");
    reveal_strlit("single_use_ticket");
    reveal_strlit("manual_after_failure");
    assert("replay_allowed"@.len() == 14);
    assert("single_use_ticket"@.len() == 17);
    assert("manual_after_failure"@.len() == 20);
}

/// Whether secrets have to be sealed is set in a table of its own, or else among the
/// other settings, or else by the environment; the key comes from the environment alone.
pub proof fn sealing_is_settled(table: ConfigTable, env: SecretEnvironment, t: ConfigTable)
    requires
        table.table_at("secrets"@) == Some(t) || (table.table_at("secrets"@) is None && t == table),
    ensures
        t.boolean_at("require_encrypted"@) matches Some(b) ==> config_of(table, env).require_encrypted_secrets == b,
        t.boolean_at("require_encrypted"@) is None ==> (config_of(table, env).require_encrypted_secrets <==> (env.require matches
            Some(raw) && means_yes(raw@))),
        config_of(table, env).secret_key is Some <==> env.key is Some,
        env.key matches Some(raw) ==> config_of(table, env).secret_key == Some(
            sha256(encode_utf8("org.evoframework.network.nm:secret-key:v1:"@) + encode_utf8(trimmed(raw@))),
        ),
        config_of(table, env).secret_key == config_defaults(env).secret_key,
{
    if let Some(raw) = env.key {
        trimming_is_idempotent(raw@);
    }
}

/// Yes is said in four words, in whatever case.
pub proof fn yes_has_four_words(raw: Seq<char>)
    ensures
        means_yes(raw) <==> lowered(trimmed(raw)) == "1"@ || lowered(trimmed(raw)) == "true"@ || lowered(trimmed(raw))
            == "yes"@ || lowered(trimmed(raw)) == "on"@,
{
}

/// Settings are refused where a name is blank, a time too short, a budget or a window
/// without extent, or a policy unknown; and never otherwise.
pub proof fn senseless_settings_are_refused(table: ConfigTable, t: ConfigTable)
    requires
        table.table_at("captive"@) == Some(t) || (table.table_at("captive"@) is None && t == table),
    ensures
        config_complaint(table) is Some <==> (table.text_at("nmcli_path"@) matches Some(s) && is_blank(s)) || (
        table.text_at("wifi_iface"@) matches Some(s) && is_blank(s)) || (table.integer_at("nmcli_timeout_ms"@) matches Some(
            v,
        ) && v < 100) || (table.integer_at("curl_timeout_ms"@) matches Some(v) && v < 100) || (table.integer_at(
            "scan_cache_ttl_ms"@,
        ) matches Some(v) && v < 0) || (t.text_at("credential_policy"@) matches Some(p) && lowered(trimmed(p))
            != "replay_allowed"@ && lowered(trimmed(p)) != "single_use_ticket"@ && lowered(trimmed(p))
            != "manual_after_failure"@) || (t.integer_at("retry_budget"@) matches Some(v) && v < 1) || (t.integer_at(
            "replay_window_sec"@,
        ) matches Some(v) && v < 1),
{
}

/// Each field is seen under its own name, as it is.
pub proof fn fields_are_seen_under_their_names(plugin_config: PluginConfig)
    ensures
        plugin_config@.nmcli_path == plugin_config.nmcli_path@,
        plugin_config@.default_wifi_iface == plugin_config.default_wifi_iface@,
        plugin_config@.captive == plugin_config.captive,
        plugin_config@.secret_key == key_view(plugin_config.secret_key),
        plugin_config@.require_encrypted_secrets == plugin_config.require_encrypted_secrets,
        plugin_config@.nmcli_timeout_ms == plugin_config.nmcli_timeout_ms,
        plugin_config@.curl_timeout_ms == plugin_config.curl_timeout_ms,
        plugin_config@.scan_cache_ttl_ms == plugin_config.scan_cache_ttl_ms,
{
}

} // verus!
