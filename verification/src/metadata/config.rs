//! The settings of the metadata plugin.

use crate::config_value::{ConfigTable, ConfigValue};
use crate::library::roots::{
    complain_not_a_table, library_roots, library_roots_of, not_a_table, ConfigError, ConfigErrorView,
};
use crate::number::{debug_text, quoted};
use crate::text::{cat, lowered, text_eq, texts, to_lower, trim, trimmed};
use vstd::prelude::*;

verus! {

/// How much an answer shows.
#[derive(Debug, Clone, Copy, PartialEq, Eq, Structural)]
pub enum MetadataProfile {
    /// What every player shows.
    Standard,
    /// All there is.
    Extended,
}

impl MetadataProfile {
    /// The name of a profile.
    pub open spec fn name(self) -> Seq<char> {
        match self {
            MetadataProfile::Standard => "standard"@,
            MetadataProfile::Extended => "extended"@,
        }
    }

    /// The name of a profile.
    pub fn as_wire(self) -> (r: &'static str)
        ensures
            r@ == self.name(),
    {
        match self {
            MetadataProfile::Standard => "standard",
            MetadataProfile::Extended => "extended",
        }
    }
}

impl Default for MetadataProfile {
    fn default() -> (r: Self)
        ensures
            r == MetadataProfile::Standard,
    {
        MetadataProfile::Standard
    }
}

/// The settings of the plugin.
#[derive(Debug, Clone)]
pub struct PluginConfig {
    /// The directories of the library.
    pub library_roots: Vec<String>,
    pub metadata_profile: MetadataProfile,
}

/// [`PluginConfig`] over mathematical values.
#[verifier::ext_equal]
pub struct ConfigView {
    pub library_roots: Seq<Seq<char>>,
    pub metadata_profile: MetadataProfile,
}

impl View for PluginConfig {
    type V = ConfigView;

    open spec fn view(&self) -> ConfigView {
        ConfigView { library_roots: texts(self.library_roots@), metadata_profile: self.metadata_profile }
    }
}

/// The settings where nothing is set: no roots, and the standard profile.
pub open spec fn default_config() -> ConfigView {
    ConfigView { library_roots: seq![], metadata_profile: MetadataProfile::Standard }
}

/// The profile that a table names, in whatever case; the standard one where it names
/// none.
pub open spec fn profile_in(table: ConfigTable) -> Result<MetadataProfile, ConfigErrorView> {
    match table.text_at("profile"@) {
        Some(raw) => {
            let s = trimmed(raw);
            if s.len() == 0 || lowered(s) == "standard"@ {
                Ok(MetadataProfile::Standard)
            } else if lowered(s) == "extended"@ {
                Ok(MetadataProfile::Extended)
            } else {
                Err(
                    ConfigErrorView {
                        key: "metadata.profile"@,
                        message: "expected \"standard\" or \"extended\", got "@ + debug_text(s),
                    },
                )
            }
        },
        None => Ok(MetadataProfile::Standard),
    }
}

/// The profile that the settings name.
pub open spec fn profile_of(table: ConfigTable) -> Result<MetadataProfile, ConfigErrorView> {
    match table.at("metadata"@) {
        None => Ok(MetadataProfile::Standard),
        Some(ConfigValue::Table(t)) => profile_in(t),
        Some(v) => Err(not_a_table("metadata"@, v)),
    }
}

/// The settings in a table, or the first complaint about them.
pub open spec fn config_of(table: ConfigTable) -> Result<ConfigView, ConfigErrorView> {
    match library_roots(table) {
        Ok(roots) => match profile_of(table) {
            Ok(profile) => Ok(ConfigView { library_roots: roots, metadata_profile: profile }),
            Err(e) => Err(e),
        },
        Err(e) => Err(e),
    }
}

/// The view of settings or a complaint.
pub open spec fn config_result(r: Result<PluginConfig, ConfigError>) -> Result<ConfigView, ConfigErrorView> {
    match r {
        Ok(c) => Ok(c@),
        Err(e) => Err(e@),
    }
}

/// The view of a profile or a complaint.
pub open spec fn profile_result(r: Result<MetadataProfile, ConfigError>) -> Result<MetadataProfile, ConfigErrorView> {
    match r {
        Ok(p) => Ok(p),
        Err(e) => Err(e@),
    }
}

/// Reads the profile out of a table.
pub fn parse_metadata_profile(table: &ConfigTable) -> (r: Result<MetadataProfile, ConfigError>)
    ensures
        profile_result(r) == profile_in(*table),
{
    let raw = match table.get_text("profile") {
        Some(s) => s,
        None => return Ok(MetadataProfile::Standard),
    };
    let s = trim(raw);
    if s.is_empty() {
        return Ok(MetadataProfile::Standard);
    }
    let low = to_lower(s);
    if text_eq(low.as_str(), "standard") {
        Ok(MetadataProfile::Standard)
    } else if text_eq(low.as_str(), "extended") {
        Ok(MetadataProfile::Extended)
    } else {
        Err(
            ConfigError {
                key: "metadata.profile".to_owned(),
                message: cat("expected \"standard\" or \"extended\", got ", quoted(s).as_str()),
            },
        )
    }
}

impl PluginConfig {
    /// The settings where nothing is set.
    pub fn defaults() -> (r: PluginConfig)
        ensures
            r@ == default_config(),
    {
        let r = PluginConfig { library_roots: Vec::new(), metadata_profile: MetadataProfile::Standard };
        proof {
            assert(r@ =~= default_config());
        }
        r
    }

    /// Reads the settings out of a table.
    pub fn from_toml_table(table: &ConfigTable) -> (r: Result<PluginConfig, ConfigError>)
        ensures
            config_result(r) == config_of(*table),
    {
        let library_roots = match library_roots_of(table) {
            Ok(v) => v,
            Err(e) => return Err(e),
        };
        let profile = match table.get("metadata") {
            None => Ok(MetadataProfile::Standard),
            Some(ConfigValue::Table(t)) => parse_metadata_profile(t),
            Some(v) => Err(complain_not_a_table("metadata", v)),
        };
        match profile {
            Ok(metadata_profile) => Ok(PluginConfig { library_roots, metadata_profile }),
            Err(e) => Err(e),
        }
    }
}

/// The profile is the standard one unless the extended one is asked for by name, in
/// whatever case; any other name is refused.
pub proof fn profiles_are_named(table: ConfigTable, metadata: ConfigTable)
    ensures
        table.at("metadata"@) is None ==> profile_of(table) == Ok::<MetadataProfile, ConfigErrorView>(
            MetadataProfile::Standard,
        ),
        table.at("metadata"@) == Some(ConfigValue::Table(metadata)) ==> profile_of(table) == profile_in(metadata),
        metadata.text_at("profile"@) is None ==> profile_in(metadata) == Ok::<MetadataProfile, ConfigErrorView>(
            MetadataProfile::Standard,
        ),
        metadata.text_at("profile"@) matches Some(raw) ==> {
            &&& trimmed(raw).len() == 0 || lowered(trimmed(raw)) == "standard"@ ==> profile_in(metadata) == Ok::<
                MetadataProfile,
                ConfigErrorView,
            >(MetadataProfile::Standard)
            &&& lowered(trimmed(raw)) == "extended"@ ==> profile_in(metadata) == Ok::<MetadataProfile, ConfigErrorView>(
                MetadataProfile::Extended,
            )
            &&& trimmed(raw).len() > 0 && lowered(trimmed(raw)) != "standard"@ && lowered(trimmed(raw)) != "extended"@
                ==> profile_in(metadata) == Err::<MetadataProfile, ConfigErrorView>(
                (ConfigErrorView {
                    key: "metadata.profile"@,
                    message: "expected \"standard\" or \"extended\", got "@ + debug_text(trimmed(raw)),
                }),
            )
        },
{
    reveal_strlit("standard");
    reveal_strlit("extended");
    assert("standard"@[0] == 's' && "extended"@[0] == 'e');
    if let Some(raw) = metadata.text_at("profile"@) {
        assert(lowered(trimmed(raw)).len() == trimmed(raw).len());
        assert("extended"@.len() == 8);
    }
}

/// The settings are the library's roots and the profile, or the first complaint of the
/// two.
pub proof fn settings_are_roots_and_profile(table: ConfigTable)
    ensures
        library_roots(table) matches Err(e) ==> config_of(table) == Err::<ConfigView, ConfigErrorView>(e),
        library_roots(table) is Ok ==> (profile_of(table) matches Err(e) ==> config_of(table) == Err::<
            ConfigView,
            ConfigErrorView,
        >(e)),
        library_roots(table) matches Ok(roots) ==> (profile_of(table) matches Ok(p) ==> (config_of(table) matches Ok(c)
            && c.library_roots == roots && c.metadata_profile == p)),
        MetadataProfile::Standard.name() == "standard"@,
        MetadataProfile::Extended.name() == "extended"@,
{
}

/// Each field is seen under its own name, as it is.
pub proof fn fields_are_seen_under_their_names(plugin_config: PluginConfig)
    ensures
        plugin_config@.library_roots == texts(plugin_config.library_roots@),
        plugin_config@.metadata_profile == plugin_config.metadata_profile,
{
}

} // verus!
