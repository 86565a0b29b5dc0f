//! The settings of the multi-room plugin.

use crate::text::{opt_text, text_eq, texts};
use vstd::prelude::*;

verus! {

/// How far ahead of the sound the source sends, where nothing is set, in milliseconds.
pub const DEFAULT_LEADER_MS: u64 = 200;

/// What a device does.
#[derive(Debug, Clone, Copy, PartialEq, Eq, Structural)]
pub enum Role {
    /// It sends audio to a group.
    Source,
    /// It plays the audio that reaches it.
    Receiver,
    /// It only watches.
    Auto,
}

impl Role {
    /// The name of a role.
    pub open spec fn name(self) -> Seq<char> {
        match self {
            Role::Source => "source"@,
            Role::Receiver => "receiver"@,
            Role::Auto => "auto"@,
        }
    }

    /// The name under which a role travels.
    pub fn as_wire_str(&self) -> (r: &'static str)
        ensures
            r@ == self.name(),
    {
        match self {
            Role::Source => "source",
            Role::Receiver => "receiver",
            Role::Auto => "auto",
        }
    }

    /// The role of a name.
    pub fn from_wire_str(name: &str) -> (r: Option<Role>)
        ensures
            match r {
                Some(role) => role.name() == name@,
                None => forall|role: Role| #[trigger] role.name() != name@,
            },
    {
        if text_eq(name, "source") {
            Some(Role::Source)
        } else if text_eq(name, "receiver") {
            Some(Role::Receiver)
        } else if text_eq(name, "auto") {
            Some(Role::Auto)
        } else {
            None
        }
    }
}

/// The settings of the plugin.
#[derive(Debug, Clone)]
pub struct PluginConfig {
    pub role: Role,
    /// The group that the source sends to.
    pub group_id: Option<String>,
    /// The devices of the group.
    pub group_members: Vec<String>,
    /// Where the devices of the group are reached.
    pub group_member_addresses: Vec<String>,
    /// The device that sound goes to.
    pub alsa_pcm: String,
    /// The device that the source records; empty for a test tone.
    pub source_pcm: String,
    /// How far ahead of the sound the source sends, in milliseconds.
    pub leader_ms: u64,
}

/// [`PluginConfig`] over mathematical values.
#[verifier::ext_equal]
pub struct ConfigView {
    pub role: Role,
    pub group_id: Option<Seq<char>>,
    pub group_members: Seq<Seq<char>>,
    pub group_member_addresses: Seq<Seq<char>>,
    pub alsa_pcm: Seq<char>,
    pub source_pcm: Seq<char>,
    pub leader_ms: u64,
}

impl View for PluginConfig {
    type V = ConfigView;

    open spec fn view(&self) -> ConfigView {
        ConfigView {
            role: self.role,
            group_id: opt_text(self.group_id),
            group_members: texts(self.group_members@),
            group_member_addresses: texts(self.group_member_addresses@),
            alsa_pcm: self.alsa_pcm@,
            source_pcm: self.source_pcm@,
            leader_ms: self.leader_ms,
        }
    }
}

/// What a file of settings says: each of them may be left out.
#[derive(Debug, Clone)]
pub struct ConfigSeed {
    pub role: Option<Role>,
    pub group_id: Option<String>,
    pub group_members: Option<Vec<String>>,
    pub group_member_addresses: Option<Vec<String>>,
    pub alsa_pcm: Option<String>,
    pub source_pcm: Option<String>,
    pub leader_ms: Option<u64>,
}

/// The view of an optional list.
pub open spec fn list_or_empty(v: Option<Vec<String>>) -> Seq<Seq<char>> {
    match v {
        Some(l) => texts(l@),
        None => seq![],
    }
}

/// The settings where a file says nothing: no role, the device `evo`, the test tone.
pub open spec fn default_config() -> ConfigView {
    ConfigView {
        role: Role::Auto,
        group_id: None,
        group_members: seq![],
        group_member_addresses: seq![],
        alsa_pcm: "evo"@,
        source_pcm: seq![],
        leader_ms: DEFAULT_LEADER_MS,
    }
}

/// The settings of a file: what it says, and the defaults for the rest.
pub open spec fn config_of(seed: ConfigSeed) -> ConfigView {
    let d = default_config();
    ConfigView {
        role: match seed.role {
            Some(r) => r,
            None => d.role,
        },
        group_id: opt_text(seed.group_id),
        group_members: list_or_empty(seed.group_members),
        group_member_addresses: list_or_empty(seed.group_member_addresses),
        alsa_pcm: match seed.alsa_pcm {
            Some(s) => s@,
            None => d.alsa_pcm,
        },
        source_pcm: match seed.source_pcm {
            Some(s) => s@,
            None => d.source_pcm,
        },
        leader_ms: match seed.leader_ms {
            Some(n) => n,
            None => d.leader_ms,
        },
    }
}

impl Default for PluginConfig {
    fn default() -> (r: Self)
        ensures
            r@ == default_config(),
    {
        let r = PluginConfig {
            role: Role::Auto,
            group_id: None,
            group_members: Vec::new(),
            group_member_addresses: Vec::new(),
            alsa_pcm: "evo".to_owned(),
            source_pcm: String::new(),
            leader_ms: DEFAULT_LEADER_MS,
        };
        proof {
            assert(r@ =~= default_config());
        }
        r
    }
}

fn list_of(v: Option<Vec<String>>) -> (r: Vec<String>)
    ensures
        texts(r@) == list_or_empty(v),
{
    match v {
        Some(l) => l,
        None => {
            let r: Vec<String> = Vec::new();
            proof {
                assert(texts(r@) =~= list_or_empty(v));
            }
            r
        },
    }
}

impl PluginConfig {
    /// The settings of a file.
    pub fn from_seed(seed: ConfigSeed) -> (r: PluginConfig)
        ensures
            r@ == config_of(seed),
    {
        let d = PluginConfig::default();
        PluginConfig {
            role: match seed.role {
                Some(r) => r,
                None => d.role,
            },
            group_id: seed.group_id,
            group_members: list_of(seed.group_members),
            group_member_addresses: list_of(seed.group_member_addresses),
            alsa_pcm: match seed.alsa_pcm {
                Some(s) => s,
                None => d.alsa_pcm,
            },
            source_pcm: match seed.source_pcm {
                Some(s) => s,
                None => d.source_pcm,
            },
            leader_ms: match seed.leader_ms {
                Some(n) => n,
                None => d.leader_ms,
            },
        }
    }
}

/// A role is found again by its name.
pub proof fn role_names_differ(a: Role, b: Role)
    ensures
        a.name() == b.name() <==> a == b,
{
    reveal_strlit("source");
    reveal_strlit("receiver");
    reveal_strlit("auto");
    assert("source"@.len() == 6);
    assert("receiver"@.len() == 8);
    assert("auto"@.len() == 4);
}

/// What a file says counts, and where it says nothing there is no role, no group, the
/// device `evo`, the test tone and a leader of 200 milliseconds.
pub proof fn settings_have_their_defaults(seed: ConfigSeed)
    ensures
        ({
            let c = config_of(seed);
            &&& seed.role matches Some(r) ==> c.role == r
            &&& seed.role is None ==> c.role == Role::Auto
            &&& seed.group_id matches Some(g) ==> c.group_id == Some(g@)
            &&& seed.group_id is None ==> c.group_id is None
            &&& seed.group_members matches Some(v) ==> c.group_members == texts(v@)
            &&& seed.group_member_addresses matches Some(v) ==> c.group_member_addresses == texts(v@)
            &&& seed.alsa_pcm matches Some(s) ==> c.alsa_pcm == s@
            &&& seed.alsa_pcm is None ==> c.alsa_pcm == "evo"@
            &&& seed.source_pcm matches Some(s) ==> c.source_pcm == s@
            &&& seed.source_pcm is None ==> c.source_pcm.len() == 0
            &&& seed.leader_ms matches Some(n) ==> c.leader_ms == n
            &&& seed.leader_ms is None ==> c.leader_ms == 200
        }),
{
}

/// Each field is seen under its own name, as it is.
pub proof fn fields_are_seen_under_their_names(plugin_config: PluginConfig)
    ensures
        plugin_config@.role == plugin_config.role,
        plugin_config@.group_id == opt_text(plugin_config.group_id),
        plugin_config@.group_members == texts(plugin_config.group_members@),
        plugin_config@.group_member_addresses == texts(plugin_config.group_member_addresses@),
        plugin_config@.alsa_pcm == plugin_config.alsa_pcm@,
        plugin_config@.source_pcm == plugin_config.source_pcm@,
        plugin_config@.leader_ms == plugin_config.leader_ms,
{
}

} // verus!
