//! The chain from what plays to what is heard, as it stands after the start.

use crate::composition::byte_flow::{AudioFormat, EndpointKind, PcmCodec};
use crate::multiroom::config::Role;
use crate::text::{cat, opt_text};
use vstd::prelude::*;

verus! {

/// What a stage of the chain does.
#[derive(Debug, Clone, Copy, PartialEq, Eq, Structural)]
pub enum StageKind {
    Source,
    Delivery,
}

/// A stage of the chain.
#[derive(Debug, Clone)]
pub struct ChainStage {
    pub kind: StageKind,
    pub plugin: String,
    pub format: AudioFormat,
    pub endpoint_kind: EndpointKind,
    pub endpoint_path: String,
}

/// How loudness is set.
#[derive(Debug, Clone, Copy, PartialEq, Eq, Structural)]
pub enum VolumeMode {
    Software,
}

/// The chain.
#[derive(Debug, Clone)]
pub struct DefaultTopology {
    pub target_key: String,
    pub display_name: String,
    pub chain: Vec<ChainStage>,
    pub volume_mode: VolumeMode,
    /// Loudness, in hundredths.
    pub volume_percent: u8,
    pub bit_perfect: bool,
}

/// The text that a TOML document holds under a key at its top, where it is a document and
/// holds one.
pub uninterp spec fn toml_text(raw: Seq<char>, key: Seq<char>) -> Option<Seq<char>>;

/// `toml::from_str` into a `toml::Value`, of which the entry `key` is taken where it is a
/// text. What comes of it depends on the document and the key alone.
#[verifier::external_body]
fn read_toml_text(raw: &str, key: &str) -> (r: Option<String>)
    ensures
        opt_text(r) == toml_text(raw@, key@),
{
    let parsed: toml::Value = toml::from_str(raw).ok()?;
    parsed.get(key).and_then(|v| v.as_str()).map(|s| s.to_string())
}

/// Whether a role is the one of a name, where there is a name and it is that of one.
pub open spec fn is_role_named(role: Option<Role>, name: Option<Seq<char>>) -> bool {
    match role {
        Some(r) => name == Some(r.name()),
        None => name is None || forall|r: Role| #[trigger] r.name() != name->0,
    }
}

/// The role of a name, where it is that of one.
pub fn recognised_role(name: &Option<String>) -> (r: Option<Role>)
    ensures
        is_role_named(r, opt_text(*name)),
{
    match name {
        Some(s) => Role::from_wire_str(s.as_str()),
        None => None,
    }
}

/// The role that the multi-room settings name, where there are settings and they name
/// one that there is.
pub fn read_multiroom_role(settings: &Option<String>) -> (r: Option<Role>)
    ensures
        match *settings {
            Some(raw) => is_role_named(r, toml_text(raw@, "role"@)),
            None => r is None,
        },
{
    match settings {
        Some(raw) => recognised_role(&read_toml_text(raw.as_str(), "role")),
        None => None,
    }
}

/// The end that a player writes to: the loopback where the device sends audio to others,
/// else the device's own output.
pub open spec fn source_path(role: Option<Role>) -> Seq<char> {
    if role == Some(Role::Source) {
        "hw:Loopback,0,0"@
    } else {
        "evo"@
    }
}

/// The name that is shown for the chain.
pub open spec fn chain_name(role: Option<Role>) -> Seq<char> {
    "Default delivery chain (44.1kHz/16-bit/stereo)"@ + if role == Some(Role::Source) {
        " — multi-room source-host (MPD → snd-aloop)"@
    } else {
        " — local playback / receiver"@
    }
}

/// The format of the chain.
pub open spec fn chain_format() -> AudioFormat {
    AudioFormat::Pcm { codec: PcmCodec::PcmS16Le, rate_hz: 44_100, channels: 2 }
}

/// Whether a stage is the one that a player stands at.
pub open spec fn is_player_stage(s: ChainStage, role: Option<Role>) -> bool {
    &&& s.kind == StageKind::Source
    &&& s.plugin@ == "org.evoframework.playback.mpd"@
    &&& s.format == chain_format()
    &&& s.endpoint_kind == EndpointKind::AlsaPcm
    &&& s.endpoint_path@ == source_path(role)
}

/// Whether a stage is the one from which sound goes out.
pub open spec fn is_output_stage(s: ChainStage) -> bool {
    &&& s.kind == StageKind::Delivery
    &&& s.plugin@ == "org.evoframework.delivery.alsa"@
    &&& s.format == chain_format()
    &&& s.endpoint_kind == EndpointKind::AlsaPcm
    &&& s.endpoint_path@ == "evo"@
}

fn stage(kind: StageKind, plugin: &str, path: &str) -> (r: ChainStage)
    ensures
        r.kind == kind,
        r.plugin@ == plugin@,
        r.format == chain_format(),
        r.endpoint_kind == EndpointKind::AlsaPcm,
        r.endpoint_path@ == path@,
{
    ChainStage {
        kind,
        plugin: plugin.to_owned(),
        format: AudioFormat::Pcm { codec: PcmCodec::PcmS16Le, rate_hz: 44_100, channels: 2 },
        endpoint_kind: EndpointKind::AlsaPcm,
        endpoint_path: path.to_owned(),
    }
}

/// The chain for the role that the multi-room settings name, if any: a player, and the
/// output behind it.
pub fn default_topology(multiroom_role: Option<Role>) -> (r: DefaultTopology)
    ensures
        r.target_key@ == "evo-device-audio:default"@,
        r.display_name@ == chain_name(multiroom_role),
        r.chain@.len() == 2,
        is_player_stage(r.chain@[0], multiroom_role),
        is_output_stage(r.chain@[1]),
        r.volume_mode == VolumeMode::Software,
        r.volume_percent == 50,
        !r.bit_perfect,
{
    let source = match multiroom_role {
        Some(Role::Source) => true,
        _ => false,
    };
    let path = if source {
        "hw:Loopback,0,0"
    } else {
        "evo"
    };
    let suffix = if source {
        " — multi-room source-host (MPD → snd-aloop)"
    } else {
        " — local playback / receiver"
    };
    let chain = vec![
        stage(StageKind::Source, "org.evoframework.playback.mpd", path),
        stage(StageKind::Delivery, "org.evoframework.delivery.alsa", "evo"),
    ];
    DefaultTopology {
        target_key: "evo-device-audio:default".to_owned(),
        display_name: cat("Default delivery chain (44.1kHz/16-bit/stereo)", suffix),
        chain,
        volume_mode: VolumeMode::Software,
        volume_percent: 50,
        bit_perfect: false,
    }
}

/// A plugin of the device, in the order in which they are admitted.
#[derive(Debug, Clone, Copy, PartialEq, Eq, Structural)]
pub enum AdmissionStep {
    RegisterShelves,
    RegisterWidgetKinds,
    AdmitComposition,
    AdmitDelivery,
    AdmitPlaybackOptions,
    AdmitPlaybackMpd,
    AdmitNetwork,
    AdmitMultiroom,
}

/// The order in which the device is put together: the screen before any plugin, the
/// playback options before the player that listens to them.
pub open spec fn admission_order() -> Seq<AdmissionStep> {
    seq![
        AdmissionStep::RegisterShelves,
        AdmissionStep::RegisterWidgetKinds,
        AdmissionStep::AdmitComposition,
        AdmissionStep::AdmitDelivery,
        AdmissionStep::AdmitPlaybackOptions,
        AdmissionStep::AdmitPlaybackMpd,
        AdmissionStep::AdmitNetwork,
        AdmissionStep::AdmitMultiroom,
    ]
}

/// The steps in which the device is put together. The first that fails ends it.
pub fn audio_distribution_admission() -> (r: Vec<AdmissionStep>)
    ensures
        r@ == admission_order(),
{
    let r = vec![
        AdmissionStep::RegisterShelves,
        AdmissionStep::RegisterWidgetKinds,
        AdmissionStep::AdmitComposition,
        AdmissionStep::AdmitDelivery,
        AdmissionStep::AdmitPlaybackOptions,
        AdmissionStep::AdmitPlaybackMpd,
        AdmissionStep::AdmitNetwork,
        AdmissionStep::AdmitMultiroom,
    ];
    proof {
        assert(r@ =~= admission_order());
    }
    r
}

impl AdmissionStep {
    /// What is said of a step that failed.
    pub open spec fn label(self) -> Seq<char> {
        match self {
            AdmissionStep::RegisterShelves => "registering Tier 2 audio shelves"@,
            AdmissionStep::RegisterWidgetKinds => "registering Tier 2 audio widget kinds"@,
            AdmissionStep::AdmitComposition => "admitting composition.alsa"@,
            AdmissionStep::AdmitDelivery => "admitting delivery.alsa"@,
            AdmissionStep::AdmitPlaybackOptions => "admitting playback.options"@,
            AdmissionStep::AdmitPlaybackMpd => "admitting playback.mpd"@,
            AdmissionStep::AdmitNetwork => "admitting network"@,
            AdmissionStep::AdmitMultiroom => "admitting multiroom.evo-native"@,
        }
    }

    /// What is said of a step that failed.
    pub fn context(&self) -> (r: &'static str)
        ensures
            r@ == self.label(),
    {
        match self {
            AdmissionStep::RegisterShelves => "registering Tier 2 audio shelves",
            AdmissionStep::RegisterWidgetKinds => "registering Tier 2 audio widget kinds",
            AdmissionStep::AdmitComposition => "admitting composition.alsa",
            AdmissionStep::AdmitDelivery => "admitting delivery.alsa",
            AdmissionStep::AdmitPlaybackOptions => "admitting playback.options",
            AdmissionStep::AdmitPlaybackMpd => "admitting playback.mpd",
            AdmissionStep::AdmitNetwork => "admitting network",
            AdmissionStep::AdmitMultiroom => "admitting multiroom.evo-native",
        }
    }
}

/// The device is put together in order: the screen before the plugins, the way out of the
/// sound before the player, and the player's options before the player.
pub proof fn device_is_put_together_in_order()
    ensures
        admission_order().len() == 8,
        admission_order()[0] == AdmissionStep::RegisterShelves,
        admission_order()[1] == AdmissionStep::RegisterWidgetKinds,
        admission_order()[2] == AdmissionStep::AdmitComposition,
        admission_order()[3] == AdmissionStep::AdmitDelivery,
        admission_order()[4] == AdmissionStep::AdmitPlaybackOptions,
        admission_order()[5] == AdmissionStep::AdmitPlaybackMpd,
        admission_order()[6] == AdmissionStep::AdmitNetwork,
        admission_order()[7] == AdmissionStep::AdmitMultiroom,
{
}

/// The player plays into the loopback where the device is the source of a group, and into
/// the device's own output otherwise; the sound always goes out through that output, in
/// one format throughout.
pub proof fn sources_play_into_the_loopback(role: Option<Role>, player: ChainStage, output: ChainStage)
    requires
        is_player_stage(player, role),
        is_output_stage(output),
    ensures
        role == Some(Role::Source) ==> player.endpoint_path@ == "hw:Loopback,0,0"@,
        role != Some(Role::Source) ==> player.endpoint_path@ == output.endpoint_path@,
        output.endpoint_path@ == "evo"@,
        player.format == output.format,
        player.format == (AudioFormat::Pcm { codec: PcmCodec::PcmS16Le, rate_hz: 44_100, channels: 2 }),
        player.kind == StageKind::Source,
        output.kind == StageKind::Delivery,
        player.plugin@ == "org.evoframework.playback.mpd"@,
        output.plugin@ == "org.evoframework.delivery.alsa"@,
{
}

/// A chain's name says what the device is: the source of a group, or a player of its own.
pub proof fn chains_are_named_by_their_role(role: Option<Role>)
    ensures
        role == Some(Role::Source) ==> chain_name(role) == "Default delivery chain (44.1kHz/16-bit/stereo)"@
            + " — multi-room source-host (MPD → snd-aloop)"@,
        role != Some(Role::Source) ==> chain_name(role) == "Default delivery chain (44.1kHz/16-bit/stereo)"@
            + " — local playback / receiver"@,
{
}

} // verus!
