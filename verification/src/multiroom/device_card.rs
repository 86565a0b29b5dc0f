//! The card that shows a device or a group.

use std::time::SystemTime;
use vstd::prelude::*;

verus! {

/// The scheme under which cards are addressed.
pub const DEVICE_CARD_SCHEME: &'static str = "evo.audio.multiroom.device_card";

/// The subject type of cards.
pub const DEVICE_CARD_SUBJECT_TYPE: &'static str = "audio_multiroom_device_card";

/// The picture that stands in where no theme gives one.
pub const FRAMEWORK_DEFAULT_PLACEHOLDER_URL: &'static str = "evo://theme/placeholder/device.svg";

/// `std::time::SystemTime`: a point in time.
#[verifier::external_type_specification]
#[verifier::external_body]
pub struct ExSystemTime(std::time::SystemTime);

/// `std::time::SystemTime::now`: the time at which it is called, of which nothing is
/// known.
pub assume_specification[ std::time::SystemTime::now ]() -> (r: std::time::SystemTime);

/// What a device or group is to others.
#[derive(Debug, Clone, Copy, PartialEq, Eq, Structural)]
pub enum StateBadge {
    /// It is in no group.
    Solo,
    /// It leads a group.
    LeaderOfGroup,
    /// It follows in a group.
    MemberOfGroup,
    /// It is a group within a master group.
    SubgroupOfMaster,
    /// It is a master group.
    MasterGroup,
}

/// What a device or group is doing.
#[derive(Debug, Clone, Copy, PartialEq, Eq, Structural)]
pub enum TransportState {
    Playing,
    Paused,
    Stopped,
    /// Nothing is loaded.
    Idle,
    /// It was not seen of late.
    Offline,
    /// It was found and not yet admitted.
    Unpaired,
    /// It was admitted once and then expelled.
    Revoked,
}

impl Default for TransportState {
    fn default() -> (r: Self)
        ensures
            r == TransportState::Idle,
    {
        TransportState::Idle
    }
}

/// The track on a card.
#[derive(Debug, Clone, PartialEq, Eq)]
pub struct TrackSummary {
    pub artwork_url: Option<String>,
    pub title: String,
    pub artist: Option<String>,
    pub album: Option<String>,
}

/// The place of a device or group in a master group.
#[derive(Debug, Clone, PartialEq, Eq)]
pub struct MasterGroupContext {
    pub master_group_id: String,
    pub master_group_name: String,
    /// The delay that was set; negative where it plays earlier than the group.
    pub delay_ms: i32,
    /// The delay that is heard.
    pub audible_time_ms: i32,
}

/// The card of a device or group.
#[derive(Debug, PartialEq, Eq)]
pub struct MultiroomDeviceCardEnvelope {
    pub device_or_group_id: String,
    pub display_name: String,
    pub state_badge: StateBadge,
    pub transport_state: TransportState,
    /// The track, while one plays or is paused.
    pub current_track: Option<TrackSummary>,
    /// The picture where the track has none.
    pub theme_placeholder_artwork_url: String,
    pub master_group_context: Option<MasterGroupContext>,
    pub last_update_at: SystemTime,
}

/// Whether a card is the first one of a device: idle, with no track and no master group.
pub open spec fn first_card(
    card: MultiroomDeviceCardEnvelope,
    device_id: Seq<char>,
    display_name: Seq<char>,
    badge: StateBadge,
) -> bool {
    &&& card.device_or_group_id@ == device_id
    &&& card.display_name@ == display_name
    &&& card.state_badge == badge
    &&& card.transport_state == TransportState::Idle
    &&& card.current_track is None
    &&& card.theme_placeholder_artwork_url@ == FRAMEWORK_DEFAULT_PLACEHOLDER_URL@
    &&& card.master_group_context is None
}

impl MultiroomDeviceCardEnvelope {
    /// The first card of a device, at a given time.
    pub fn initial_at(
        device_id: String,
        display_name: String,
        role_badge: StateBadge,
        at: SystemTime,
    ) -> (r: MultiroomDeviceCardEnvelope)
        ensures
            first_card(r, device_id@, display_name@, role_badge),
            r.last_update_at == at,
    {
        MultiroomDeviceCardEnvelope {
            device_or_group_id: device_id,
            display_name,
            state_badge: role_badge,
            transport_state: TransportState::Idle,
            current_track: None,
            theme_placeholder_artwork_url: FRAMEWORK_DEFAULT_PLACEHOLDER_URL.to_owned(),
            master_group_context: None,
            last_update_at: at,
        }
    }

    /// The first card of a device, now. At what time that is, is not said.
    pub fn initial_for_local_device(
        device_id: String,
        display_name: String,
        role_badge: StateBadge,
    ) -> (r: MultiroomDeviceCardEnvelope)
        ensures
            first_card(r, device_id@, display_name@, role_badge),
    {
        MultiroomDeviceCardEnvelope::initial_at(device_id, display_name, role_badge, SystemTime::now())
    }
}

/// The first card of a device shows the device and nothing that plays: it is idle, without
/// a track and in no master group, with the placeholder for its picture.
pub proof fn first_cards_show_an_idle_device(
    card: MultiroomDeviceCardEnvelope,
    device_id: Seq<char>,
    display_name: Seq<char>,
    badge: StateBadge,
)
    requires
        first_card(card, device_id, display_name, badge),
    ensures
        card.device_or_group_id@ == device_id,
        card.display_name@ == display_name,
        card.state_badge == badge,
        card.transport_state == TransportState::Idle,
        card.current_track is None,
        card.master_group_context is None,
        card.theme_placeholder_artwork_url@ == "evo://theme/placeholder/device.svg"@,
{
}

} // verus!
