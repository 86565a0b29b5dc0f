//! What the operator wants of the network: the durable intent and its defaults.

use crate::number::{decimal, to_decimal};
use crate::text::{cat, copy_texts, texts};
use vstd::prelude::*;

verus! {

/// The hotspot profile that is used where the intent names none.
pub const NM_CON_HOTSPOT_DEFAULT: &'static str = "volumio-hotspot";

/// What the Wi-Fi radio is for.
#[derive(Debug, Clone, Copy, PartialEq, Eq, Structural)]
pub enum WifiRole {
    Sta,
    Ap,
    Disabled,
}

/// How an interface gets its IPv4 address.
#[derive(Debug, Clone, Copy, PartialEq, Eq, Structural)]
pub enum Ipv4Mode {
    Dhcp,
    Static,
}

/// How an access point is chosen among those that carry the wanted name.
#[derive(Debug, Clone, Copy, PartialEq, Eq, Structural)]
pub enum StaSelectionMode {
    Legacy,
    AutoStable,
    AutoPerformance,
    PreferBand,
    LockBssid,
}

/// The wired interface.
#[derive(Debug, Clone)]
pub struct EthernetIntent {
    pub enabled: bool,
    pub device: String,
    pub ipv4_mode: Ipv4Mode,
    pub ipv4_address: String,
    pub ipv4_gateway: String,
    pub ipv4_dns: Vec<String>,
}

/// The wireless interface.
#[derive(Debug, Clone)]
pub struct WifiIntent {
    pub ifname: String,
    pub role: WifiRole,
    pub sta_ssid: String,
    pub sta_open: bool,
    pub sta_ipv4_mode: Ipv4Mode,
    pub sta_ipv4_address: String,
    pub sta_ipv4_gateway: String,
    pub sta_ipv4_dns: Vec<String>,
    pub sta_selection_mode: StaSelectionMode,
    pub sta_preferred_band: String,
    pub sta_lock_bssid: String,
    pub ap_ssid: String,
    pub ap_channel: u32,
    pub ap_band: String,
}

/// What to do when there is no network to join.
#[derive(Debug, Clone)]
pub struct FallbackIntent {
    pub hotspot_enabled: bool,
    pub hotspot_connection_name: String,
    pub hotspot_ifname: String,
    pub hotspot_fallback: bool,
}

/// The whole intent.
#[derive(Debug, Clone)]
pub struct NetworkIntent {
    pub version: u32,
    pub ethernet: EthernetIntent,
    pub wifi: WifiIntent,
    pub fallback: FallbackIntent,
}

/// [`EthernetIntent`] over character sequences.
#[verifier::ext_equal]
pub struct EthernetView {
    pub enabled: bool,
    pub device: Seq<char>,
    pub ipv4_mode: Ipv4Mode,
    pub ipv4_address: Seq<char>,
    pub ipv4_gateway: Seq<char>,
    pub ipv4_dns: Seq<Seq<char>>,
}

/// [`WifiIntent`] over character sequences.
#[verifier::ext_equal]
pub struct WifiView {
    pub ifname: Seq<char>,
    pub role: WifiRole,
    pub sta_ssid: Seq<char>,
    pub sta_open: bool,
    pub sta_ipv4_mode: Ipv4Mode,
    pub sta_ipv4_address: Seq<char>,
    pub sta_ipv4_gateway: Seq<char>,
    pub sta_ipv4_dns: Seq<Seq<char>>,
    pub sta_selection_mode: StaSelectionMode,
    pub sta_preferred_band: Seq<char>,
    pub sta_lock_bssid: Seq<char>,
    pub ap_ssid: Seq<char>,
    pub ap_channel: u32,
    pub ap_band: Seq<char>,
}

/// [`FallbackIntent`] over character sequences.
#[verifier::ext_equal]
pub struct FallbackView {
    pub hotspot_enabled: bool,
    pub hotspot_connection_name: Seq<char>,
    pub hotspot_ifname: Seq<char>,
    pub hotspot_fallback: bool,
}

/// [`NetworkIntent`] over character sequences.
#[verifier::ext_equal]
pub struct IntentView {
    pub version: u32,
    pub ethernet: EthernetView,
    pub wifi: WifiView,
    pub fallback: FallbackView,
}

impl View for EthernetIntent {
    type V = EthernetView;

    open spec fn view(&self) -> EthernetView {
        EthernetView {
            enabled: self.enabled,
            device: self.device@,
            ipv4_mode: self.ipv4_mode,
            ipv4_address: self.ipv4_address@,
            ipv4_gateway: self.ipv4_gateway@,
            ipv4_dns: texts(self.ipv4_dns@),
        }
    }
}

impl View for WifiIntent {
    type V = WifiView;

    open spec fn view(&self) -> WifiView {
        WifiView {
            ifname: self.ifname@,
            role: self.role,
            sta_ssid: self.sta_ssid@,
            sta_open: self.sta_open,
            sta_ipv4_mode: self.sta_ipv4_mode,
            sta_ipv4_address: self.sta_ipv4_address@,
            sta_ipv4_gateway: self.sta_ipv4_gateway@,
            sta_ipv4_dns: texts(self.sta_ipv4_dns@),
            sta_selection_mode: self.sta_selection_mode,
            sta_preferred_band: self.sta_preferred_band@,
            sta_lock_bssid: self.sta_lock_bssid@,
            ap_ssid: self.ap_ssid@,
            ap_channel: self.ap_channel,
            ap_band: self.ap_band@,
        }
    }
}

impl View for FallbackIntent {
    type V = FallbackView;

    open spec fn view(&self) -> FallbackView {
        FallbackView {
            hotspot_enabled: self.hotspot_enabled,
            hotspot_connection_name: self.hotspot_connection_name@,
            hotspot_ifname: self.hotspot_ifname@,
            hotspot_fallback: self.hotspot_fallback,
        }
    }
}

impl View for NetworkIntent {
    type V = IntentView;

    open spec fn view(&self) -> IntentView {
        IntentView {
            version: self.version,
            ethernet: self.ethernet@,
            wifi: self.wifi@,
            fallback: self.fallback@,
        }
    }
}

impl EthernetIntent {
    /// A copy.
    pub fn duplicate(&self) -> (r: EthernetIntent)
        ensures
            r@ == self@,
    {
        EthernetIntent {
            enabled: self.enabled,
            device: self.device.clone(),
            ipv4_mode: self.ipv4_mode,
            ipv4_address: self.ipv4_address.clone(),
            ipv4_gateway: self.ipv4_gateway.clone(),
            ipv4_dns: copy_texts(&self.ipv4_dns),
        }
    }
}

impl WifiIntent {
    /// A copy.
    pub fn duplicate(&self) -> (r: WifiIntent)
        ensures
            r@ == self@,
    {
        WifiIntent {
            ifname: self.ifname.clone(),
            role: self.role,
            sta_ssid: self.sta_ssid.clone(),
            sta_open: self.sta_open,
            sta_ipv4_mode: self.sta_ipv4_mode,
            sta_ipv4_address: self.sta_ipv4_address.clone(),
            sta_ipv4_gateway: self.sta_ipv4_gateway.clone(),
            sta_ipv4_dns: copy_texts(&self.sta_ipv4_dns),
            sta_selection_mode: self.sta_selection_mode,
            sta_preferred_band: self.sta_preferred_band.clone(),
            sta_lock_bssid: self.sta_lock_bssid.clone(),
            ap_ssid: self.ap_ssid.clone(),
            ap_channel: self.ap_channel,
            ap_band: self.ap_band.clone(),
        }
    }
}

impl FallbackIntent {
    /// A copy.
    pub fn duplicate(&self) -> (r: FallbackIntent)
        ensures
            r@ == self@,
    {
        FallbackIntent {
            hotspot_enabled: self.hotspot_enabled,
            hotspot_connection_name: self.hotspot_connection_name.clone(),
            hotspot_ifname: self.hotspot_ifname.clone(),
            hotspot_fallback: self.hotspot_fallback,
        }
    }
}

impl NetworkIntent {
    /// A copy.
    pub fn duplicate(&self) -> (r: NetworkIntent)
        ensures
            r@ == self@,
    {
        NetworkIntent {
            version: self.version,
            ethernet: self.ethernet.duplicate(),
            wifi: self.wifi.duplicate(),
            fallback: self.fallback.duplicate(),
        }
    }
}

/// A switch that is on where the document does not say.
pub fn default_true() -> (r: bool)
    ensures
        r,
{
    true
}

/// The version of an intent that says none.
pub fn default_intent_version() -> (r: u32)
    ensures
        r == 1,
{
    1
}

/// The schema version of an intent file that says none.
pub fn default_intent_state_schema_version() -> (r: u32)
    ensures
        r == 1,
{
    1
}

/// The hotspot channel of an intent that says none.
pub fn default_hotspot_channel() -> (r: u32)
    ensures
        r == 4,
{
    4
}

/// The Wi-Fi interface of a document that says none.
pub fn default_wlan_if() -> (r: String)
    ensures
        r@ == "wlan0"@,
{
    "wlan0".to_owned()
}

/// The hotspot name of a fresh intent.
pub fn default_ap_ssid() -> (r: String)
    ensures
        r@ == "Volumio"@,
{
    "Volumio".to_owned()
}

/// The hotspot profile of an intent that says none.
pub fn default_hotspot_connection_name() -> (r: String)
    ensures
        r@ == NM_CON_HOTSPOT_DEFAULT@,
{
    NM_CON_HOTSPOT_DEFAULT.to_owned()
}

/// The wired interface as a fresh intent has it.
pub open spec fn ethernet_default() -> EthernetView {
    EthernetView {
        enabled: true,
        device: Seq::<char>::empty(),
        ipv4_mode: Ipv4Mode::Dhcp,
        ipv4_address: Seq::<char>::empty(),
        ipv4_gateway: Seq::<char>::empty(),
        ipv4_dns: Seq::<Seq<char>>::empty(),
    }
}

/// The wireless interface as a fresh intent has it.
pub open spec fn wifi_default() -> WifiView {
    WifiView {
        ifname: Seq::<char>::empty(),
        role: WifiRole::Sta,
        sta_ssid: Seq::<char>::empty(),
        sta_open: false,
        sta_ipv4_mode: Ipv4Mode::Dhcp,
        sta_ipv4_address: Seq::<char>::empty(),
        sta_ipv4_gateway: Seq::<char>::empty(),
        sta_ipv4_dns: Seq::<Seq<char>>::empty(),
        sta_selection_mode: StaSelectionMode::AutoStable,
        sta_preferred_band: Seq::<char>::empty(),
        sta_lock_bssid: Seq::<char>::empty(),
        ap_ssid: "Volumio"@,
        ap_channel: 4,
        ap_band: Seq::<char>::empty(),
    }
}

/// The fallback as a fresh intent has it.
pub open spec fn fallback_default() -> FallbackView {
    FallbackView {
        hotspot_enabled: true,
        hotspot_connection_name: NM_CON_HOTSPOT_DEFAULT@,
        hotspot_ifname: Seq::<char>::empty(),
        hotspot_fallback: false,
    }
}

/// A fresh intent.
pub open spec fn intent_default() -> IntentView {
    IntentView {
        version: 1,
        ethernet: ethernet_default(),
        wifi: wifi_default(),
        fallback: fallback_default(),
    }
}

impl Default for EthernetIntent {
    fn default() -> (r: Self)
        ensures
            r@ == ethernet_default(),
    {
        let r = EthernetIntent {
            enabled: true,
            device: String::new(),
            ipv4_mode: Ipv4Mode::Dhcp,
            ipv4_address: String::new(),
            ipv4_gateway: String::new(),
            ipv4_dns: Vec::new(),
        };
        proof {
            assert(r@.ipv4_dns =~= Seq::<Seq<char>>::empty());
        }
        r
    }
}

impl Default for WifiIntent {
    fn default() -> (r: Self)
        ensures
            r@ == wifi_default(),
    {
        let r = WifiIntent {
            ifname: String::new(),
            role: WifiRole::Sta,
            sta_ssid: String::new(),
            sta_open: false,
            sta_ipv4_mode: Ipv4Mode::Dhcp,
            sta_ipv4_address: String::new(),
            sta_ipv4_gateway: String::new(),
            sta_ipv4_dns: Vec::new(),
            sta_selection_mode: StaSelectionMode::AutoStable,
            sta_preferred_band: String::new(),
            sta_lock_bssid: String::new(),
            ap_ssid: default_ap_ssid(),
            ap_channel: default_hotspot_channel(),
            ap_band: String::new(),
        };
        proof {
            assert(r@.sta_ipv4_dns =~= Seq::<Seq<char>>::empty());
        }
        r
    }
}

impl Default for FallbackIntent {
    fn default() -> (r: Self)
        ensures
            r@ == fallback_default(),
    {
        FallbackIntent {
            hotspot_enabled: true,
            hotspot_connection_name: default_hotspot_connection_name(),
            hotspot_ifname: String::new(),
            hotspot_fallback: false,
        }
    }
}

impl Default for NetworkIntent {
    fn default() -> (r: Self)
        ensures
            r@ == intent_default(),
    {
        NetworkIntent {
            version: default_intent_version(),
            ethernet: EthernetIntent::default(),
            wifi: WifiIntent::default(),
            fallback: FallbackIntent::default(),
        }
    }
}

/// What becomes of an intent read from a file of the given schema: schemas 0 and 1
/// are taken over, an unset version becoming 1; others are refused.
pub open spec fn migrated_intent(schema_version: u32, intent: IntentView) -> Result<IntentView, Seq<char>> {
    if schema_version <= 1 {
        Ok(IntentView {
            version: if intent.version == 0 {
                1
            } else {
                intent.version
            },
            ..intent
        })
    } else {
        Err("unsupported intent state schema_version "@ + decimal(schema_version as nat))
    }
}

/// The views of a result whose error is a text.
pub open spec fn intent_result(r: Result<NetworkIntent, String>) -> Result<IntentView, Seq<char>> {
    match r {
        Ok(i) => Ok(i@),
        Err(e) => Err(e@),
    }
}

/// Takes an intent over from a file of the given schema.
pub fn migrate_intent_state(schema_version: u32, intent: NetworkIntent) -> (r: Result<NetworkIntent, String>)
    ensures
        intent_result(r) == migrated_intent(schema_version, intent@),
{
    if schema_version <= 1 {
        let mut intent = intent;
        if intent.version == 0 {
            intent.version = default_intent_version();
        }
        Ok(intent)
    } else {
        Err(cat("unsupported intent state schema_version ", to_decimal(schema_version as u64).as_str()))
    }
}

/// A stored intent of a known schema is taken over as it is, but that a missing version
/// becomes the first; one of a later schema is refused, and the complaint names it.
pub proof fn stored_intents_are_taken_over(schema_version: u32, intent: IntentView)
    ensures
        schema_version <= 1 && intent.version != 0 ==> migrated_intent(schema_version, intent) == Ok::<IntentView, Seq<char>>(
            intent,
        ),
        schema_version <= 1 && intent.version == 0 ==> (migrated_intent(schema_version, intent) matches Ok(i) && i.version
            == 1 && i.ethernet == intent.ethernet && i.wifi == intent.wifi && i.fallback == intent.fallback),
        schema_version > 1 ==> migrated_intent(schema_version, intent) == Err::<IntentView, Seq<char>>(
            "unsupported intent state schema_version "@ + decimal(schema_version as nat),
        ),
{
}

/// Without a stored intent the wire is used by DHCP, the radio is a client of no network
/// yet, and a hotspot stands by under its own name.
pub proof fn fresh_intents_use_the_wire()
    ensures
        intent_default().version == 1,
        intent_default().ethernet.enabled,
        intent_default().ethernet.ipv4_mode == Ipv4Mode::Dhcp,
        intent_default().wifi.role == WifiRole::Sta,
        intent_default().wifi.sta_ssid.len() == 0,
        !intent_default().wifi.sta_open,
        intent_default().wifi.sta_ipv4_mode == Ipv4Mode::Dhcp,
        intent_default().wifi.sta_selection_mode == StaSelectionMode::AutoStable,
        intent_default().wifi.ap_ssid == "Volumio"@,
        intent_default().wifi.ap_channel == 4,
        intent_default().fallback.hotspot_enabled,
        intent_default().fallback.hotspot_connection_name == "volumio-hotspot"@,
        !intent_default().fallback.hotspot_fallback,
{
}

/// Each field is seen under its own name, as it is.
pub proof fn fields_are_seen_under_their_names(
    ethernet_intent: EthernetIntent,
    wifi_intent: WifiIntent,
    fallback_intent: FallbackIntent,
    network_intent: NetworkIntent,
)
    ensures
        ethernet_intent@.enabled == ethernet_intent.enabled,
        ethernet_intent@.device == ethernet_intent.device@,
        ethernet_intent@.ipv4_mode == ethernet_intent.ipv4_mode,
        ethernet_intent@.ipv4_address == ethernet_intent.ipv4_address@,
        ethernet_intent@.ipv4_gateway == ethernet_intent.ipv4_gateway@,
        ethernet_intent@.ipv4_dns == texts(ethernet_intent.ipv4_dns@),
        wifi_intent@.ifname == wifi_intent.ifname@,
        wifi_intent@.role == wifi_intent.role,
        wifi_intent@.sta_ssid == wifi_intent.sta_ssid@,
        wifi_intent@.sta_open == wifi_intent.sta_open,
        wifi_intent@.sta_ipv4_mode == wifi_intent.sta_ipv4_mode,
        wifi_intent@.sta_ipv4_address == wifi_intent.sta_ipv4_address@,
        wifi_intent@.sta_ipv4_gateway == wifi_intent.sta_ipv4_gateway@,
        wifi_intent@.sta_ipv4_dns == texts(wifi_intent.sta_ipv4_dns@),
        wifi_intent@.sta_selection_mode == wifi_intent.sta_selection_mode,
        wifi_intent@.sta_preferred_band == wifi_intent.sta_preferred_band@,
        wifi_intent@.sta_lock_bssid == wifi_intent.sta_lock_bssid@,
        wifi_intent@.ap_ssid == wifi_intent.ap_ssid@,
        wifi_intent@.ap_channel == wifi_intent.ap_channel,
        wifi_intent@.ap_band == wifi_intent.ap_band@,
        fallback_intent@.hotspot_enabled == fallback_intent.hotspot_enabled,
        fallback_intent@.hotspot_connection_name == fallback_intent.hotspot_connection_name@,
        fallback_intent@.hotspot_ifname == fallback_intent.hotspot_ifname@,
        fallback_intent@.hotspot_fallback == fallback_intent.hotspot_fallback,
        network_intent@.version == network_intent.version,
        network_intent@.ethernet == network_intent.ethernet@,
        network_intent@.wifi == network_intent.wifi@,
        network_intent@.fallback == network_intent.fallback@,
{
}

} // verus!
