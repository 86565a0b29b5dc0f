//! Networking through NetworkManager.

pub mod apply;
pub mod health;
pub mod hotspot;
pub mod plugin;
pub mod presets;
pub mod profiles;
pub mod vif;
pub mod wifi_phy;
pub mod wifi_radio;
pub mod captive;
pub mod captive_state;
pub mod config;
pub mod intent;
pub mod nmcli;
pub mod nmcli_dispatch;
pub mod notices;
pub mod performed;
pub mod readings;
pub mod reconcile;
pub mod requests;
pub mod rfkill;
pub mod scan_cache;
pub mod secrets;
pub mod source;
pub mod storage;
pub mod transcript;
