//! What `iw` prints of Wi-Fi hardware.

use evo_device_audio::network::nmcli_dispatch::Strategy;
use evo_device_audio::network::transcript::{CommandOutput, Reply, Run};
use evo_device_audio::network::wifi_phy::{
    extract_interface_combinations, freq_to_band, freq_to_channel, parse_channel_count, parse_iface_to_phy_map,
    parse_phy_info, parse_sta_link_info, parse_wifi_devices, sta_phy_supports_concurrent_sta_ap, IwRunner,
};

const PI5_PHY_INFO: &str = r#"
Wiphy phy0
	Supported interface modes:
		 * IBSS
		 * managed
		 * AP
		 * P2P-client
		 * P2P-GO
		 * P2P-device
	valid interface combinations:
		 * #{ managed } <= 2, #{ P2P-device } <= 1, #{ P2P-client, P2P-GO } <= 1,
		   total <= 3, #channels <= 2
		 * #{ managed } <= 1, #{ AP } <= 1, #{ P2P-client } <= 1, #{ P2P-device } <= 1,
		   total <= 4, #channels <= 1
	Device supports SAE with AUTHENTICATE command.
"#;

const STA_ONLY_PHY_INFO: &str = r#"
Wiphy phy1
	Supported interface modes:
		 * managed
		 * monitor
	valid interface combinations:
		 * #{ managed } <= 1, #{ P2P-client, P2P-GO } <= 1,
		   total <= 2, #channels <= 1
"#;

/// Hardware with the bands at 2.4 and 5 GHz.
const DUAL_BAND_PHY_INFO: &str = r#"
Wiphy phy0
	Supported interface modes:
		 * managed
		 * AP
	valid interface combinations:
		 * #{ managed } <= 1, #{ AP } <= 1,
		   total <= 2, #channels <= 1
	Band 1:
		Frequencies:
			* 2412 MHz [1] (20.0 dBm)
			* 2417 MHz [2] (20.0 dBm)
			* 2462 MHz [11] (20.0 dBm)
	Band 2:
		Frequencies:
			* 5180 MHz [36] (22.0 dBm)
			* 5200 MHz [40] (22.0 dBm)
			* 5220 MHz [44] (22.0 dBm)
			* 5240 MHz [48] (22.0 dBm)
"#;

/// Hardware with all three bands, one channel of which is disabled.
const TRI_BAND_PHY_INFO: &str = r#"
Wiphy phy2
	Supported interface modes:
		 * managed
	valid interface combinations:
		 * #{ managed } <= 1, total <= 1, #channels <= 1
	Band 1:
		Frequencies:
			* 2412 MHz [1] (20.0 dBm)
	Band 2:
		Frequencies:
			* 5180 MHz [36] (22.0 dBm)
			* 5200 MHz [40] (22.0 dBm) (disabled)
	Band 4:
		Frequencies:
			* 5955 MHz [1] (23.0 dBm)
			* 5975 MHz [5] (23.0 dBm)
"#;

const IW_DEV_SAMPLE: &str = r#"phy#0
	Interface ap0
		ifindex 8
		wdev 0x2
		type AP
	Interface wlan0
		ifindex 3
		wdev 0x1
		type managed
phy#1
	Interface wlan1
		ifindex 5
		wdev 0x3
		type managed
"#;

#[test]
fn pi5_phy_supports_managed_plus_ap() {
    let cap = parse_phy_info("phy0", PI5_PHY_INFO);
    assert!(
        cap.supports_managed_plus_ap,
        "combos: {:?}",
        extract_interface_combinations(PI5_PHY_INFO)
    );
    assert!(cap.interface_modes.iter().any(|m| m == "managed"));
    assert!(cap.interface_modes.iter().any(|m| m == "AP"));
    assert_eq!(cap.max_channels, 2);
}

#[test]
fn sta_only_phy_does_not_support_concurrent_ap() {
    let cap = parse_phy_info("phy1", STA_ONLY_PHY_INFO);
    assert!(!cap.supports_managed_plus_ap);
    assert_eq!(cap.max_channels, 1);
}

#[test]
fn dual_band_phy_reports_2_4_and_5_ghz_support() {
    let cap = parse_phy_info("phy0", DUAL_BAND_PHY_INFO);
    assert!(cap.bands.ghz_2_4);
    assert!(cap.bands.ghz_5);
    assert!(!cap.bands.ghz_6);
    assert_eq!(cap.bands.band_count(), 2);
    assert!(cap.bands.has_fast_band());
}

#[test]
fn tri_band_phy_reports_6_ghz_support_and_ignores_disabled() {
    let cap = parse_phy_info("phy2", TRI_BAND_PHY_INFO);
    assert!(cap.bands.ghz_2_4);
    assert!(cap.bands.ghz_5);
    assert!(cap.bands.ghz_6);
    assert_eq!(cap.bands.band_count(), 3);
}

#[test]
fn sta_only_phy_with_no_frequencies_reports_no_bands() {
    let cap = parse_phy_info("phy1", STA_ONLY_PHY_INFO);
    assert!(!cap.bands.ghz_2_4);
    assert!(!cap.bands.ghz_5);
    assert!(!cap.bands.ghz_6);
    assert_eq!(cap.bands.band_count(), 0);
    assert!(!cap.bands.has_fast_band());
}

#[test]
fn iw_dev_parses_iface_to_phy_map() {
    let map = parse_iface_to_phy_map(IW_DEV_SAMPLE);
    assert_eq!(map.get("wlan0").map(String::as_str), Some("phy0"));
    assert_eq!(map.get("ap0").map(String::as_str), Some("phy0"));
    assert_eq!(map.get("wlan1").map(String::as_str), Some("phy1"));
}

#[test]
fn iw_dev_parses_wifi_devices() {
    let rows = parse_wifi_devices(IW_DEV_SAMPLE);
    assert_eq!(rows.len(), 3);
    let wlan0 = rows.iter().find(|r| r.ifname == "wlan0").expect("wlan0");
    assert_eq!(wlan0.phy, "phy0");
    assert_eq!(wlan0.iftype, "managed");
    let ap0 = rows.iter().find(|r| r.ifname == "ap0").expect("ap0");
    assert_eq!(ap0.iftype, "AP");
    let wlan1 = rows.iter().find(|r| r.ifname == "wlan1").expect("wlan1");
    assert_eq!(wlan1.phy, "phy1");
}

#[test]
fn freq_to_channel_basics() {
    assert_eq!(freq_to_channel(2412), Some(1));
    assert_eq!(freq_to_channel(2437), Some(6));
    assert_eq!(freq_to_channel(2484), Some(14));
    assert_eq!(freq_to_channel(5180), Some(36));
    assert_eq!(freq_to_channel(5955), Some(1));
}

#[test]
fn freq_to_band_basics() {
    assert_eq!(freq_to_band(2412).as_deref(), Some("bg"));
    assert_eq!(freq_to_band(5180).as_deref(), Some("a"));
    assert_eq!(freq_to_band(5955).as_deref(), Some("6GHz"));
}

#[test]
fn parse_sta_link_info_connected_with_freq() {
    let raw = "Connected to aa:bb:cc:dd:ee:ff (on wlan0)\n\
               \tSSID: HomeNet\n\
               \tfreq: 5180\n";
    let info = parse_sta_link_info(raw);
    assert!(info.connected);
    assert_eq!(info.freq_mhz, Some(5180));
    assert_eq!(info.channel, Some(36));
    assert_eq!(info.band.as_deref(), Some("a"));
}

#[test]
fn parse_sta_link_info_not_connected() {
    let info = parse_sta_link_info("Not connected.");
    assert!(!info.connected);
    assert!(info.freq_mhz.is_none());
}

#[test]
fn channels_are_counted_where_a_combination_gives_them() {
    assert_eq!(parse_channel_count("#{ managed } <= 1, total <= 2, #channels <= 2"), Some(2));
    assert_eq!(parse_channel_count("#{ managed } <= 1"), None);
}

#[test]
fn frequencies_below_the_bands_have_no_channel() {
    assert_eq!(freq_to_channel(1000), None);
    assert_eq!(freq_to_band(1000).as_deref(), Some("bg"));
}

fn printed(text: &str) -> Reply {
    Reply::Ran(CommandOutput { success: true, code: Some(0), stdout: text.to_string(), stderr: String::new() })
}

#[test]
fn concurrency_is_that_of_the_hardware_behind_the_interface() {
    let w = IwRunner { strategy: Strategy::Direct, path: "iw", timeout_ms: 2000 };
    let replies = vec![printed(IW_DEV_SAMPLE), printed(PI5_PHY_INFO)];
    assert!(matches!(sta_phy_supports_concurrent_sta_ap(&mut Run::new(&replies), &w, "wlan0"), Ok(true)));
    let replies = vec![printed(IW_DEV_SAMPLE), printed(STA_ONLY_PHY_INFO)];
    assert!(matches!(sta_phy_supports_concurrent_sta_ap(&mut Run::new(&replies), &w, "wlan1"), Ok(false)));
    let replies = vec![printed(IW_DEV_SAMPLE)];
    assert!(matches!(sta_phy_supports_concurrent_sta_ap(&mut Run::new(&replies), &w, "eth0"), Ok(false)));
}

#[test]
fn the_list_of_modes_ends_at_the_next_heading() {
    let cap = parse_phy_info("phy0", PI5_PHY_INFO);
    assert_eq!(cap.interface_modes, ["IBSS", "managed", "AP", "P2P-client", "P2P-GO", "P2P-device"]);
    let broken = "\tSupported interface modes:\n\t\t * managed\n\n\t\t * AP\n\tBand 1:\n\t\t * 2412 MHz [1]\n";
    assert_eq!(parse_phy_info("phy0", broken).interface_modes, ["managed", "AP"]);
}

#[test]
fn the_list_of_combinations_ends_at_the_next_heading() {
    assert_eq!(
        extract_interface_combinations(DUAL_BAND_PHY_INFO),
        ["#{ managed } <= 1, #{ AP } <= 1, total <= 2, #channels <= 1"]
    );
    assert_eq!(
        extract_interface_combinations(PI5_PHY_INFO),
        [
            "#{ managed } <= 2, #{ P2P-device } <= 1, #{ P2P-client, P2P-GO } <= 1, total <= 3, #channels <= 2",
            "#{ managed } <= 1, #{ AP } <= 1, #{ P2P-client } <= 1, #{ P2P-device } <= 1, total <= 4, #channels <= 1",
        ]
    );
}

#[test]
fn a_combination_may_stand_as_deep_as_the_heading() {
    let raw = "\tvalid interface combinations:\n\t* #{ managed } <= 1,\n\t\ttotal <= 1\n * #{ AP } <= 1\n\tBand 1:\n\t\t* 1\n";
    assert_eq!(extract_interface_combinations(raw), ["#{ managed } <= 1, total <= 1", "#{ AP } <= 1"]);
    let unindented = "valid interface combinations:\n * #{ AP } <= 1\n* #{ managed } <= 1\n * #{ managed } <= 2\n";
    assert_eq!(extract_interface_combinations(unindented), ["#{ AP } <= 1"]);
}

#[test]
fn what_is_said_of_an_access_point_elsewhere_allows_no_combination() {
    let raw = format!("{STA_ONLY_PHY_INFO}\tDevice supports AP scan.\n\t\t * AP: #channels <= 7\n");
    let cap = parse_phy_info("phy1", &raw);
    assert!(!cap.supports_managed_plus_ap);
    assert_eq!(cap.max_channels, 1);
}

#[test]
fn a_list_of_frequencies_ends_at_the_next_heading() {
    let raw = "\tBand 1:\n\t\tFrequencies:\n\t\t\t* 2412 MHz [1] (20.0 dBm)\n\t\tRates:\n\t\t\t* 5180 kbps\n";
    let bands = parse_phy_info("phy0", raw).bands;
    assert!(bands.ghz_2_4);
    assert!(!bands.ghz_5);
}
