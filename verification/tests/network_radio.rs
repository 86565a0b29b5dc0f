//! Radio switches, and the state of the Wi-Fi radio.

use evo_device_audio::network::rfkill::{
    aggregate_for, read_all, RadioBlockState, RadioKind, RfkillDir, RfkillEntry,
};
use evo_device_audio::network::wifi_radio::{resolve, RadioSource, RadioState};

fn dir(idx: u32, name: &str, kind: &str, soft: u8, hard: u8) -> RfkillDir {
    RfkillDir {
        file_name: format!("rfkill{idx}"),
        name: Ok(format!("{name}\n")),
        kind: Ok(format!("{kind}\n")),
        soft: Ok(format!("{soft}\n")),
        hard: Ok(format!("{hard}\n")),
    }
}

#[test]
fn parse_wlan_unblocked() {
    let entries = read_all(&vec![dir(0, "phy0", "wlan", 0, 0)]);
    assert_eq!(entries.len(), 1);
    assert_eq!(entries[0].kind, RadioKind::Wlan);
    assert_eq!(entries[0].name, "phy0");
    assert!(!entries[0].soft_blocked);
    assert!(!entries[0].hard_blocked);
}

#[test]
fn parse_wlan_soft_blocked() {
    let entries = read_all(&vec![dir(0, "phy0", "wlan", 1, 0)]);
    assert!(entries[0].soft_blocked);
    assert!(!entries[0].hard_blocked);
}

#[test]
fn parse_wlan_hard_blocked() {
    let entries = read_all(&vec![dir(0, "phy0", "wlan", 0, 1)]);
    assert!(!entries[0].soft_blocked);
    assert!(entries[0].hard_blocked);
}

#[test]
fn parse_mixed_radios() {
    let entries = read_all(&vec![
        dir(0, "phy0", "wlan", 0, 0),
        dir(1, "hci0", "bluetooth", 1, 0),
        dir(2, "cdc-wdm0", "wwan", 0, 0),
    ]);
    assert_eq!(entries.len(), 3);
    assert_eq!(entries[0].kind, RadioKind::Wlan);
    assert_eq!(entries[1].kind, RadioKind::Bluetooth);
    assert!(entries[1].soft_blocked);
    assert_eq!(entries[2].kind, RadioKind::Wwan);
}

#[test]
fn radios_come_out_by_their_index() {
    let entries = read_all(&vec![dir(12, "b", "wlan", 0, 0), dir(2, "a", "wlan", 0, 0)]);
    assert_eq!(entries.iter().map(|e| e.index).collect::<Vec<u32>>(), vec![2, 12]);
}

#[test]
fn missing_root_returns_empty() {
    let entries = read_all(&vec![]);
    assert!(entries.is_empty());
}

#[test]
fn unknown_radio_kind_preserves_label() {
    let entries = read_all(&vec![dir(0, "fmradio", "fm", 0, 0)]);
    assert_eq!(entries.len(), 1);
    match &entries[0].kind {
        RadioKind::Unknown(s) => assert_eq!(s, "fm"),
        other => panic!("expected Unknown, got {other:?}"),
    }
    assert_eq!(entries[0].kind.operator_label(), "fm");
}

#[test]
fn malformed_entry_skipped_without_blinding_others() {
    let bad = RfkillDir {
        file_name: "rfkill1".to_string(),
        name: Ok("phy1".to_string()),
        kind: Ok("wlan".to_string()),
        soft: Ok("0".to_string()),
        hard: Err("No such file or directory".to_string()),
    };
    let entries = read_all(&vec![dir(0, "phy0", "wlan", 0, 0), bad]);
    assert_eq!(entries.len(), 1);
    assert_eq!(entries[0].name, "phy0");
}

fn entry(index: u32, name: &str, soft: bool) -> RfkillEntry {
    RfkillEntry { index, name: name.into(), kind: RadioKind::Wlan, soft_blocked: soft, hard_blocked: false }
}

#[test]
fn aggregate_soft_or_hard_across_entries() {
    let entries = vec![entry(0, "phy0", false), entry(1, "phy1", true)];
    let agg = aggregate_for(&entries, &RadioKind::Wlan).unwrap();
    assert!(agg.soft_blocked);
    assert!(!agg.hard_blocked);
    assert!(!agg.is_clear());
}

#[test]
fn aggregate_returns_none_for_missing_kind() {
    let entries = vec![entry(0, "phy0", false)];
    assert!(aggregate_for(&entries, &RadioKind::Bluetooth).is_none());
}

#[test]
fn block_state_is_clear() {
    let s = RadioBlockState { soft_blocked: false, hard_blocked: false };
    assert!(s.is_clear());

    let s = RadioBlockState { soft_blocked: true, hard_blocked: false };
    assert!(!s.is_clear());

    let s = RadioBlockState { soft_blocked: false, hard_blocked: true };
    assert!(!s.is_clear());
}

fn blk(soft: bool, hard: bool) -> Option<RadioBlockState> {
    Some(RadioBlockState { soft_blocked: soft, hard_blocked: hard })
}

#[test]
fn preference_enabled_no_blocks_no_flight() {
    let v = resolve(RadioState::Enabled, false, blk(false, false));
    assert_eq!(v.effective_state, RadioState::Enabled);
    assert_eq!(v.source, RadioSource::Preference);
    assert!(!v.hard_blocked);
    assert!(!v.soft_blocked);
}

#[test]
fn preference_disabled_no_blocks_no_flight() {
    let v = resolve(RadioState::Disabled, false, blk(false, false));
    assert_eq!(v.effective_state, RadioState::Disabled);
    assert_eq!(v.source, RadioSource::Preference);
}

#[test]
fn flight_mode_overrides_preference_enabled() {
    let v = resolve(RadioState::Enabled, true, blk(false, false));
    assert_eq!(v.effective_state, RadioState::Disabled);
    assert_eq!(v.source, RadioSource::FlightMode);
}

#[test]
fn flight_mode_with_preference_disabled_still_disabled() {
    let v = resolve(RadioState::Disabled, true, blk(false, false));
    assert_eq!(v.effective_state, RadioState::Disabled);
    // The master switch is what the operator is told of.
    assert_eq!(v.source, RadioSource::FlightMode);
}

#[test]
fn hard_block_overrides_everything() {
    let v = resolve(RadioState::Enabled, false, blk(false, true));
    assert_eq!(v.effective_state, RadioState::Disabled);
    assert_eq!(v.source, RadioSource::HardwareBlock);
    assert!(v.hard_blocked);
}

#[test]
fn hard_block_takes_priority_over_flight_mode_for_source() {
    let v = resolve(RadioState::Enabled, true, blk(false, true));
    assert_eq!(v.effective_state, RadioState::Disabled);
    assert_eq!(v.source, RadioSource::HardwareBlock);
}

#[test]
fn soft_block_is_informational_only() {
    let v = resolve(RadioState::Enabled, false, blk(true, false));
    assert_eq!(v.effective_state, RadioState::Enabled);
    assert_eq!(v.source, RadioSource::Preference);
    assert!(v.soft_blocked);
    assert!(!v.hard_blocked);
}

#[test]
fn no_block_information_treated_as_clear() {
    let v = resolve(RadioState::Enabled, false, None);
    assert_eq!(v.effective_state, RadioState::Enabled);
    assert_eq!(v.source, RadioSource::Preference);
    assert!(!v.hard_blocked);
    assert!(!v.soft_blocked);
}

#[test]
fn radio_states_and_truth_values_agree() {
    assert!(RadioState::from_bool(true).is_enabled());
    assert!(!RadioState::from_bool(false).is_enabled());
}
