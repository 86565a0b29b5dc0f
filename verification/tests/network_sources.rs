//! Link sources: their events, their presets and how their reports are compared.

use evo_device_audio::network::presets::{build_sources, default_preset, CandidateResult, Preset};
use evo_device_audio::network::reconcile::{
    detect_discrepancies, rules, ConnectivityVerdict, DiscrepancyKind, LinkSourceView, SourceViews,
};
use evo_device_audio::network::source::{LinkEvent, LinkSourceCapabilities, LinkSourceError};

#[test]
fn link_event_kind_strings_are_stable() {
    assert_eq!(LinkEvent::PeriodicTick.kind(), "periodic_tick");
    assert_eq!(LinkEvent::InterfaceStateChanged { interface: None }.kind(), "interface_state_changed");
    assert_eq!(LinkEvent::ConnectivityChanged.kind(), "connectivity_changed");
    assert_eq!(LinkEvent::WifiAssociationChanged { associated: true }.kind(), "wifi_association_changed");
    assert_eq!(LinkEvent::ConnectionActivationChanged.kind(), "connection_activation_changed");
}

#[test]
fn polling_capabilities_cover_every_field() {
    let c = LinkSourceCapabilities::polling();
    assert!(c.observes_carrier);
    assert!(c.observes_address);
    assert!(c.observes_wifi_association);
    assert!(c.observes_connectivity_verdict);
}

#[test]
fn default_capabilities_are_empty() {
    let c = LinkSourceCapabilities::default();
    assert!(!c.observes_carrier);
    assert!(!c.observes_address);
    assert!(!c.observes_wifi_association);
    assert!(!c.observes_connectivity_verdict);
}

#[test]
fn source_errors_say_what_happened() {
    assert_eq!(LinkSourceError::Disconnected("a".into()).to_text(), "source disconnected: a");
    assert_eq!(LinkSourceError::DaemonError("b".into()).to_text(), "source daemon reported error: b");
}

#[test]
fn preset_name_round_trips() {
    for p in [
        Preset::LinuxSystemdNm,
        Preset::LinuxSystemdNetworkd,
        Preset::LinuxYoctoConnman,
        Preset::LinuxBare,
        Preset::Bsd,
        Preset::PollingOnly,
        Preset::EmbeddedRtos,
    ] {
        let name = p.name();
        let back = Preset::from_name(name).unwrap();
        assert_eq!(p, back);
    }
}

#[test]
fn from_name_refuses_unknown_input() {
    assert!(Preset::from_name("not-a-preset").is_none());
    assert!(Preset::from_name("").is_none());
}

#[test]
fn default_preset_compiles_to_a_real_variant_on_every_target() {
    assert_eq!(default_preset("linux"), Preset::LinuxSystemdNm);
    assert_eq!(default_preset("freebsd"), Preset::Bsd);
    assert_eq!(default_preset("macos"), Preset::PollingOnly);
}

#[test]
fn preset_display_matches_name() {
    assert_eq!(Preset::LinuxSystemdNm.to_text(), "linux-systemd-nm");
}

#[test]
fn polling_only_preset_yields_one_polling_source() {
    let (sources, outcomes) = build_sources(Preset::PollingOnly, &None, &None);
    assert_eq!(sources.len(), 1);
    assert_eq!(sources[0], "polling");
    assert_eq!(outcomes.len(), 1);
    assert!(matches!(outcomes[0].result, CandidateResult::Admitted));
}

#[test]
fn embedded_rtos_preset_yields_no_sources() {
    let (sources, outcomes) = build_sources(Preset::EmbeddedRtos, &None, &None);
    assert!(sources.is_empty());
    assert!(outcomes.is_empty());
}

#[test]
fn a_source_that_does_not_open_is_left_out() {
    let (sources, outcomes) = build_sources(Preset::LinuxSystemdNm, &None, &Some("no bus".to_string()));
    assert_eq!(sources, vec!["rtnetlink", "polling"]);
    assert_eq!(outcomes.len(), 3);
    match &outcomes[1].result {
        CandidateResult::Refused { reason } => assert_eq!(reason, "no bus"),
        other => panic!("expected Refused, got {other:?}"),
    }
}

fn views_of(items: Vec<(&'static str, LinkSourceView)>) -> SourceViews {
    let mut views = SourceViews::new();
    for (source, view) in items {
        views.insert(source, view);
    }
    views
}

#[test]
fn empty_views_produce_no_discrepancies() {
    assert!(detect_discrepancies(&SourceViews::new()).is_empty());
}

#[test]
fn matching_kernel_and_daemon_views_produce_no_discrepancies() {
    let views = views_of(vec![
        (
            "rtnetlink",
            LinkSourceView { carrier_up: Some(true), address_attached: Some(true), ..Default::default() },
        ),
        (
            "network-manager",
            LinkSourceView { connectivity_verdict: Some(ConnectivityVerdict::Full), ..Default::default() },
        ),
    ]);
    let d = detect_discrepancies(&views);
    assert!(d.is_empty(), "unexpected discrepancies: {d:?}");
}

#[test]
fn carrier_down_but_nm_full_emits_discrepancy() {
    let views = views_of(vec![
        ("rtnetlink", LinkSourceView { carrier_up: Some(false), ..Default::default() }),
        (
            "network-manager",
            LinkSourceView { connectivity_verdict: Some(ConnectivityVerdict::Full), ..Default::default() },
        ),
    ]);
    let d = detect_discrepancies(&views);
    assert_eq!(d.len(), 1);
    assert_eq!(d[0].rule, "carrier_down_but_daemon_full");
    assert_eq!(d[0].kind, DiscrepancyKind::CarrierDownButDaemonReportsUp);
    assert_eq!(d[0].trusted, "rtnetlink");
    assert_eq!(d[0].untrusted, "network-manager");
}

#[test]
fn carrier_down_but_nm_portal_also_fires_rule_1() {
    // Portal still counts as "claims connectivity is up".
    let views = views_of(vec![
        ("rtnetlink", LinkSourceView { carrier_up: Some(false), ..Default::default() }),
        (
            "network-manager",
            LinkSourceView { connectivity_verdict: Some(ConnectivityVerdict::Portal), ..Default::default() },
        ),
    ]);
    let d = detect_discrepancies(&views);
    assert_eq!(d.len(), 1);
    assert_eq!(d[0].rule, "carrier_down_but_daemon_full");
}

#[test]
fn carrier_up_with_address_but_nm_none_emits_discrepancy() {
    let views = views_of(vec![
        (
            "rtnetlink",
            LinkSourceView { carrier_up: Some(true), address_attached: Some(true), ..Default::default() },
        ),
        (
            "network-manager",
            LinkSourceView { connectivity_verdict: Some(ConnectivityVerdict::NoConnectivity), ..Default::default() },
        ),
    ]);
    let d = detect_discrepancies(&views);
    assert_eq!(d.len(), 1);
    assert_eq!(d[0].rule, "carrier_up_but_daemon_none");
    assert_eq!(d[0].kind, DiscrepancyKind::CarrierUpButDaemonReportsDown);
}

#[test]
fn carrier_up_without_address_does_not_fire_rule_2() {
    // Carrier without an address is the normal initial state while a link comes up, so
    // the daemon is right there.
    let views = views_of(vec![
        (
            "rtnetlink",
            LinkSourceView { carrier_up: Some(true), address_attached: Some(false), ..Default::default() },
        ),
        (
            "network-manager",
            LinkSourceView { connectivity_verdict: Some(ConnectivityVerdict::NoConnectivity), ..Default::default() },
        ),
    ]);
    assert!(detect_discrepancies(&views).is_empty());
}

#[test]
fn kernel_alone_produces_no_discrepancies() {
    let views = views_of(vec![("rtnetlink", LinkSourceView { carrier_up: Some(false), ..Default::default() })]);
    assert!(detect_discrepancies(&views).is_empty());
}

#[test]
fn rules_table_exposed_for_describe_capabilities() {
    let table = rules();
    assert!(!table.is_empty());
    for rule in &table {
        assert!(!rule.id.is_empty());
        assert!(!rule.description.is_empty());
        assert!(!rule.sources.is_empty());
    }
}

#[test]
fn a_rule_says_what_it_detects() {
    let table = rules();
    assert_eq!(table.len(), 3);
    assert_eq!(table[0].id, "carrier_down_but_daemon_full");
    assert_eq!(
        table[0].description,
        "Kernel reports no carrier on any observed interface, but a userspace daemon advertises Full / Portal / \
         Limited connectivity. Trust the kernel — the daemon is mid-transition or stuck."
    );
    assert_eq!(table[2].sources, ["network-manager", "connman", "systemd-networkd"]);
}

#[test]
fn connectivity_verdict_is_up_classifies_correctly() {
    assert!(ConnectivityVerdict::Full.is_up());
    assert!(ConnectivityVerdict::Portal.is_up());
    assert!(ConnectivityVerdict::Limited.is_up());
    assert!(!ConnectivityVerdict::NoConnectivity.is_up());
    assert!(!ConnectivityVerdict::Unknown.is_up());
}

#[test]
fn the_last_report_of_a_source_counts() {
    let views = views_of(vec![
        ("rtnetlink", LinkSourceView { carrier_up: Some(false), ..Default::default() }),
        ("rtnetlink", LinkSourceView { carrier_up: Some(true), ..Default::default() }),
    ]);
    assert_eq!(views.get("rtnetlink").unwrap().carrier_up, Some(true));
    assert!(views.get("polling").is_none());
}

#[test]
fn each_rule_finds_one_disagreement_at_most() {
    let says = |v: ConnectivityVerdict| LinkSourceView { connectivity_verdict: Some(v), ..Default::default() };
    let views = views_of(vec![
        ("network-manager", says(ConnectivityVerdict::Full)),
        ("connman", says(ConnectivityVerdict::NoConnectivity)),
        ("systemd-networkd", says(ConnectivityVerdict::Full)),
    ]);
    let d = detect_discrepancies(&views);
    assert_eq!(d.len(), 1);
    assert_eq!(d[0].kind, DiscrepancyKind::DaemonsDisagree);
    assert_eq!(d[0].detail, "network-manager: Full; connman: None");
    assert_eq!((d[0].trusted, d[0].untrusted), ("", ""));

    let views = views_of(vec![
        ("network-manager", says(ConnectivityVerdict::Portal)),
        ("connman", says(ConnectivityVerdict::Portal)),
        ("systemd-networkd", says(ConnectivityVerdict::Limited)),
    ]);
    assert_eq!(detect_discrepancies(&views)[0].detail, "connman: Portal; systemd-networkd: Limited");
}
