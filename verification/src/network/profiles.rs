//! The profiles of the wired interface and of the Wi-Fi client, and the interfaces
//! that an intent means.

use crate::error::{permanent, ErrorView};
use crate::network::config::{ConfigView, PluginConfig};
use crate::network::intent::{
    EthernetIntent, EthernetView, FallbackIntent, FallbackView, IntentView, Ipv4Mode, NetworkIntent, StaSelectionMode,
    WifiIntent, WifiView, NM_CON_HOTSPOT_DEFAULT,
};
use crate::network::nmcli::{
    connection_exists, connection_up, device_table, ipv4_args, nm_connection_exists, nm_device_table, nm_ipv4_args,
    nmcli, nmcli_connection_up, nmcli_output, scan_candidates, wifi_scan_candidates, NM_CON_ETHERNET, NM_CON_WIFI_STA,
};
use crate::network::readings::{
    choose_candidate, first_ethernet_device, first_wired, selected, BandClass, CandidateView, WifiStaCandidate,
};
use crate::network::transcript::{reply_at, Halt, Mark, Progress, Reply, Run};
use crate::number::{debug_text, decimal, quoted, signed_decimal, to_decimal, to_signed_decimal};
use crate::text::{
    blank, cat, cat3, cat4, cat5, extend_texts, is_blank, opt_slice, owned, push_text, text_eq, texts, trim, trimmed,
};
use vstd::prelude::*;

verus! {

/// The hotspot profile that the fallback names, or the default one.
pub open spec fn hotspot_name(fallback: FallbackView) -> Seq<char> {
    let t = trimmed(fallback.hotspot_connection_name);
    if t.len() == 0 {
        NM_CON_HOTSPOT_DEFAULT@
    } else {
        t
    }
}

/// The hotspot profile of an intent.
pub fn hotspot_connection_name(fallback: &FallbackIntent) -> (r: String)
    ensures
        r@ == hotspot_name(fallback@),
{
    let t = trim(fallback.hotspot_connection_name.as_str());
    if t.is_empty() {
        NM_CON_HOTSPOT_DEFAULT.to_owned()
    } else {
        t.to_owned()
    }
}

/// The Wi-Fi interface of an intent: the one it names, or the configured one.
pub open spec fn wifi_ifname(cfg: ConfigView, wifi: WifiView) -> Seq<char> {
    let t = trimmed(wifi.ifname);
    if t.len() > 0 {
        t
    } else {
        cfg.default_wifi_iface
    }
}

/// The Wi-Fi interface of an intent.
pub fn effective_wifi_ifname(cfg: &PluginConfig, intent: &NetworkIntent) -> (r: String)
    ensures
        r@ == wifi_ifname(cfg@, intent@.wifi),
{
    let t = trim(intent.wifi.ifname.as_str());
    if !t.is_empty() {
        return t.to_owned();
    }
    cfg.default_wifi_iface.clone()
}

/// The interface that the hotspot of an intent asks for.
pub open spec fn hotspot_ifname(cfg: ConfigView, intent: IntentView) -> Seq<char> {
    let t = trimmed(intent.fallback.hotspot_ifname);
    if t.len() > 0 {
        t
    } else {
        wifi_ifname(cfg, intent.wifi)
    }
}

/// The interface that the hotspot of an intent asks for.
pub fn effective_hotspot_ifname(cfg: &PluginConfig, intent: &NetworkIntent) -> (r: String)
    ensures
        r@ == hotspot_ifname(cfg@, intent@),
{
    let t = trim(intent.fallback.hotspot_ifname.as_str());
    if !t.is_empty() {
        return t.to_owned();
    }
    effective_wifi_ifname(cfg, intent)
}

/// The interface that carries the hotspot, and whether the intent chose it.
///
/// An interface that the intent names, other than the client's, carries it. Else a
/// radio that can be client and access point at once gets a second interface: the one
/// that the environment names, or `ap0`. Else the client's own interface carries it.
pub open spec fn ap_ifname(
    fallback: FallbackView,
    sta_ifname: Seq<char>,
    hotspot_ifname_intent: Seq<char>,
    phy_supports_concurrent: bool,
    env_ifname: Option<Seq<char>>,
) -> (Seq<char>, bool) {
    let explicit = !is_blank(fallback.hotspot_ifname) && hotspot_ifname_intent != sta_ifname;
    let resolved = if explicit {
        hotspot_ifname_intent
    } else if phy_supports_concurrent {
        match env_ifname {
            Some(e) => if is_blank(e) {
                "ap0"@
            } else {
                trimmed(e)
            },
            None => "ap0"@,
        }
    } else {
        sta_ifname
    };
    (resolved, explicit)
}

/// Chooses the interface that carries the hotspot, as [`ap_ifname`] says.
pub fn resolve_ap_ifname(
    intent: &NetworkIntent,
    sta_ifname: &str,
    hotspot_ifname_intent: &str,
    phy_supports_concurrent: bool,
    env_ifname: Option<&str>,
) -> (r: (String, bool))
    ensures
        (r.0@, r.1) == ap_ifname(
            intent@.fallback,
            sta_ifname@,
            hotspot_ifname_intent@,
            phy_supports_concurrent,
            opt_slice(env_ifname),
        ),
{
    let explicit = !blank(intent.fallback.hotspot_ifname.as_str()) && !text_eq(hotspot_ifname_intent, sta_ifname);
    let resolved = if explicit {
        hotspot_ifname_intent.to_owned()
    } else if phy_supports_concurrent {
        match env_ifname {
            Some(e) => {
                let t = trim(e);
                if t.is_empty() {
                    "ap0".to_owned()
                } else {
                    t.to_owned()
                }
            },
            None => "ap0".to_owned(),
        }
    } else {
        sta_ifname.to_owned()
    };
    (resolved, explicit)
}

// The wired interface.

/// The arguments that change the wired profile.
pub open spec fn ethernet_modify_args(eth: EthernetView, ifname: Seq<char>) -> Seq<Seq<char>> {
    seq!["connection"@, "modify"@, NM_CON_ETHERNET@, "connection.interface-name"@, ifname] + ipv4_args(
        eth.ipv4_mode,
        eth.ipv4_address,
        eth.ipv4_gateway,
        eth.ipv4_dns,
    )
}

/// The arguments that create the wired profile.
pub open spec fn ethernet_add_args(eth: EthernetView, ifname: Seq<char>) -> Seq<Seq<char>> {
    seq!["connection"@, "add"@, "type"@, "ethernet"@, "con-name"@, NM_CON_ETHERNET@, "ifname"@, ifname] + ipv4_args(
        eth.ipv4_mode,
        eth.ipv4_address,
        eth.ipv4_gateway,
        eth.ipv4_dns,
    )
}

/// Whether a wired intent asks for a static address without giving one.
pub open spec fn ethernet_lacks_address(eth: EthernetView) -> bool {
    eth.ipv4_mode == Ipv4Mode::Static && is_blank(eth.ipv4_address)
}

/// Sets the wired profile up on an interface and brings it up.
pub open spec fn ethernet_on(h: Seq<Reply>, m: Mark, cfg: ConfigView, eth: EthernetView, ifname: Seq<char>) -> Progress<()> {
    match connection_exists(h, m, cfg, NM_CON_ETHERNET@) {
        Progress::Go(m1, known) => {
            let args = if known {
                ethernet_modify_args(eth, ifname)
            } else {
                ethernet_add_args(eth, ifname)
            };
            match nmcli(h, m1, cfg, args) {
                Progress::Go(m2, Ok(_)) => {
                    let m3 = m2.said(
                        (if known {
                            "modified "@
                        } else {
                            "added "@
                        }) + NM_CON_ETHERNET@,
                    );
                    match nmcli(h, m3, cfg, seq!["connection"@, "up"@, NM_CON_ETHERNET@]) {
                        Progress::Go(m4, Ok(_)) => Progress::Go(m4.said("brought up "@ + NM_CON_ETHERNET@), ()),
                        Progress::Go(m4, Err(e)) => Progress::Fail(e),
                        Progress::Need(a) => Progress::Need(a),
                        Progress::Fail(e) => Progress::Fail(e),
                    }
                },
                Progress::Go(m2, Err(e)) => Progress::Fail(e),
                Progress::Need(a) => Progress::Need(a),
                Progress::Fail(e) => Progress::Fail(e),
            }
        },
        Progress::Need(a) => Progress::Need(a),
        Progress::Fail(e) => Progress::Fail(e),
    }
}

/// What the wired part of an intent comes to.
pub open spec fn ethernet_done(h: Seq<Reply>, m: Mark, cfg: ConfigView, eth: EthernetView) -> Progress<()> {
    if !eth.enabled {
        Progress::Go(m.said("skipped ethernet (disabled in intent)"@), ())
    } else if ethernet_lacks_address(eth) {
        Progress::Fail(ErrorView::Permanent("ethernet static IPv4 requires ipv4_address (CIDR)"@))
    } else if is_blank(eth.device) {
        match device_table(h, m, cfg) {
            Progress::Go(m1, Ok(rows)) => match first_wired(rows) {
                Some(ifname) => ethernet_on(h, m1, cfg, eth, ifname),
                None => Progress::Go(
                    m1.said("warning: ethernet enabled in intent but no ethernet device found; skipping"@),
                    (),
                ),
            },
            Progress::Go(m1, Err(e)) => Progress::Fail(e),
            Progress::Need(a) => Progress::Need(a),
            Progress::Fail(e) => Progress::Fail(e),
        }
    } else {
        ethernet_on(h, m, cfg, eth, trimmed(eth.device))
    }
}

fn ethernet_on_interface(run: &mut Run, cfg: &PluginConfig, eth: &EthernetIntent, ifname: &str) -> (r: Result<(), Halt>)
    requires
        old(run).wf(),
    ensures
        final(run).follows(old(run)),
        match r {
            Ok(v) => ethernet_on(old(run).replies@, old(run)@, cfg@, eth@, ifname@) == Progress::Go(final(run)@, v),
            Err(h) => ethernet_on(old(run).replies@, old(run)@, cfg@, eth@, ifname@) == h.stop::<()>(),
        },
{
    let props = nm_ipv4_args(
        &eth.ipv4_mode,
        eth.ipv4_address.as_str(),
        eth.ipv4_gateway.as_str(),
        &eth.ipv4_dns,
    );
    let known = match nm_connection_exists(run, cfg, NM_CON_ETHERNET) {
        Ok(b) => b,
        Err(h) => return Err(h),
    };
    let mut args = if known {
        owned(vec!["connection", "modify", NM_CON_ETHERNET, "connection.interface-name", ifname])
    } else {
        owned(vec!["connection", "add", "type", "ethernet", "con-name", NM_CON_ETHERNET, "ifname", ifname])
    };
    extend_texts(&mut args, props);
    proof {
        if known {
            assert(texts(args@) =~= ethernet_modify_args(eth@, ifname@));
        } else {
            assert(texts(args@) =~= ethernet_add_args(eth@, ifname@));
        }
    }
    match nmcli_output(run, cfg, args) {
        Ok(Ok(_)) => {},
        Ok(Err(e)) => return Err(Halt::Fail(e)),
        Err(h) => return Err(h),
    }
    if known {
        run.say(cat("modified ", NM_CON_ETHERNET).as_str());
    } else {
        run.say(cat("added ", NM_CON_ETHERNET).as_str());
    }
    let up = owned(vec!["connection", "up", NM_CON_ETHERNET]);
    proof {
        assert(texts(up@) =~= seq!["connection"@, "up"@, NM_CON_ETHERNET@]);
    }
    match nmcli_output(run, cfg, up) {
        Ok(Ok(_)) => {},
        Ok(Err(e)) => return Err(Halt::Fail(e)),
        Err(h) => return Err(h),
    }
    run.say(cat("brought up ", NM_CON_ETHERNET).as_str());
    Ok(())
}

/// Brings the wired interface into the state of the intent, as [`ethernet_done`] says.
pub fn ensure_ethernet(run: &mut Run, cfg: &PluginConfig, intent: &NetworkIntent) -> (r: Result<(), Halt>)
    requires
        old(run).wf(),
    ensures
        final(run).follows(old(run)),
        match r {
            Ok(v) => ethernet_done(old(run).replies@, old(run)@, cfg@, intent@.ethernet) == Progress::Go(
                final(run)@,
                v,
            ),
            Err(h) => ethernet_done(old(run).replies@, old(run)@, cfg@, intent@.ethernet) == h.stop::<()>(),
        },
{
    let eth = &intent.ethernet;
    if !eth.enabled {
        run.say("skipped ethernet (disabled in intent)");
        return Ok(());
    }
    if eth.ipv4_mode == Ipv4Mode::Static && blank(eth.ipv4_address.as_str()) {
        return Err(Halt::Fail(permanent("ethernet static IPv4 requires ipv4_address (CIDR)")));
    }
    if blank(eth.device.as_str()) {
        let rows = match nm_device_table(run, cfg) {
            Ok(Ok(v)) => v,
            Ok(Err(e)) => return Err(Halt::Fail(e)),
            Err(h) => return Err(h),
        };
        match first_ethernet_device(&rows) {
            Some(ifname) => ethernet_on_interface(run, cfg, eth, ifname.as_str()),
            None => {
                run.say("warning: ethernet enabled in intent but no ethernet device found; skipping");
                Ok(())
            },
        }
    } else {
        ethernet_on_interface(run, cfg, eth, trim(eth.device.as_str()))
    }
}

// The Wi-Fi client.

/// The name under which a band is reported.
pub open spec fn band_name(b: BandClass) -> Seq<char> {
    match b {
        BandClass::Ghz2_4 => "Ghz2_4"@,
        BandClass::Ghz5 => "Ghz5"@,
        BandClass::Ghz6 => "Ghz6"@,
        BandClass::Unknown => "Unknown"@,
    }
}

fn band_label(b: BandClass) -> (r: &'static str)
    ensures
        r@ == band_name(b),
{
    match b {
        BandClass::Ghz2_4 => "Ghz2_4",
        BandClass::Ghz5 => "Ghz5",
        BandClass::Ghz6 => "Ghz6",
        BandClass::Unknown => "Unknown",
    }
}

/// The name under which a selection mode is reported.
pub open spec fn mode_name(m: StaSelectionMode) -> Seq<char> {
    match m {
        StaSelectionMode::Legacy => "Legacy"@,
        StaSelectionMode::AutoStable => "AutoStable"@,
        StaSelectionMode::AutoPerformance => "AutoPerformance"@,
        StaSelectionMode::PreferBand => "PreferBand"@,
        StaSelectionMode::LockBssid => "LockBssid"@,
    }
}

fn mode_label(m: StaSelectionMode) -> (r: &'static str)
    ensures
        r@ == mode_name(m),
{
    match m {
        StaSelectionMode::Legacy => "Legacy",
        StaSelectionMode::AutoStable => "AutoStable",
        StaSelectionMode::AutoPerformance => "AutoPerformance",
        StaSelectionMode::PreferBand => "PreferBand",
        StaSelectionMode::LockBssid => "LockBssid",
    }
}

/// What is reported of the access point that was chosen.
pub open spec fn candidate_line(c: CandidateView, mode: StaSelectionMode) -> Seq<char> {
    "STA candidate selected ssid="@ + debug_text(c.ssid) + " bssid="@ + c.bssid + " band="@ + band_name(c.band)
        + " signal="@ + decimal(c.signal_pct as nat) + " mode="@ + mode_name(mode)
}

fn candidate_text(c: &WifiStaCandidate, mode: StaSelectionMode) -> (r: String)
    ensures
        r@ == candidate_line(c@, mode),
{
    let shown = quoted(c.ssid.as_str());
    let head = cat4("STA candidate selected ssid=", shown.as_str(), " bssid=", c.bssid.as_str());
    let middle = cat5(
        head.as_str(),
        " band=",
        band_label(c.band),
        " signal=",
        to_decimal(c.signal_pct as u64).as_str(),
    );
    cat3(middle.as_str(), " mode=", mode_label(mode))
}

/// Why a Wi-Fi client cannot be set up, where its settings do not suffice.
pub open spec fn sta_complaint(ifname: Seq<char>, wifi: WifiView) -> Option<Seq<char>> {
    if is_blank(ifname) {
        Some("wifi interface name is empty"@)
    } else if is_blank(wifi.sta_ssid) {
        Some("wifi.sta_ssid is required for sta role"@)
    } else if wifi.sta_ipv4_mode == Ipv4Mode::Static && is_blank(wifi.sta_ipv4_address) {
        Some("wifi static IPv4 requires sta_ipv4_address (CIDR)"@)
    } else {
        None
    }
}

/// A passphrase without white space at its ends, where something is left of it.
pub open spec fn passphrase(psk: Option<Seq<char>>) -> Option<Seq<char>> {
    match psk {
        Some(p) => if is_blank(p) {
            None
        } else {
            Some(trimmed(p))
        },
        None => None,
    }
}

/// A passphrase, as [`passphrase`] says.
pub fn passphrase_of<'a>(psk: Option<&'a str>) -> (r: Option<&'a str>)
    ensures
        opt_slice(r) == passphrase(opt_slice(psk)),
{
    match psk {
        Some(p) => {
            let t = trim(p);
            if t.is_empty() {
                None
            } else {
                Some(t)
            }
        },
        None => None,
    }
}

/// The arguments that protect a profile with a passphrase.
pub open spec fn psk_args(psk: Seq<char>) -> Seq<Seq<char>> {
    seq!["wifi-sec.key-mgmt"@, "wpa-psk"@, "wifi-sec.psk-flags"@, "0"@, "wifi-sec.psk"@, psk]
}

/// The security arguments of the client profile: none at all, or the passphrase; no
/// arguments where a passphrase is missing.
pub open spec fn sta_security(wifi: WifiView, psk: Option<Seq<char>>) -> Option<Seq<Seq<char>>> {
    if wifi.sta_open {
        Some(seq!["wifi-sec.key-mgmt"@, "none"@])
    } else {
        match passphrase(psk) {
            Some(p) => Some(psk_args(p)),
            None => None,
        }
    }
}

fn sta_security_args(wifi: &WifiIntent, psk: Option<&str>) -> (r: Option<Vec<String>>)
    ensures
        match r {
            Some(v) => sta_security(wifi@, opt_slice(psk)) == Some(texts(v@)),
            None => sta_security(wifi@, opt_slice(psk)) is None,
        },
{
    if wifi.sta_open {
        let out = owned(vec!["wifi-sec.key-mgmt", "none"]);
        proof {
            assert(texts(out@) =~= seq!["wifi-sec.key-mgmt"@, "none"@]);
        }
        Some(out)
    } else {
        match passphrase_of(psk) {
            Some(p) => {
                let out = owned(
                    vec!["wifi-sec.key-mgmt", "wpa-psk", "wifi-sec.psk-flags", "0", "wifi-sec.psk", p],
                );
                proof {
                    assert(texts(out@) =~= psk_args(p@));
                }
                Some(out)
            },
            None => None,
        }
    }
}

/// The view of an optional candidate.
pub open spec fn candidate_view(c: Option<WifiStaCandidate>) -> Option<CandidateView> {
    match c {
        Some(c) => Some(c@),
        None => None,
    }
}

/// The access point to which a profile is bound, where one was chosen.
pub open spec fn bound_bssid(c: Option<CandidateView>) -> Option<Seq<char>> {
    match c {
        Some(c) => if is_blank(c.bssid) {
            None
        } else {
            Some(trimmed(c.bssid))
        },
        None => None,
    }
}

/// The arguments that change the client profile.
pub open spec fn sta_modify_args(ifname: Seq<char>, wifi: WifiView, bssid: Option<Seq<char>>, security: Seq<Seq<char>>) -> Seq<
    Seq<char>,
> {
    seq![
        "connection"@,
        "modify"@,
        NM_CON_WIFI_STA@,
        "connection.interface-name"@,
        trimmed(ifname),
        "802-11-wireless.ssid"@,
        trimmed(wifi.sta_ssid),
        "802-11-wireless.bssid"@,
        match bssid {
            Some(b) => b,
            None => Seq::<char>::empty(),
        },
    ] + security + ipv4_args(
        wifi.sta_ipv4_mode,
        trimmed(wifi.sta_ipv4_address),
        trimmed(wifi.sta_ipv4_gateway),
        wifi.sta_ipv4_dns,
    )
}

/// The arguments that create the client profile.
pub open spec fn sta_add_args(ifname: Seq<char>, wifi: WifiView, bssid: Option<Seq<char>>, security: Seq<Seq<char>>) -> Seq<
    Seq<char>,
> {
    seq![
        "connection"@,
        "add"@,
        "type"@,
        "wifi"@,
        "con-name"@,
        NM_CON_WIFI_STA@,
        "ifname"@,
        trimmed(ifname),
        "ssid"@,
        trimmed(wifi.sta_ssid),
    ] + (match bssid {
        Some(b) => seq!["802-11-wireless.bssid"@, b],
        None => seq![],
    }) + security + ipv4_args(
        wifi.sta_ipv4_mode,
        trimmed(wifi.sta_ipv4_address),
        trimmed(wifi.sta_ipv4_gateway),
        wifi.sta_ipv4_dns,
    )
}

/// Brings the client profile up. Where the hotspot can stand in for it, a failure is
/// only reported.
pub open spec fn sta_up(h: Seq<Reply>, m: Mark, cfg: ConfigView, nonfatal: bool) -> Progress<()> {
    if nonfatal {
        match connection_up(h, m, cfg, NM_CON_WIFI_STA@) {
            Progress::Go(m1, Ok(o)) => if o.success {
                Progress::Go(m1.said("brought up "@ + NM_CON_WIFI_STA@), ())
            } else {
                Progress::Go(
                    m1.said(
                        "warning: nmcli connection up "@ + NM_CON_WIFI_STA@ + " failed (exit "@ + signed_decimal(
                            match o.code {
                                Some(c) => c as int,
                                None => -1,
                            },
                        ) + "): "@ + trimmed(o.stderr),
                    ),
                    (),
                )
            },
            Progress::Go(m1, Err(e)) => Progress::Go(
                m1.said("warning: nmcli connection up "@ + NM_CON_WIFI_STA@ + " spawn: "@ + e.text()),
                (),
            ),
            Progress::Need(a) => Progress::Need(a),
            Progress::Fail(e) => Progress::Fail(e),
        }
    } else {
        match nmcli(h, m, cfg, seq!["connection"@, "up"@, NM_CON_WIFI_STA@]) {
            Progress::Go(m1, Ok(_)) => Progress::Go(m1.said("brought up "@ + NM_CON_WIFI_STA@), ()),
            Progress::Go(m1, Err(e)) => Progress::Fail(e),
            Progress::Need(a) => Progress::Need(a),
            Progress::Fail(e) => Progress::Fail(e),
        }
    }
}

/// Sets the client profile up with a chosen access point, and brings it up.
pub open spec fn sta_with(
    h: Seq<Reply>,
    m: Mark,
    cfg: ConfigView,
    ifname: Seq<char>,
    wifi: WifiView,
    psk: Option<Seq<char>>,
    nonfatal: bool,
    chosen: Option<CandidateView>,
) -> Progress<()> {
    let m0 = match chosen {
        Some(c) => m.said(candidate_line(c, wifi.sta_selection_mode)),
        None => m,
    };
    let bssid = bound_bssid(chosen);
    match sta_security(wifi, psk) {
        None => Progress::Fail(ErrorView::Permanent("wifi-sta.psk missing while sta_open=false"@)),
        Some(security) => match connection_exists(h, m0, cfg, NM_CON_WIFI_STA@) {
            Progress::Go(m1, known) => {
                let args = if known {
                    sta_modify_args(ifname, wifi, bssid, security)
                } else {
                    sta_add_args(ifname, wifi, bssid, security)
                };
                match nmcli(h, m1, cfg, args) {
                    Progress::Go(m2, Ok(_)) => sta_up(
                        h,
                        m2.said(
                            (if known {
                                "modified "@
                            } else {
                                "added "@
                            }) + NM_CON_WIFI_STA@,
                        ),
                        cfg,
                        nonfatal,
                    ),
                    Progress::Go(m2, Err(e)) => Progress::Fail(e),
                    Progress::Need(a) => Progress::Need(a),
                    Progress::Fail(e) => Progress::Fail(e),
                }
            },
            Progress::Need(a) => Progress::Need(a),
            Progress::Fail(e) => Progress::Fail(e),
        },
    }
}

/// What setting the Wi-Fi client up comes to.
pub open spec fn sta_done(
    h: Seq<Reply>,
    m: Mark,
    cfg: ConfigView,
    ifname: Seq<char>,
    wifi: WifiView,
    psk: Option<Seq<char>>,
    nonfatal: bool,
) -> Progress<()> {
    match sta_complaint(ifname, wifi) {
        Some(c) => Progress::Fail(ErrorView::Permanent(c)),
        None => match scan_candidates(h, m, cfg, Some(trimmed(ifname))) {
            Progress::Go(m1, Ok(cs)) => sta_with(h, m1, cfg, ifname, wifi, psk, nonfatal, selected(wifi, cs)),
            Progress::Go(m1, Err(_)) => sta_with(h, m1, cfg, ifname, wifi, psk, nonfatal, None),
            Progress::Need(a) => Progress::Need(a),
            Progress::Fail(e) => Progress::Fail(e),
        },
    }
}

fn bring_sta_up(run: &mut Run, cfg: &PluginConfig, nonfatal: bool) -> (r: Result<(), Halt>)
    requires
        old(run).wf(),
    ensures
        final(run).follows(old(run)),
        match r {
            Ok(v) => sta_up(old(run).replies@, old(run)@, cfg@, nonfatal) == Progress::Go(final(run)@, v),
            Err(h) => sta_up(old(run).replies@, old(run)@, cfg@, nonfatal) == h.stop::<()>(),
        },
{
    if nonfatal {
        match nmcli_connection_up(run, cfg, NM_CON_WIFI_STA) {
            Ok(Ok(o)) => {
                if o.success {
                    run.say(cat("brought up ", NM_CON_WIFI_STA).as_str());
                } else {
                    let code: i64 = match o.code {
                        Some(c) => c as i64,
                        None => -1,
                    };
                    let head = cat4(
                        "warning: nmcli connection up ",
                        NM_CON_WIFI_STA,
                        " failed (exit ",
                        to_signed_decimal(code).as_str(),
                    );
                    run.say(cat3(head.as_str(), "): ", trim(o.stderr.as_str())).as_str());
                }
            },
            Ok(Err(e)) => {
                run.say(cat4("warning: nmcli connection up ", NM_CON_WIFI_STA, " spawn: ", e.message()).as_str());
            },
            Err(h) => return Err(h),
        }
    } else {
        let args = owned(vec!["connection", "up", NM_CON_WIFI_STA]);
        proof {
            assert(texts(args@) =~= seq!["connection"@, "up"@, NM_CON_WIFI_STA@]);
        }
        match nmcli_output(run, cfg, args) {
            Ok(Ok(_)) => {},
            Ok(Err(e)) => return Err(Halt::Fail(e)),
            Err(h) => return Err(h),
        }
        run.say(cat("brought up ", NM_CON_WIFI_STA).as_str());
    }
    Ok(())
}

fn sta_profile_list(
    known: bool,
    ifname: &str,
    wifi: &WifiIntent,
    bssid: Option<&str>,
    security: Vec<String>,
) -> (r: Vec<String>)
    ensures
        known ==> texts(r@) == sta_modify_args(ifname@, wifi@, opt_slice(bssid), texts(security@)),
        !known ==> texts(r@) == sta_add_args(ifname@, wifi@, opt_slice(bssid), texts(security@)),
{
    let ifn = trim(ifname);
    let ssid = trim(wifi.sta_ssid.as_str());
    let ipv4 = nm_ipv4_args(
        &wifi.sta_ipv4_mode,
        trim(wifi.sta_ipv4_address.as_str()),
        trim(wifi.sta_ipv4_gateway.as_str()),
        &wifi.sta_ipv4_dns,
    );
    let ghost sec = texts(security@);
    let mut args: Vec<String>;
    if known {
        args = owned(
            vec![
                "connection",
                "modify",
                NM_CON_WIFI_STA,
                "connection.interface-name",
                ifn,
                "802-11-wireless.ssid",
                ssid,
                "802-11-wireless.bssid",
            ],
        );
        match bssid {
            Some(b) => push_text(&mut args, b),
            None => {
                let none = String::new();
                push_text(&mut args, none.as_str());
            },
        }
        extend_texts(&mut args, security);
        extend_texts(&mut args, ipv4);
        proof {
            assert(texts(args@) =~= sta_modify_args(ifname@, wifi@, opt_slice(bssid), sec));
        }
    } else {
        args = owned(
            vec![
                "connection",
                "add",
                "type",
                "wifi",
                "con-name",
                NM_CON_WIFI_STA,
                "ifname",
                ifn,
                "ssid",
                ssid,
            ],
        );
        if let Some(b) = bssid {
            push_text(&mut args, "802-11-wireless.bssid");
            push_text(&mut args, b);
        }
        extend_texts(&mut args, security);
        extend_texts(&mut args, ipv4);
        proof {
            assert(texts(args@) =~= sta_add_args(ifname@, wifi@, opt_slice(bssid), sec));
        }
    }
    args
}

fn sta_with_candidate(
    run: &mut Run,
    cfg: &PluginConfig,
    ifname: &str,
    wifi: &WifiIntent,
    sta_psk: Option<&str>,
    nonfatal: bool,
    chosen: Option<WifiStaCandidate>,
) -> (r: Result<(), Halt>)
    requires
        old(run).wf(),
    ensures
        final(run).follows(old(run)),
        match r {
            Ok(v) => sta_with(
                old(run).replies@,
                old(run)@,
                cfg@,
                ifname@,
                wifi@,
                opt_slice(sta_psk),
                nonfatal,
                candidate_view(chosen),
            ) == Progress::Go(final(run)@, v),
            Err(h) => sta_with(
                old(run).replies@,
                old(run)@,
                cfg@,
                ifname@,
                wifi@,
                opt_slice(sta_psk),
                nonfatal,
                candidate_view(chosen),
            ) == h.stop::<()>(),
        },
{
    let mut bssid: Option<&str> = None;
    if let Some(c) = &chosen {
        let b = trim(c.bssid.as_str());
        if !b.is_empty() {
            bssid = Some(b);
        }
        run.say(candidate_text(c, wifi.sta_selection_mode).as_str());
    }
    let security = match sta_security_args(wifi, sta_psk) {
        Some(s) => s,
        None => return Err(Halt::Fail(permanent("wifi-sta.psk missing while sta_open=false"))),
    };
    let known = match nm_connection_exists(run, cfg, NM_CON_WIFI_STA) {
        Ok(b) => b,
        Err(h) => return Err(h),
    };
    let args = sta_profile_list(known, ifname, wifi, bssid, security);
    match nmcli_output(run, cfg, args) {
        Ok(Ok(_)) => {},
        Ok(Err(e)) => return Err(Halt::Fail(e)),
        Err(h) => return Err(h),
    }
    if known {
        run.say(cat("modified ", NM_CON_WIFI_STA).as_str());
    } else {
        run.say(cat("added ", NM_CON_WIFI_STA).as_str());
    }
    bring_sta_up(run, cfg, nonfatal)
}

/// Sets the Wi-Fi client up, as [`sta_done`] says.
pub fn ensure_wifi_sta(
    run: &mut Run,
    cfg: &PluginConfig,
    wifi_ifname: &str,
    wifi: &WifiIntent,
    sta_psk: Option<&str>,
    sta_connection_up_nonfatal: bool,
) -> (r: Result<(), Halt>)
    requires
        old(run).wf(),
    ensures
        final(run).follows(old(run)),
        match r {
            Ok(v) => sta_done(
                old(run).replies@,
                old(run)@,
                cfg@,
                wifi_ifname@,
                wifi@,
                opt_slice(sta_psk),
                sta_connection_up_nonfatal,
            ) == Progress::Go(final(run)@, v),
            Err(h) => sta_done(
                old(run).replies@,
                old(run)@,
                cfg@,
                wifi_ifname@,
                wifi@,
                opt_slice(sta_psk),
                sta_connection_up_nonfatal,
            ) == h.stop::<()>(),
        },
{
    let ifname = trim(wifi_ifname);
    if ifname.is_empty() {
        return Err(Halt::Fail(permanent("wifi interface name is empty")));
    }
    if blank(wifi.sta_ssid.as_str()) {
        return Err(Halt::Fail(permanent("wifi.sta_ssid is required for sta role")));
    }
    if wifi.sta_ipv4_mode == Ipv4Mode::Static && blank(wifi.sta_ipv4_address.as_str()) {
        return Err(Halt::Fail(permanent("wifi static IPv4 requires sta_ipv4_address (CIDR)")));
    }
    let chosen: Option<WifiStaCandidate> = match wifi_scan_candidates(run, cfg, Some(ifname)) {
        Ok(Ok(cs)) => choose_candidate(wifi, &cs),
        Ok(Err(_)) => None,
        Err(h) => return Err(h),
    };
    sta_with_candidate(run, cfg, wifi_ifname, wifi, sta_psk, sta_connection_up_nonfatal, chosen)
}

/// The hotspot's interface is the one that the intent names besides the client's; or else
/// a second one on a radio that can be shared, under the name that the operator gave or a
/// name of its own; or else the client's.
pub proof fn hotspots_find_their_interface(
    fallback: FallbackView,
    sta: Seq<char>,
    named: Seq<char>,
    env: Option<Seq<char>>,
)
    ensures
        !is_blank(fallback.hotspot_ifname) && named != sta ==> ap_ifname(fallback, sta, named, true, env) == (named, true)
            && ap_ifname(fallback, sta, named, false, env) == (named, true),
        is_blank(fallback.hotspot_ifname) || named == sta ==> {
            &&& ap_ifname(fallback, sta, named, false, env) == (sta, false)
            &&& env is Some && !is_blank(env->0) ==> ap_ifname(fallback, sta, named, true, env) == (
                trimmed(env->0),
                false,
            )
            &&& env is None || is_blank(env->0) ==> ap_ifname(fallback, sta, named, true, env) == ("ap0"@, false)
        },
{
}

/// A client joins an open network without a key, and any other with the passphrase
/// without the white space around it; without one it does not join.
pub proof fn clients_join_with_their_passphrase(wifi: WifiView, psk: Seq<char>)
    ensures
        wifi.sta_open ==> sta_security(wifi, Some(psk)) == Some(seq!["wifi-sec.key-mgmt"@, "none"@]) && sta_security(
            wifi,
            None,
        ) == Some(seq!["wifi-sec.key-mgmt"@, "none"@]),
        !wifi.sta_open ==> sta_security(wifi, None) is None,
        !wifi.sta_open && is_blank(psk) ==> sta_security(wifi, Some(psk)) is None,
        !wifi.sta_open && !is_blank(psk) ==> sta_security(wifi, Some(psk)) == Some(
            seq!["wifi-sec.key-mgmt"@, "wpa-psk"@, "wifi-sec.psk-flags"@, "0"@, "wifi-sec.psk"@, trimmed(psk)],
        ),
{
}

/// A client that does not come up stops the whole where there is no hotspot to fall back
/// on, and is only warned of where there is one.
pub proof fn clients_may_fail_beside_a_hotspot(h: Seq<Reply>, m: Mark, cfg: ConfigView)
    ensures
        reply_at(h, m.pos) matches Some(Reply::Ran(o)) ==> {
            &&& o@.success ==> sta_up(h, m, cfg, true) == Progress::Go(
                m.read().said("brought up "@ + "evo-network-wifi-sta"@),
                (),
            ) && sta_up(h, m, cfg, false) == Progress::Go(m.read().said("brought up "@ + "evo-network-wifi-sta"@), ())
            &&& !o@.success ==> (sta_up(h, m, cfg, true) matches Progress::Go(n, _) && n.pos == m.pos + 1 && n.log.len()
                == m.log.len() + 1 && n.log.last() == "warning: nmcli connection up "@ + "evo-network-wifi-sta"@
                + " failed (exit "@ + signed_decimal(
                match o@.code {
                    Some(c) => c as int,
                    None => -1,
                },
            ) + "): "@ + trimmed(o@.stderr))
            &&& !o@.success ==> (reply_at(h, m.pos + 1) matches Some(Reply::Ran(q)) && !q@.success ==> sta_up(h, m, cfg, false)
                is Fail)
        },
        reply_at(h, m.pos) matches Some(Reply::SpawnFailed(_)) ==> sta_up(h, m, cfg, true) is Go && sta_up(h, m, cfg, false)
            is Fail,
        reply_at(h, m.pos) == Some(Reply::TimedOut) ==> sta_up(h, m, cfg, true) is Go && sta_up(h, m, cfg, false) is Fail,
{
}

/// The access point that was chosen is bound to by its address, and told of in the report
/// with its name, address, band and signal and with the way that it was chosen.
pub proof fn chosen_access_points_are_told(c: CandidateView, mode: StaSelectionMode)
    ensures
        candidate_line(c, mode) == "STA candidate selected ssid="@ + debug_text(c.ssid) + " bssid="@ + c.bssid + " band="@
            + band_name(c.band) + " signal="@ + decimal(c.signal_pct as nat) + " mode="@ + mode_name(mode),
        bound_bssid(None) is None,
        is_blank(c.bssid) ==> bound_bssid(Some(c)) is None,
        !is_blank(c.bssid) ==> bound_bssid(Some(c)) == Some(trimmed(c.bssid)),
        band_name(BandClass::Ghz2_4) == "Ghz2_4"@,
        band_name(BandClass::Ghz5) == "Ghz5"@,
        band_name(BandClass::Ghz6) == "Ghz6"@,
        band_name(BandClass::Unknown) == "Unknown"@,
        mode_name(StaSelectionMode::Legacy) == "Legacy"@,
        mode_name(StaSelectionMode::AutoStable) == "AutoStable"@,
        mode_name(StaSelectionMode::AutoPerformance) == "AutoPerformance"@,
        mode_name(StaSelectionMode::PreferBand) == "PreferBand"@,
        mode_name(StaSelectionMode::LockBssid) == "LockBssid"@,
{
}

/// The names that an intent leaves blank have a default, and those that it gives are taken
/// without the white space around them.
pub proof fn blank_names_have_defaults(cfg: ConfigView, intent: IntentView)
    ensures
        is_blank(intent.fallback.hotspot_connection_name) ==> hotspot_name(intent.fallback) == "volumio-hotspot"@,
        !is_blank(intent.fallback.hotspot_connection_name) ==> hotspot_name(intent.fallback) == trimmed(
            intent.fallback.hotspot_connection_name,
        ),
        is_blank(intent.wifi.ifname) ==> wifi_ifname(cfg, intent.wifi) == cfg.default_wifi_iface,
        !is_blank(intent.wifi.ifname) ==> wifi_ifname(cfg, intent.wifi) == trimmed(intent.wifi.ifname),
        is_blank(intent.fallback.hotspot_ifname) ==> hotspot_ifname(cfg, intent) == wifi_ifname(cfg, intent.wifi),
        !is_blank(intent.fallback.hotspot_ifname) ==> hotspot_ifname(cfg, intent) == trimmed(
            intent.fallback.hotspot_ifname,
        ),
{
}

/// A wire is set up where its profile can be written and brought up; both are told.
pub proof fn wires_come_up(
    h: Seq<Reply>,
    m: Mark,
    cfg: ConfigView,
    eth: EthernetView,
    m1: Mark,
    known: bool,
    m2: Mark,
    m3: Mark,
    said: Seq<char>,
    told: Seq<char>,
)
    requires
        eth.enabled,
        eth.ipv4_mode == Ipv4Mode::Dhcp || !is_blank(eth.ipv4_address),
        !is_blank(eth.device),
        connection_exists(h, m, cfg, "evo-network-ethernet"@) == Progress::Go(m1, known),
        known ==> nmcli(h, m1, cfg, ethernet_modify_args(eth, trimmed(eth.device))) == Progress::Go(
            m2,
            Ok::<Seq<char>, ErrorView>(said),
        ),
        !known ==> nmcli(h, m1, cfg, ethernet_add_args(eth, trimmed(eth.device))) == Progress::Go(
            m2,
            Ok::<Seq<char>, ErrorView>(said),
        ),
        nmcli(
            h,
            m2.said(
                (if known {
                    "modified "@
                } else {
                    "added "@
                }) + "evo-network-ethernet"@,
            ),
            cfg,
            seq!["connection"@, "up"@, "evo-network-ethernet"@],
        ) == Progress::Go(m3, Ok::<Seq<char>, ErrorView>(told)),
    ensures
        ethernet_done(h, m, cfg, eth) == Progress::Go(m3.said("brought up "@ + "evo-network-ethernet"@), ()),
{
}

/// A client is set up where its network is named, its address given where it is fixed, its
/// passphrase there where it needs one, its profile can be written and it comes up.
pub proof fn clients_come_up(
    h: Seq<Reply>,
    m: Mark,
    cfg: ConfigView,
    ifname: Seq<char>,
    wifi: WifiView,
    psk: Option<Seq<char>>,
    nonfatal: bool,
    m1: Mark,
    m2: Mark,
    known: bool,
    m3: Mark,
    said: Seq<char>,
    m4: Mark,
    e: ErrorView,
    security: Seq<Seq<char>>,
)
    requires
        !is_blank(ifname),
        !is_blank(wifi.sta_ssid),
        wifi.sta_ipv4_mode == Ipv4Mode::Dhcp || !is_blank(wifi.sta_ipv4_address),
        sta_security(wifi, psk) == Some(security),
        scan_candidates(h, m, cfg, Some(trimmed(ifname))) == Progress::Go(m1, Err::<Seq<CandidateView>, ErrorView>(e)),
        connection_exists(h, m1, cfg, "evo-network-wifi-sta"@) == Progress::Go(m2, known),
        known ==> nmcli(h, m2, cfg, sta_modify_args(ifname, wifi, None, security)) == Progress::Go(
            m3,
            Ok::<Seq<char>, ErrorView>(said),
        ),
        !known ==> nmcli(h, m2, cfg, sta_add_args(ifname, wifi, None, security)) == Progress::Go(
            m3,
            Ok::<Seq<char>, ErrorView>(said),
        ),
        sta_up(
            h,
            m3.said(
                (if known {
                    "modified "@
                } else {
                    "added "@
                }) + "evo-network-wifi-sta"@,
            ),
            cfg,
            nonfatal,
        ) == Progress::Go(m4, ()),
    ensures
        sta_done(h, m, cfg, ifname, wifi, psk, nonfatal) == Progress::Go(m4, ()),
{
}

/// The access point that was chosen is told and bound to; the rest is as without one.
pub proof fn chosen_access_points_are_bound_to(
    h: Seq<Reply>,
    m: Mark,
    cfg: ConfigView,
    ifname: Seq<char>,
    wifi: WifiView,
    psk: Option<Seq<char>>,
    nonfatal: bool,
    m1: Mark,
    cs: Seq<CandidateView>,
    c: CandidateView,
    security: Seq<Seq<char>>,
    m2: Mark,
    known: bool,
    m3: Mark,
    said: Seq<char>,
)
    requires
        !is_blank(ifname),
        !is_blank(wifi.sta_ssid),
        wifi.sta_ipv4_mode == Ipv4Mode::Dhcp || !is_blank(wifi.sta_ipv4_address),
        sta_security(wifi, psk) == Some(security),
        scan_candidates(h, m, cfg, Some(trimmed(ifname))) == Progress::Go(m1, Ok::<Seq<CandidateView>, ErrorView>(cs)),
        selected(wifi, cs) == Some(c),
        !is_blank(c.bssid),
        connection_exists(h, m1.said(candidate_line(c, wifi.sta_selection_mode)), cfg, "evo-network-wifi-sta"@)
            == Progress::Go(m2, known),
        known ==> nmcli(h, m2, cfg, sta_modify_args(ifname, wifi, Some(trimmed(c.bssid)), security)) == Progress::Go(
            m3,
            Ok::<Seq<char>, ErrorView>(said),
        ),
        !known ==> nmcli(h, m2, cfg, sta_add_args(ifname, wifi, Some(trimmed(c.bssid)), security)) == Progress::Go(
            m3,
            Ok::<Seq<char>, ErrorView>(said),
        ),
    ensures
        sta_done(h, m, cfg, ifname, wifi, psk, nonfatal) == sta_up(
            h,
            m3.said(
                (if known {
                    "modified "@
                } else {
                    "added "@
                }) + "evo-network-wifi-sta"@,
            ),
            cfg,
            nonfatal,
        ),
{
}

} // verus!
