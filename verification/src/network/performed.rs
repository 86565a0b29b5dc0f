//! What was done: the commands that applying an intent has run when it reports success.
//!
//! The logic is a function of the replies. What it asked for at a place is therefore what
//! it stops at when it is given the replies before that place and no others.

use crate::network::apply::{applied, following, radio, radio_cleared, vif_created, RadioView, ReportView};
use crate::error::ErrorView;
use crate::network::config::ConfigView;
use crate::network::hotspot::{
    ap_add_args, ap_done, ap_modify_args, ap_profile, ap_security, lists, open_recovery, profile_opened, settle_from,
    shared_radio, wire_is_dead,
};
use crate::network::intent::{EthernetView, FallbackView, IntentView, Ipv4Mode, WifiRole, WifiView};
use crate::network::nmcli::{
    active_on_device, connection_down, connection_exists, connection_up, device_table, dns_joined, hotspot_up, hotspot_up_from,
    ipv4_args, nmcli, scan_candidates, wifi_list_args,
};
use crate::network::profiles::{
    bound_bssid, ethernet_add_args, ethernet_done, ethernet_modify_args, ethernet_on, hotspot_name, passphrase, psk_args,
    sta_add_args, sta_complaint, sta_done, sta_modify_args, sta_security, sta_up, sta_with,
};
use crate::network::readings::{ap_channel_args, candidate_rows, device_rows, first_wired, selected, CandidateView};
use crate::network::transcript::{reply_at, Ask, Mark, Progress, Reply};
use crate::network::vif::{concurrent, vif_absent};
use crate::number::decimal;
use crate::text::{has_prefix, is_blank, lines, lowered, trimmed, trimming_is_idempotent, lemma_trim_fixed};
use vstd::prelude::*;

verus! {

// Places.

/// Whether a piece of the logic that came to its end on all replies comes to the same end
/// on the first `n` of them, where it read no more.
pub open spec fn kept<V>(whole: Progress<V>, part: Progress<V>, m: Mark, n: int) -> bool {
    whole matches Progress::Go(m1, _) ==> m.pos <= m1.pos && (m1.pos <= n ==> part == whole)
}

/// Whether the logic stopped at a command of `nmcli`, run directly.
pub open spec fn stopped_at<V>(stop: Progress<V>, cfg: ConfigView, args: Seq<Seq<char>>) -> bool {
    stop == Progress::<V>::Need(
        Ask::Run { program: cfg.nmcli_path, args, timeout_ms: Some(cfg.nmcli_timeout_ms) },
    )
}

/// Whether the logic stopped at a command of `nmcli`, run directly or through `sudo`, and
/// the command that was then run at place `i` exited without an error.
pub open spec fn did<V>(stop: Progress<V>, h: Seq<Reply>, i: int, cfg: ConfigView, args: Seq<Seq<char>>) -> bool {
    &&& 0 <= i < h.len()
    &&& h[i] matches Reply::Ran(o) && o.success
    &&& stopped_at(stop, cfg, args) || stop == Progress::<V>::Need(
        Ask::Run {
            program: "sudo"@,
            args: seq!["-n"@, cfg.nmcli_path] + args,
            timeout_ms: Some(cfg.nmcli_timeout_ms),
        },
    )
}

proof fn lemma_replies(h: Seq<Reply>, n: int)
    requires
        0 <= n <= h.len(),
    ensures
        forall|p: int| p < n ==> #[trigger] reply_at(h.take(n), p) == reply_at(h, p),
        forall|p: int| p >= n ==> #[trigger] reply_at(h.take(n), p) is None,
{
}

proof fn lemma_nmcli(h: Seq<Reply>, m: Mark, cfg: ConfigView, args: Seq<Seq<char>>, n: int)
    requires
        0 <= n <= h.len(),
    ensures
        kept(nmcli(h, m, cfg, args), nmcli(h.take(n), m, cfg, args), m, n),
{
    lemma_replies(h, n);
}

proof fn lemma_exists(h: Seq<Reply>, m: Mark, cfg: ConfigView, name: Seq<char>, n: int)
    requires
        0 <= n <= h.len(),
    ensures
        kept(connection_exists(h, m, cfg, name), connection_exists(h.take(n), m, cfg, name), m, n),
{
    lemma_replies(h, n);
}

proof fn lemma_down(h: Seq<Reply>, m: Mark, cfg: ConfigView, name: Seq<char>, n: int)
    requires
        0 <= n <= h.len(),
    ensures
        kept(connection_down(h, m, cfg, name), connection_down(h.take(n), m, cfg, name), m, n),
{
    lemma_replies(h, n);
}

proof fn lemma_absent(h: Seq<Reply>, m: Mark, ap: Seq<char>, n: int)
    requires
        0 <= n <= h.len(),
    ensures
        kept(vif_absent(h, m, ap), vif_absent(h.take(n), m, ap), m, n),
{
    lemma_replies(h, n);
}

proof fn lemma_created(h: Seq<Reply>, m: Mark, radio: RadioView, enabled: bool, n: int)
    requires
        0 <= n <= h.len(),
    ensures
        kept(vif_created(h, m, radio, enabled), vif_created(h.take(n), m, radio, enabled), m, n),
{
    lemma_replies(h, n);
}

proof fn lemma_following(h: Seq<Reply>, m: Mark, radio: RadioView, wifi: WifiView, n: int)
    requires
        0 <= n <= h.len(),
    ensures
        kept(following(h, m, radio, wifi), following(h.take(n), m, radio, wifi), m, n),
{
    lemma_replies(h, n);
}

proof fn lemma_concurrent(h: Seq<Reply>, m: Mark, sta: Seq<char>, n: int)
    requires
        0 <= n <= h.len(),
    ensures
        kept(concurrent(h, m, sta), concurrent(h.take(n), m, sta), m, n),
{
    lemma_replies(h, n);
}

proof fn lemma_radio(h: Seq<Reply>, m: Mark, cfg: ConfigView, intent: IntentView, n: int)
    requires
        0 <= n <= h.len(),
    ensures
        kept(radio(h, m, cfg, intent), radio(h.take(n), m, cfg, intent), m, n),
{
    lemma_replies(h, n);
    lemma_concurrent(h, m, crate::network::profiles::wifi_ifname(cfg, intent.wifi), n);
}

proof fn lemma_ethernet_on(h: Seq<Reply>, m: Mark, cfg: ConfigView, eth: EthernetView, ifname: Seq<char>, n: int)
    requires
        0 <= n <= h.len(),
    ensures
        kept(ethernet_on(h, m, cfg, eth, ifname), ethernet_on(h.take(n), m, cfg, eth, ifname), m, n),
{
    let con = crate::network::nmcli::NM_CON_ETHERNET@;
    lemma_exists(h, m, cfg, con, n);
    if let Progress::Go(m1, known) = connection_exists(h, m, cfg, con) {
        let args = if known {
            ethernet_modify_args(eth, ifname)
        } else {
            ethernet_add_args(eth, ifname)
        };
        lemma_nmcli(h, m1, cfg, args, n);
        if let Progress::Go(m2, Ok(_)) = nmcli(h, m1, cfg, args) {
            let m3 = m2.said(
                (if known {
                    "modified "@
                } else {
                    "added "@
                }) + con,
            );
            lemma_nmcli(h, m3, cfg, seq!["connection"@, "up"@, con], n);
        }
    }
}

proof fn lemma_ethernet(h: Seq<Reply>, m: Mark, cfg: ConfigView, eth: EthernetView, n: int)
    requires
        0 <= n <= h.len(),
    ensures
        kept(ethernet_done(h, m, cfg, eth), ethernet_done(h.take(n), m, cfg, eth), m, n),
{
    lemma_nmcli(h, m, cfg, seq!["-t"@, "-f"@, "DEVICE,TYPE,STATE,CONNECTION"@, "device"@], n);
    lemma_ethernet_on(h, m, cfg, eth, trimmed(eth.device), n);
    if let Progress::Go(m1, Ok(rows)) = device_table(h, m, cfg) {
        if let Some(ifname) = first_wired(rows) {
            lemma_ethernet_on(h, m1, cfg, eth, ifname, n);
        }
    }
}

proof fn lemma_cleared(h: Seq<Reply>, m: Mark, cfg: ConfigView, radio: RadioView, name: Seq<char>, n: int)
    requires
        0 <= n <= h.len(),
    ensures
        kept(radio_cleared(h, m, cfg, radio, name), radio_cleared(h.take(n), m, cfg, radio, name), m, n),
{
    let sta = crate::network::nmcli::NM_CON_WIFI_STA@;
    lemma_down(h, m, cfg, name, n);
    if let Progress::Go(m1, _) = connection_down(h, m, cfg, name) {
        lemma_absent(h, m1, radio.ap, n);
        lemma_down(h, m1, cfg, sta, n);
        if let Progress::Go(m2, _) = vif_absent(h, m1, radio.ap) {
            lemma_down(h, m2, cfg, sta, n);
        }
    }
}

proof fn lemma_sta_up(h: Seq<Reply>, m: Mark, cfg: ConfigView, nonfatal: bool, n: int)
    requires
        0 <= n <= h.len(),
    ensures
        kept(sta_up(h, m, cfg, nonfatal), sta_up(h.take(n), m, cfg, nonfatal), m, n),
{
    lemma_replies(h, n);
    lemma_nmcli(h, m, cfg, seq!["connection"@, "up"@, crate::network::nmcli::NM_CON_WIFI_STA@], n);
}

proof fn lemma_sta_with(
    h: Seq<Reply>,
    m: Mark,
    cfg: ConfigView,
    ifname: Seq<char>,
    wifi: WifiView,
    psk: Option<Seq<char>>,
    nonfatal: bool,
    chosen: Option<CandidateView>,
    n: int,
)
    requires
        0 <= n <= h.len(),
    ensures
        kept(
            sta_with(h, m, cfg, ifname, wifi, psk, nonfatal, chosen),
            sta_with(h.take(n), m, cfg, ifname, wifi, psk, nonfatal, chosen),
            m,
            n,
        ),
{
    let con = crate::network::nmcli::NM_CON_WIFI_STA@;
    let m0 = match chosen {
        Some(c) => m.said(crate::network::profiles::candidate_line(c, wifi.sta_selection_mode)),
        None => m,
    };
    if let Some(security) = sta_security(wifi, psk) {
        lemma_exists(h, m0, cfg, con, n);
        if let Progress::Go(m1, known) = connection_exists(h, m0, cfg, con) {
            let args = if known {
                sta_modify_args(ifname, wifi, bound_bssid(chosen), security)
            } else {
                sta_add_args(ifname, wifi, bound_bssid(chosen), security)
            };
            lemma_nmcli(h, m1, cfg, args, n);
            if let Progress::Go(m2, Ok(_)) = nmcli(h, m1, cfg, args) {
                lemma_sta_up(
                    h,
                    m2.said(
                        (if known {
                            "modified "@
                        } else {
                            "added "@
                        }) + con,
                    ),
                    cfg,
                    nonfatal,
                    n,
                );
            }
        }
    }
}

proof fn lemma_sta(
    h: Seq<Reply>,
    m: Mark,
    cfg: ConfigView,
    ifname: Seq<char>,
    wifi: WifiView,
    psk: Option<Seq<char>>,
    nonfatal: bool,
    n: int,
)
    requires
        0 <= n <= h.len(),
    ensures
        kept(
            sta_done(h, m, cfg, ifname, wifi, psk, nonfatal),
            sta_done(h.take(n), m, cfg, ifname, wifi, psk, nonfatal),
            m,
            n,
        ),
{
    lemma_nmcli(h, m, cfg, wifi_list_args("BSSID,SSID,SIGNAL,FREQ,ACTIVE"@, Some(trimmed(ifname))), n);
    if let Progress::Go(m1, r) = scan_candidates(h, m, cfg, Some(trimmed(ifname))) {
        let chosen = match r {
            Ok(cs) => selected(wifi, cs),
            Err(_) => None,
        };
        lemma_sta_with(h, m1, cfg, ifname, wifi, psk, nonfatal, chosen, n);
    }
}

proof fn lemma_ap_profile(
    h: Seq<Reply>,
    m: Mark,
    cfg: ConfigView,
    ifname: Seq<char>,
    wifi: WifiView,
    psk: Option<Seq<char>>,
    name: Seq<char>,
    n: int,
)
    requires
        0 <= n <= h.len(),
    ensures
        kept(ap_profile(h, m, cfg, ifname, wifi, psk, name), ap_profile(h.take(n), m, cfg, ifname, wifi, psk, name), m, n),
{
    lemma_exists(h, m, cfg, name, n);
    if let Progress::Go(m1, known) = connection_exists(h, m, cfg, name) {
        let args = if known {
            ap_modify_args(ifname, wifi, psk, name)
        } else {
            ap_add_args(ifname, wifi, psk, name)
        };
        lemma_nmcli(h, m1, cfg, args, n);
        if let Progress::Go(m2, Ok(_)) = nmcli(h, m1, cfg, args) {
            lemma_nmcli(h, m2, cfg, crate::network::hotspot::open_args(name), n);
        }
    }
}

// Settings.

/// Whether a key and its value stand at a place of the arguments.
pub open spec fn set_at(args: Seq<Seq<char>>, k: int, key: Seq<char>, value: Seq<char>) -> bool {
    0 <= k && k + 1 < args.len() && args[k] == key && args[k + 1] == value
}

/// Whether the arguments give a key a value.
pub open spec fn sets(args: Seq<Seq<char>>, key: Seq<char>, value: Seq<char>) -> bool {
    exists|k: int| #[trigger] set_at(args, k, key, value)
}

/// Whether the arguments create the profile of a name, of a type and on an interface, or
/// change the profile of that name to be on it.
pub open spec fn writes_profile(args: Seq<Seq<char>>, kind: Seq<char>, name: Seq<char>, ifname: Seq<char>) -> bool {
    &&& args.len() >= 4
    &&& args[0] == "connection"@
    &&& {
        ||| args[1] == "modify"@ && args[2] == name && sets(args, "connection.interface-name"@, ifname)
        ||| args[1] == "add"@ && sets(args, "type"@, kind) && sets(args, "con-name"@, name) && sets(
            args,
            "ifname"@,
            ifname,
        )
    }
}

/// Whether the arguments set a network's name, under either of its keys.
pub open spec fn sets_ssid(args: Seq<Seq<char>>, ssid: Seq<char>) -> bool {
    sets(args, "ssid"@, ssid) || sets(args, "802-11-wireless.ssid"@, ssid)
}

/// Whether the arguments set the address of an interface as it is wanted.
pub open spec fn sets_ipv4(
    args: Seq<Seq<char>>,
    mode: Ipv4Mode,
    address: Seq<char>,
    gateway: Seq<char>,
    dns: Seq<Seq<char>>,
) -> bool {
    match mode {
        Ipv4Mode::Dhcp => sets(args, "ipv4.method"@, "auto"@),
        Ipv4Mode::Static => {
            &&& sets(args, "ipv4.method"@, "manual"@)
            &&& sets(args, "ipv4.addresses"@, trimmed(address))
            &&& !is_blank(gateway) ==> sets(args, "ipv4.gateway"@, trimmed(gateway))
            &&& dns.len() == 1 && !is_blank(dns[0]) ==> sets(args, "ipv4.dns"@, trimmed(dns[0]))
            &&& dns.len() == 2 && !is_blank(dns[0]) && !is_blank(dns[1]) ==> sets(
                args,
                "ipv4.dns"@,
                trimmed(dns[0]) + " "@ + trimmed(dns[1]),
            )
        },
    }
}

/// Whether the arguments protect a network with a passphrase, white space at its ends
/// left out.
pub open spec fn sets_passphrase(args: Seq<Seq<char>>, psk: Seq<char>) -> bool {
    sets(args, "wifi-sec.key-mgmt"@, "wpa-psk"@) && sets(args, "wifi-sec.psk"@, trimmed(psk))
}

/// Whether the arguments write the hotspot's profile: an access point with the name and
/// the passphrase that are wanted, that shares its connection, on the channel that is
/// wanted where that tells its band.
pub open spec fn writes_hotspot(
    args: Seq<Seq<char>>,
    ifname: Seq<char>,
    wifi: WifiView,
    psk: Option<Seq<char>>,
    name: Seq<char>,
) -> bool {
    &&& writes_profile(args, "wifi"@, name, trimmed(ifname))
    &&& sets(args, "wifi.mode"@, "ap"@) || sets(args, "802-11-wireless.mode"@, "ap"@)
    &&& sets_ssid(args, trimmed(wifi.ap_ssid))
    &&& sets(args, "ipv4.method"@, "shared"@)
    &&& sets(args, "ipv6.method"@, "ignore"@)
    &&& psk matches Some(p) ==> !is_blank(p) ==> sets_passphrase(args, p)
    &&& is_blank(wifi.ap_band) && 1 <= wifi.ap_channel <= 14 ==> sets(args, "802-11-wireless.band"@, "bg"@) && sets(
        args,
        "802-11-wireless.channel"@,
        decimal(wifi.ap_channel as nat),
    )
    &&& is_blank(wifi.ap_band) && 36 <= wifi.ap_channel <= 177 ==> sets(args, "802-11-wireless.band"@, "a"@) && sets(
        args,
        "802-11-wireless.channel"@,
        decimal(wifi.ap_channel as nat),
    )
}

/// Whether the arguments write the client's profile: the network that is wanted, open or
/// with its passphrase, at the access point that was chosen, with its address.
pub open spec fn writes_client(
    args: Seq<Seq<char>>,
    ifname: Seq<char>,
    wifi: WifiView,
    psk: Option<Seq<char>>,
    chosen: Option<CandidateView>,
) -> bool {
    &&& writes_profile(args, "wifi"@, "evo-network-wifi-sta"@, trimmed(ifname))
    &&& sets_ssid(args, trimmed(wifi.sta_ssid))
    &&& wifi.sta_open ==> sets(args, "wifi-sec.key-mgmt"@, "none"@)
    &&& !wifi.sta_open ==> (psk matches Some(p) && sets_passphrase(args, p))
    &&& chosen matches Some(c) ==> !is_blank(c.bssid) ==> sets(args, "802-11-wireless.bssid"@, trimmed(c.bssid))
    &&& sets_ipv4(args, wifi.sta_ipv4_mode, wifi.sta_ipv4_address, wifi.sta_ipv4_gateway, wifi.sta_ipv4_dns)
}

proof fn lemma_sets_behind(head: Seq<Seq<char>>, tail: Seq<Seq<char>>, key: Seq<char>, value: Seq<char>)
    requires
        sets(tail, key, value),
    ensures
        sets(head + tail, key, value),
{
    let k = choose|k: int| set_at(tail, k, key, value);
    assert(set_at(head + tail, head.len() + k, key, value));
}

proof fn lemma_sets_before(head: Seq<Seq<char>>, tail: Seq<Seq<char>>, key: Seq<char>, value: Seq<char>)
    requires
        sets(head, key, value),
    ensures
        sets(head + tail, key, value),
{
    let k = choose|k: int| set_at(head, k, key, value);
    assert(set_at(head + tail, k, key, value));
}

proof fn lemma_dns(dns: Seq<Seq<char>>)
    ensures
        dns.len() == 1 && !is_blank(dns[0]) ==> dns_joined(dns) == trimmed(dns[0]),
        dns.len() == 2 && !is_blank(dns[0]) && !is_blank(dns[1]) ==> dns_joined(dns) == trimmed(dns[0]) + " "@ + trimmed(
            dns[1],
        ),
{
    reveal_with_fuel(dns_joined, 3);
    if dns.len() == 2 {
        assert(dns.drop_last() =~= seq![dns[0]]);
    }
}

proof fn lemma_sets_ipv4(head: Seq<Seq<char>>, mode: Ipv4Mode, address: Seq<char>, gateway: Seq<char>, dns: Seq<Seq<char>>)
    ensures
        sets_ipv4(head + ipv4_args(mode, address, gateway, dns), mode, address, gateway, dns),
{
    let a = ipv4_args(mode, address, gateway, dns);
    assert(set_at(a, 0, "ipv4.method"@, a[1]));
    lemma_sets_behind(head, a, "ipv4.method"@, a[1]);
    if mode == Ipv4Mode::Static {
        reveal_strlit(" ");
        lemma_dns(dns);
        assert(set_at(a, 2, "ipv4.addresses"@, trimmed(address)));
        lemma_sets_behind(head, a, "ipv4.addresses"@, trimmed(address));
        if !is_blank(gateway) {
            assert(set_at(a, 4, "ipv4.gateway"@, trimmed(gateway)));
            lemma_sets_behind(head, a, "ipv4.gateway"@, trimmed(gateway));
        }
        if dns_joined(dns).len() > 0 {
            let k: int = if is_blank(gateway) {
                4
            } else {
                6
            };
            assert(set_at(a, k, "ipv4.dns"@, dns_joined(dns)));
            lemma_sets_behind(head, a, "ipv4.dns"@, dns_joined(dns));
        }
    }
}

proof fn lemma_psk_args(p: Seq<char>)
    ensures
        sets(psk_args(p), "wifi-sec.key-mgmt"@, "wpa-psk"@),
        sets(psk_args(p), "wifi-sec.psk"@, p),
{
    assert(set_at(psk_args(p), 0, "wifi-sec.key-mgmt"@, "wpa-psk"@));
    assert(set_at(psk_args(p), 4, "wifi-sec.psk"@, p));
}

proof fn lemma_writes_hotspot(known: bool, ifname: Seq<char>, wifi: WifiView, psk: Option<Seq<char>>, name: Seq<char>)
    ensures
        writes_hotspot(
            if known {
                ap_modify_args(ifname, wifi, psk, name)
            } else {
                ap_add_args(ifname, wifi, psk, name)
            },
            ifname,
            wifi,
            psk,
            name,
        ),
{
    let args = if known {
        ap_modify_args(ifname, wifi, psk, name)
    } else {
        ap_add_args(ifname, wifi, psk, name)
    };
    let n: int = if known {
        15
    } else {
        18
    };
    let head = args.take(n);
    let channel = ap_channel_args(wifi);
    let security = ap_security(psk);
    assert(args =~= head + (channel + security));
    if known {
        assert(set_at(args, 3, "connection.interface-name"@, trimmed(ifname)));
        assert(set_at(args, 5, "802-11-wireless.mode"@, "ap"@));
        assert(set_at(args, 7, "802-11-wireless.ssid"@, trimmed(wifi.ap_ssid)));
        assert(set_at(args, 9, "ipv4.method"@, "shared"@));
        assert(set_at(args, 11, "ipv6.method"@, "ignore"@));
    } else {
        assert(set_at(args, 2, "type"@, "wifi"@));
        assert(set_at(args, 4, "con-name"@, name));
        assert(set_at(args, 6, "ifname"@, trimmed(ifname)));
        assert(set_at(args, 10, "wifi.mode"@, "ap"@));
        assert(set_at(args, 12, "ssid"@, trimmed(wifi.ap_ssid)));
        assert(set_at(args, 14, "ipv4.method"@, "shared"@));
        assert(set_at(args, 16, "ipv6.method"@, "ignore"@));
    }
    if let Some(p) = psk {
        if !is_blank(p) {
            lemma_psk_args(trimmed(p));
            lemma_sets_behind(channel, security, "wifi-sec.key-mgmt"@, "wpa-psk"@);
            lemma_sets_behind(channel, security, "wifi-sec.psk"@, trimmed(p));
            lemma_sets_behind(head, channel + security, "wifi-sec.key-mgmt"@, "wpa-psk"@);
            lemma_sets_behind(head, channel + security, "wifi-sec.psk"@, trimmed(p));
        }
    }
    if is_blank(wifi.ap_band) && (1 <= wifi.ap_channel <= 14 || 36 <= wifi.ap_channel <= 177) {
        reveal_strlit("bg");
        reveal_strlit("a");
        reveal_strlit("6ghz");
        assert(lowered(trimmed(wifi.ap_band)).len() == 0);
        assert(lowered("bg"@).len() == 2);
        assert(lowered("a"@).len() == 1);
        assert(lowered("6ghz"@).len() == 4);
        let band = if wifi.ap_channel <= 14 {
            "bg"@
        } else {
            "a"@
        };
        assert(set_at(channel, 0, "802-11-wireless.band"@, band));
        assert(set_at(channel, 2, "802-11-wireless.channel"@, decimal(wifi.ap_channel as nat)));
        lemma_sets_before(channel, security, "802-11-wireless.band"@, band);
        lemma_sets_before(channel, security, "802-11-wireless.channel"@, decimal(wifi.ap_channel as nat));
        lemma_sets_behind(head, channel + security, "802-11-wireless.band"@, band);
        lemma_sets_behind(head, channel + security, "802-11-wireless.channel"@, decimal(wifi.ap_channel as nat));
    }
}

proof fn lemma_writes_client(
    known: bool,
    ifname: Seq<char>,
    wifi: WifiView,
    psk: Option<Seq<char>>,
    chosen: Option<CandidateView>,
    security: Seq<Seq<char>>,
)
    requires
        sta_security(wifi, psk) == Some(security),
    ensures
        writes_client(
            if known {
                sta_modify_args(ifname, wifi, bound_bssid(chosen), security)
            } else {
                sta_add_args(ifname, wifi, bound_bssid(chosen), security)
            },
            ifname,
            wifi,
            psk,
            chosen,
        ),
{
    let bssid = bound_bssid(chosen);
    let address = trimmed(wifi.sta_ipv4_address);
    let gateway = trimmed(wifi.sta_ipv4_gateway);
    let ipv4 = ipv4_args(wifi.sta_ipv4_mode, address, gateway, wifi.sta_ipv4_dns);
    let args = if known {
        sta_modify_args(ifname, wifi, bssid, security)
    } else {
        sta_add_args(ifname, wifi, bssid, security)
    };
    let head = args.take(args.len() - ipv4.len());
    assert(args =~= head + ipv4);
    lemma_sets_ipv4(head, wifi.sta_ipv4_mode, address, gateway, wifi.sta_ipv4_dns);
    trimming_is_idempotent(wifi.sta_ipv4_address);
    trimming_is_idempotent(wifi.sta_ipv4_gateway);
    if known {
        assert(set_at(args, 3, "connection.interface-name"@, trimmed(ifname)));
        assert(set_at(args, 5, "802-11-wireless.ssid"@, trimmed(wifi.sta_ssid)));
        if let Some(b) = bssid {
            assert(set_at(args, 7, "802-11-wireless.bssid"@, b));
        }
    } else {
        assert(set_at(args, 2, "type"@, "wifi"@));
        assert(set_at(args, 4, "con-name"@, "evo-network-wifi-sta"@));
        assert(set_at(args, 6, "ifname"@, trimmed(ifname)));
        assert(set_at(args, 8, "ssid"@, trimmed(wifi.sta_ssid)));
        if let Some(b) = bssid {
            assert(set_at(args, 10, "802-11-wireless.bssid"@, b));
        }
    }
    let before = head.take(head.len() - security.len());
    assert(head =~= before + security);
    if wifi.sta_open {
        assert(set_at(security, 0, "wifi-sec.key-mgmt"@, "none"@));
        lemma_sets_behind(before, security, "wifi-sec.key-mgmt"@, "none"@);
        lemma_sets_before(head, ipv4, "wifi-sec.key-mgmt"@, "none"@);
    } else {
        let p = passphrase(psk)->0;
        lemma_psk_args(p);
        lemma_sets_behind(before, security, "wifi-sec.key-mgmt"@, "wpa-psk"@);
        lemma_sets_behind(before, security, "wifi-sec.psk"@, p);
        lemma_sets_before(head, ipv4, "wifi-sec.key-mgmt"@, "wpa-psk"@);
        lemma_sets_before(head, ipv4, "wifi-sec.psk"@, p);
    }
}

proof fn lemma_writes_ethernet(known: bool, eth: EthernetView, ifname: Seq<char>)
    ensures
        ({
            let args = if known {
                ethernet_modify_args(eth, ifname)
            } else {
                ethernet_add_args(eth, ifname)
            };
            &&& writes_profile(args, "ethernet"@, "evo-network-ethernet"@, ifname)
            &&& sets_ipv4(args, eth.ipv4_mode, eth.ipv4_address, eth.ipv4_gateway, eth.ipv4_dns)
        }),
{
    let args = if known {
        ethernet_modify_args(eth, ifname)
    } else {
        ethernet_add_args(eth, ifname)
    };
    let ipv4 = ipv4_args(eth.ipv4_mode, eth.ipv4_address, eth.ipv4_gateway, eth.ipv4_dns);
    let head = args.take(args.len() - ipv4.len());
    assert(args =~= head + ipv4);
    lemma_sets_ipv4(head, eth.ipv4_mode, eth.ipv4_address, eth.ipv4_gateway, eth.ipv4_dns);
    if known {
        assert(set_at(args, 3, "connection.interface-name"@, ifname));
    } else {
        assert(set_at(args, 2, "type"@, "ethernet"@));
        assert(set_at(args, 4, "con-name"@, "evo-network-ethernet"@));
        assert(set_at(args, 6, "ifname"@, ifname));
    }
}

// Commands.

proof fn nmcli_did(h: Seq<Reply>, m: Mark, cfg: ConfigView, args: Seq<Seq<char>>) -> (i: int)
    requires
        0 <= m.pos,
        nmcli(h, m, cfg, args) matches Progress::Go(_, Ok(_)),
    ensures
        nmcli(h, m, cfg, args) matches Progress::Go(m1, Ok(_)) && m.pos <= i < m1.pos <= h.len(),
        did(nmcli(h.take(i), m, cfg, args), h, i, cfg, args),
{
    let direct = h[m.pos] matches Reply::Ran(o) && o.success;
    let i = if direct {
        m.pos
    } else {
        m.pos + 1
    };
    lemma_replies(h, i);
    i
}

proof fn ap_profile_did(
    h: Seq<Reply>,
    m: Mark,
    cfg: ConfigView,
    ifname: Seq<char>,
    wifi: WifiView,
    psk: Option<Seq<char>>,
    name: Seq<char>,
) -> (r: (int, Seq<Seq<char>>))
    requires
        0 <= m.pos,
        ap_profile(h, m, cfg, ifname, wifi, psk, name) is Go,
    ensures
        ap_profile(h, m, cfg, ifname, wifi, psk, name) matches Progress::Go(m1, _) && m.pos <= r.0 < m1.pos,
        did(ap_profile(h.take(r.0), m, cfg, ifname, wifi, psk, name), h, r.0, cfg, r.1),
        writes_hotspot(r.1, ifname, wifi, psk, name),
{
    let known = connection_exists(h, m, cfg, name)->Go_1;
    let m1 = connection_exists(h, m, cfg, name)->Go_0;
    let args = if known {
        ap_modify_args(ifname, wifi, psk, name)
    } else {
        ap_add_args(ifname, wifi, psk, name)
    };
    let i = nmcli_did(h, m1, cfg, args);
    lemma_exists(h, m, cfg, name, i);
    lemma_exists(h, m, cfg, name, h.len() as int);
    lemma_writes_hotspot(known, ifname, wifi, psk, name);
    let m2 = nmcli(h, m1, cfg, args)->Go_0;
    lemma_nmcli(h, m2, cfg, crate::network::hotspot::open_args(name), h.len() as int);
    (i, args)
}

proof fn hotspot_up_did(h: Seq<Reply>, m: Mark, cfg: ConfigView, name: Seq<char>, attempt: nat) -> (j: int)
    requires
        0 <= m.pos,
        hotspot_up_from(h, m, cfg, name, attempt) matches Progress::Go(_, true),
    ensures
        hotspot_up_from(h, m, cfg, name, attempt) matches Progress::Go(m1, _) && m.pos <= j < m1.pos && m1.log.len() > 0
            && has_prefix(m1.log.last(), "brought up "@ + name),
        did(hotspot_up_from(h.take(j), m, cfg, name, attempt), h, j, cfg, seq!["connection"@, "up"@, name]),
    decreases 5 - attempt,
{
    let r = connection_up(h, m, cfg, name)->Go_1;
    let m1 = connection_up(h, m, cfg, name)->Go_0;
    if r matches Ok(o) && o.success {
        lemma_replies(h, m.pos);
        let line = crate::network::nmcli::brought_up(name, attempt);
        assert(line.take(("brought up "@ + name).len() as int) =~= "brought up "@ + name);
        m.pos
    } else if attempt < 4 {
        let j = hotspot_up_did(h, m1.read(), cfg, name, attempt + 1);
        lemma_replies(h, j);
        j
    } else {
        let j = hotspot_up_did(h, m1, cfg, name, attempt + 1);
        lemma_replies(h, j);
        j
    }
}

proof fn ap_done_did(
    h: Seq<Reply>,
    m: Mark,
    cfg: ConfigView,
    ifname: Seq<char>,
    wifi: WifiView,
    psk: Option<Seq<char>>,
    name: Seq<char>,
) -> (r: (int, Seq<Seq<char>>, int))
    requires
        0 <= m.pos,
        ap_done(h, m, cfg, ifname, wifi, psk, name) is Go,
    ensures
        ap_done(h, m, cfg, ifname, wifi, psk, name) matches Progress::Go(m1, _) && m.pos <= r.0 < r.2 < m1.pos
            && m1.log.len() > 0 && has_prefix(m1.log.last(), "brought up "@ + name),
        did(ap_done(h.take(r.0), m, cfg, ifname, wifi, psk, name), h, r.0, cfg, r.1),
        writes_hotspot(r.1, ifname, wifi, psk, name),
        did(ap_done(h.take(r.2), m, cfg, ifname, wifi, psk, name), h, r.2, cfg, seq!["connection"@, "up"@, name]),
{
    let (i, args) = ap_profile_did(h, m, cfg, ifname, wifi, psk, name);
    let m1 = ap_profile(h, m, cfg, ifname, wifi, psk, name)->Go_0;
    let j = hotspot_up_did(h, m1, cfg, name, 1);
    lemma_ap_profile(h, m, cfg, ifname, wifi, psk, name, j);
    (i, args, j)
}

proof fn ethernet_on_did(h: Seq<Reply>, m: Mark, cfg: ConfigView, eth: EthernetView, ifname: Seq<char>) -> (r: (
    int,
    Seq<Seq<char>>,
    int,
))
    requires
        0 <= m.pos,
        ethernet_on(h, m, cfg, eth, ifname) is Go,
    ensures
        ethernet_on(h, m, cfg, eth, ifname) matches Progress::Go(m1, _) && m.pos <= r.0 < r.2 < m1.pos,
        did(ethernet_on(h.take(r.0), m, cfg, eth, ifname), h, r.0, cfg, r.1),
        writes_profile(r.1, "ethernet"@, "evo-network-ethernet"@, ifname),
        sets_ipv4(r.1, eth.ipv4_mode, eth.ipv4_address, eth.ipv4_gateway, eth.ipv4_dns),
        did(
            ethernet_on(h.take(r.2), m, cfg, eth, ifname),
            h,
            r.2,
            cfg,
            seq!["connection"@, "up"@, "evo-network-ethernet"@],
        ),
{
    let con = crate::network::nmcli::NM_CON_ETHERNET@;
    let up = seq!["connection"@, "up"@, con];
    let m1 = connection_exists(h, m, cfg, con)->Go_0;
    let known = connection_exists(h, m, cfg, con)->Go_1;
    let args = if known {
        ethernet_modify_args(eth, ifname)
    } else {
        ethernet_add_args(eth, ifname)
    };
    lemma_exists(h, m, cfg, con, h.len() as int);
    let i = nmcli_did(h, m1, cfg, args);
    lemma_exists(h, m, cfg, con, i);
    lemma_writes_ethernet(known, eth, ifname);
    let m2 = nmcli(h, m1, cfg, args)->Go_0;
    let m3 = m2.said(
        (if known {
            "modified "@
        } else {
            "added "@
        }) + con,
    );
    let j = nmcli_did(h, m3, cfg, up);
    lemma_exists(h, m, cfg, con, j);
    lemma_nmcli(h, m1, cfg, args, j);
    (i, args, j)
}

proof fn sta_up_did(h: Seq<Reply>, m: Mark, cfg: ConfigView, nonfatal: bool) -> (j: int)
    requires
        0 <= m.pos,
        sta_up(h, m, cfg, nonfatal) is Go,
    ensures
        sta_up(h, m, cfg, nonfatal) matches Progress::Go(m1, _) && m.pos <= j < m1.pos,
        !nonfatal ==> did(
            sta_up(h.take(j), m, cfg, nonfatal),
            h,
            j,
            cfg,
            seq!["connection"@, "up"@, "evo-network-wifi-sta"@],
        ),
        nonfatal ==> stopped_at(
            sta_up(h.take(j), m, cfg, nonfatal),
            cfg,
            seq!["connection"@, "up"@, "evo-network-wifi-sta"@],
        ),
{
    if nonfatal {
        lemma_replies(h, m.pos);
        m.pos
    } else {
        nmcli_did(h, m, cfg, seq!["connection"@, "up"@, crate::network::nmcli::NM_CON_WIFI_STA@])
    }
}

proof fn sta_with_did(
    h: Seq<Reply>,
    m: Mark,
    cfg: ConfigView,
    ifname: Seq<char>,
    wifi: WifiView,
    psk: Option<Seq<char>>,
    nonfatal: bool,
    chosen: Option<CandidateView>,
) -> (r: (int, Seq<Seq<char>>, int))
    requires
        0 <= m.pos,
        sta_with(h, m, cfg, ifname, wifi, psk, nonfatal, chosen) is Go,
    ensures
        sta_with(h, m, cfg, ifname, wifi, psk, nonfatal, chosen) matches Progress::Go(m1, _) && m.pos <= r.0 < r.2
            < m1.pos,
        did(sta_with(h.take(r.0), m, cfg, ifname, wifi, psk, nonfatal, chosen), h, r.0, cfg, r.1),
        writes_client(r.1, ifname, wifi, psk, chosen),
        !nonfatal ==> did(
            sta_with(h.take(r.2), m, cfg, ifname, wifi, psk, nonfatal, chosen),
            h,
            r.2,
            cfg,
            seq!["connection"@, "up"@, "evo-network-wifi-sta"@],
        ),
        nonfatal ==> stopped_at(
            sta_with(h.take(r.2), m, cfg, ifname, wifi, psk, nonfatal, chosen),
            cfg,
            seq!["connection"@, "up"@, "evo-network-wifi-sta"@],
        ),
{
    let con = crate::network::nmcli::NM_CON_WIFI_STA@;
    let m0 = match chosen {
        Some(c) => m.said(crate::network::profiles::candidate_line(c, wifi.sta_selection_mode)),
        None => m,
    };
    let security = sta_security(wifi, psk)->0;
    let m1 = connection_exists(h, m0, cfg, con)->Go_0;
    let known = connection_exists(h, m0, cfg, con)->Go_1;
    let args = if known {
        sta_modify_args(ifname, wifi, bound_bssid(chosen), security)
    } else {
        sta_add_args(ifname, wifi, bound_bssid(chosen), security)
    };
    lemma_exists(h, m0, cfg, con, h.len() as int);
    let i = nmcli_did(h, m1, cfg, args);
    lemma_exists(h, m0, cfg, con, i);
    lemma_writes_client(known, ifname, wifi, psk, chosen, security);
    let m2 = nmcli(h, m1, cfg, args)->Go_0;
    let m3 = m2.said(
        (if known {
            "modified "@
        } else {
            "added "@
        }) + con,
    );
    let j = sta_up_did(h, m3, cfg, nonfatal);
    if nonfatal {
        lemma_replies(h, h.len() as int);
    }
    lemma_sta_up(h, m3, cfg, nonfatal, h.len() as int);
    lemma_exists(h, m0, cfg, con, j);
    lemma_nmcli(h, m1, cfg, args, j);
    (i, args, j)
}

/// Whether an access point, where one was chosen, is the choice among those that `nmcli`
/// listed at a place before `n`.
pub open spec fn chosen_in_sight(h: Seq<Reply>, from: int, n: int, wifi: WifiView, chosen: Option<CandidateView>) -> bool {
    chosen is Some ==> exists|k: int|
        from <= k < n && (#[trigger] h[k] matches Reply::Ran(o) && o.success && chosen == selected(
            wifi,
            candidate_rows(lines(o.stdout@)),
        ))
}

/// The access point that is chosen after a scan.
spec fn choice(wifi: WifiView, r: Result<Seq<CandidateView>, ErrorView>) -> Option<CandidateView> {
    match r {
        Ok(cs) => selected(wifi, cs),
        Err(_) => None,
    }
}

proof fn lemma_scan(h: Seq<Reply>, m: Mark, cfg: ConfigView, ifname: Seq<char>, n: int)
    requires
        0 <= n <= h.len(),
    ensures
        kept(scan_candidates(h, m, cfg, Some(ifname)), scan_candidates(h.take(n), m, cfg, Some(ifname)), m, n),
{
    lemma_nmcli(h, m, cfg, wifi_list_args("BSSID,SSID,SIGNAL,FREQ,ACTIVE"@, Some(ifname)), n);
}

proof fn lemma_sight(h: Seq<Reply>, m: Mark, cfg: ConfigView, ifname: Seq<char>, wifi: WifiView, m1: Mark, r: Result<
    Seq<CandidateView>,
    ErrorView,
>)
    requires
        0 <= m.pos,
        scan_candidates(h, m, cfg, Some(ifname)) == Progress::Go(m1, r),
    ensures
        chosen_in_sight(h, m.pos, m1.pos, wifi, choice(wifi, r)),
{
    if r is Ok {
        let k = nmcli_did(h, m, cfg, wifi_list_args("BSSID,SSID,SIGNAL,FREQ,ACTIVE"@, Some(ifname)));
        assert(h[k] matches Reply::Ran(o) && o.success && r == Ok::<Seq<CandidateView>, ErrorView>(
            candidate_rows(lines(o.stdout@)),
        ));
    }
}

proof fn lemma_sta_step(
    h: Seq<Reply>,
    m: Mark,
    cfg: ConfigView,
    ifname: Seq<char>,
    wifi: WifiView,
    psk: Option<Seq<char>>,
    nonfatal: bool,
    m1: Mark,
    r: Result<Seq<CandidateView>, ErrorView>,
)
    requires
        sta_complaint(ifname, wifi) is None,
        scan_candidates(h, m, cfg, Some(trimmed(ifname))) == Progress::Go(m1, r),
    ensures
        sta_done(h, m, cfg, ifname, wifi, psk, nonfatal) == sta_with(
            h,
            m1,
            cfg,
            ifname,
            wifi,
            psk,
            nonfatal,
            choice(wifi, r),
        ),
{
}

/// What setting the client up comes to on the first `n` replies.
#[verifier::opaque]
spec fn client_on(
    h: Seq<Reply>,
    n: int,
    m: Mark,
    cfg: ConfigView,
    ifname: Seq<char>,
    wifi: WifiView,
    psk: Option<Seq<char>>,
    nonfatal: bool,
) -> Progress<()> {
    sta_done(h.take(n), m, cfg, ifname, wifi, psk, nonfatal)
}

proof fn sta_done_did(
    h: Seq<Reply>,
    m: Mark,
    cfg: ConfigView,
    ifname: Seq<char>,
    wifi: WifiView,
    psk: Option<Seq<char>>,
    nonfatal: bool,
) -> (r: (Option<CandidateView>, int, Seq<Seq<char>>, int))
    requires
        0 <= m.pos,
        sta_done(h, m, cfg, ifname, wifi, psk, nonfatal) is Go,
    ensures
        sta_done(h, m, cfg, ifname, wifi, psk, nonfatal) matches Progress::Go(m1, _) && m.pos <= r.1 < r.3 < m1.pos,
        r.3 < h.len(),
        chosen_in_sight(h, m.pos, r.1, wifi, r.0),
        did(client_on(h, r.1, m, cfg, ifname, wifi, psk, nonfatal), h, r.1, cfg, r.2),
        writes_client(r.2, ifname, wifi, psk, r.0),
        !nonfatal ==> did(
            client_on(h, r.3, m, cfg, ifname, wifi, psk, nonfatal),
            h,
            r.3,
            cfg,
            seq!["connection"@, "up"@, "evo-network-wifi-sta"@],
        ),
        nonfatal ==> stopped_at(
            client_on(h, r.3, m, cfg, ifname, wifi, psk, nonfatal),
            cfg,
            seq!["connection"@, "up"@, "evo-network-wifi-sta"@],
        ),
{
    reveal(client_on);
    let m1 = scan_candidates(h, m, cfg, Some(trimmed(ifname)))->Go_0;
    let r = scan_candidates(h, m, cfg, Some(trimmed(ifname)))->Go_1;
    let chosen = choice(wifi, r);
    lemma_scan(h, m, cfg, trimmed(ifname), h.len() as int);
    lemma_sight(h, m, cfg, trimmed(ifname), wifi, m1, r);
    lemma_sta_step(h, m, cfg, ifname, wifi, psk, nonfatal, m1, r);
    let (i, args, j) = sta_with_did(h, m1, cfg, ifname, wifi, psk, nonfatal, chosen);
    lemma_scan(h, m, cfg, trimmed(ifname), i);
    lemma_sta_step(h.take(i), m, cfg, ifname, wifi, psk, nonfatal, m1, r);
    lemma_scan(h, m, cfg, trimmed(ifname), j);
    lemma_sta_step(h.take(j), m, cfg, ifname, wifi, psk, nonfatal, m1, r);
    (chosen, i, args, j)
}

/// Whether a wired interface, where there is one, is the first of those that `nmcli`
/// listed at a place.
pub open spec fn wire_in_sight(h: Seq<Reply>, from: int, ifname: Option<Seq<char>>) -> bool {
    exists|k: int|
        from <= k < h.len() && (#[trigger] h[k] matches Reply::Ran(o) && o.success && ifname == first_wired(
            device_rows(lines(o.stdout@)),
        ))
}

proof fn ethernet_found_did(h: Seq<Reply>, m: Mark, cfg: ConfigView, eth: EthernetView) -> (r: (
    Option<Seq<char>>,
    int,
    Seq<Seq<char>>,
    int,
))
    requires
        0 <= m.pos,
        eth.enabled,
        is_blank(eth.device),
        ethernet_done(h, m, cfg, eth) is Go,
    ensures
        wire_in_sight(h, m.pos, r.0),
        r.0 matches Some(name) ==> {
            &&& m.pos <= r.1 < r.3 < h.len()
            &&& did(ethernet_done(h.take(r.1), m, cfg, eth), h, r.1, cfg, r.2)
            &&& writes_profile(r.2, "ethernet"@, "evo-network-ethernet"@, name)
            &&& sets_ipv4(r.2, eth.ipv4_mode, eth.ipv4_address, eth.ipv4_gateway, eth.ipv4_dns)
            &&& did(
                ethernet_done(h.take(r.3), m, cfg, eth),
                h,
                r.3,
                cfg,
                seq!["connection"@, "up"@, "evo-network-ethernet"@],
            )
        },
{
    let list = seq!["-t"@, "-f"@, "DEVICE,TYPE,STATE,CONNECTION"@, "device"@];
    let k = nmcli_did(h, m, cfg, list);
    let m1 = device_table(h, m, cfg)->Go_0;
    let rows = device_table(h, m, cfg)->Go_1->Ok_0;
    assert(h[k] matches Reply::Ran(o) && o.success && rows == device_rows(lines(o.stdout@)));
    match first_wired(rows) {
        Some(name) => {
            let (i, args, j) = ethernet_on_did(h, m1, cfg, eth, name);
            lemma_nmcli(h, m, cfg, list, i);
            lemma_nmcli(h, m, cfg, list, j);
            (Some(name), i, args, j)
        },
        None => (None, 0, seq![], 0),
    }
}

// What holds when an intent was applied.

/// What applying an intent comes to on the first `n` replies.
#[verifier::opaque]
pub open spec fn applied_on(
    h: Seq<Reply>,
    n: int,
    m: Mark,
    cfg: ConfigView,
    intent: IntentView,
    sta_psk: Option<Seq<char>>,
    ap_psk: Option<Seq<char>>,
) -> Progress<ReportView> {
    applied(h.take(n), m, cfg, intent, sta_psk, ap_psk)
}

/// The name of the hotspot's profile: the one that the intent gives, or the default.
pub open spec fn names_hotspot(name: Seq<char>, fallback: FallbackView) -> bool {
    if is_blank(fallback.hotspot_connection_name) {
        name == "volumio-hotspot"@
    } else {
        name == trimmed(fallback.hotspot_connection_name)
    }
}

/// The interfaces that an intent means. The client is on the interface that the intent
/// names, or on the configured one. The hotspot is on the interface that the intent
/// chose for it; else on the client's, unless the radio can be both, which gives it an
/// interface of its own: `ap0`, or the one that the environment names.
pub proof fn interfaces_are_the_intents(h: Seq<Reply>, m: Mark, cfg: ConfigView, intent: IntentView)
    ensures
        radio(h, m, cfg, intent) matches Progress::Go(_, r) ==> {
            &&& r.sta == if is_blank(intent.wifi.ifname) {
                cfg.default_wifi_iface
            } else {
                trimmed(intent.wifi.ifname)
            }
            &&& r.explicit <==> !is_blank(intent.fallback.hotspot_ifname) && trimmed(intent.fallback.hotspot_ifname) != r.sta
            &&& r.explicit ==> r.ap == trimmed(intent.fallback.hotspot_ifname)
            &&& !r.explicit && !r.concurrent ==> r.ap == r.sta
            &&& !r.explicit && r.concurrent ==> r.ap == "ap0"@ || (exists|k: int|
                0 <= k < h.len() && (#[trigger] h[k] matches Reply::Text(Some(s)) && !is_blank(s@) && r.ap == trimmed(s@)))
        },
{
    if let Progress::Go(_, r) = radio(h, m, cfg, intent) {
        if !r.explicit && r.concurrent {
            let m1 = concurrent(h, m, crate::network::profiles::wifi_ifname(cfg, intent.wifi))->Go_0;
            assert(reply_at(h, m1.pos) == Some(h[m1.pos]));
        }
    }
}

/// A hotspot that was applied is up: a report of success for the role of an access point
/// means that a command of `nmcli` that creates or changes the hotspot's profile, with the
/// intent's network name, the passphrase and the resolved interface, was run without an
/// error, and that after it a command that brings that profile up was; the last step of
/// the report tells it. The result is where the two were run, and the first one's
/// arguments.
pub proof fn applied_hotspot_is_up(
    h: Seq<Reply>,
    m: Mark,
    cfg: ConfigView,
    intent: IntentView,
    sta_psk: Option<Seq<char>>,
    ap_psk: Option<Seq<char>>,
) -> (r: (int, Seq<Seq<char>>, int, Seq<char>))
    requires
        0 <= m.pos,
        intent.wifi.role == WifiRole::Ap,
        applied(h, m, cfg, intent, sta_psk, ap_psk) is Go,
    ensures
        ({
            let (written, args, up, name) = r;
            let end = applied(h, m, cfg, intent, sta_psk, ap_psk)->Go_0;
            let report = applied(h, m, cfg, intent, sta_psk, ap_psk)->Go_1;
            &&& m.pos <= written < up < end.pos
            &&& names_hotspot(name, intent.fallback)
            &&& did(applied_on(h, written, m, cfg, intent, sta_psk, ap_psk), h, written, cfg, args)
            &&& radio(h, m, cfg, intent) matches Progress::Go(_, found) && writes_hotspot(
                args,
                found.ap,
                intent.wifi,
                ap_psk,
                name,
            )
            &&& did(
                applied_on(h, up, m, cfg, intent, sta_psk, ap_psk),
                h,
                up,
                cfg,
                seq!["connection"@, "up"@, name],
            )
            &&& report.ok
            &&& report.steps == end.log
            &&& report.steps.len() > 0 && has_prefix(report.steps.last(), "brought up "@ + name)
        }),
{
    reveal(applied_on);
    let m1 = radio(h, m, cfg, intent)->Go_0;
    let found = radio(h, m, cfg, intent)->Go_1;
    let m2 = ethernet_done(h, m1, cfg, intent.ethernet)->Go_0;
    let name = hotspot_name(intent.fallback);
    let sta = crate::network::nmcli::NM_CON_WIFI_STA@;
    let m3 = connection_down(h, m2, cfg, sta)->Go_0;
    let n = h.len() as int;
    lemma_radio(h, m, cfg, intent, n);
    lemma_ethernet(h, m1, cfg, intent.ethernet, n);
    lemma_down(h, m2, cfg, sta, n);
    let (i, args, j) = ap_done_did(h, m3, cfg, found.ap, intent.wifi, ap_psk, name);
    lemma_radio(h, m, cfg, intent, i);
    lemma_ethernet(h, m1, cfg, intent.ethernet, i);
    lemma_down(h, m2, cfg, sta, i);
    lemma_radio(h, m, cfg, intent, j);
    lemma_ethernet(h, m1, cfg, intent.ethernet, j);
    lemma_down(h, m2, cfg, sta, j);
    (i, args, j, name)
}

/// A wire that was applied is up: a report of success for an intent that wants the wired
/// interface which it names means that its profile was created or changed on that
/// interface, with the address that is wanted, and brought up after that, both without an
/// error.
pub proof fn applied_wire_is_up(
    h: Seq<Reply>,
    m: Mark,
    cfg: ConfigView,
    intent: IntentView,
    sta_psk: Option<Seq<char>>,
    ap_psk: Option<Seq<char>>,
) -> (r: (int, Seq<Seq<char>>, int))
    requires
        0 <= m.pos,
        intent.ethernet.enabled,
        !is_blank(intent.ethernet.device),
        applied(h, m, cfg, intent, sta_psk, ap_psk) is Go,
    ensures
        ({
            let (written, args, up) = r;
            let eth = intent.ethernet;
            &&& m.pos <= written < up
            &&& did(applied_on(h, written, m, cfg, intent, sta_psk, ap_psk), h, written, cfg, args)
            &&& writes_profile(args, "ethernet"@, "evo-network-ethernet"@, trimmed(eth.device))
            &&& sets_ipv4(args, eth.ipv4_mode, eth.ipv4_address, eth.ipv4_gateway, eth.ipv4_dns)
            &&& did(
                applied_on(h, up, m, cfg, intent, sta_psk, ap_psk),
                h,
                up,
                cfg,
                seq!["connection"@, "up"@, "evo-network-ethernet"@],
            )
        }),
{
    reveal(applied_on);
    let m1 = radio(h, m, cfg, intent)->Go_0;
    lemma_radio(h, m, cfg, intent, h.len() as int);
    let (i, args, j) = ethernet_on_did(h, m1, cfg, intent.ethernet, trimmed(intent.ethernet.device));
    lemma_radio(h, m, cfg, intent, i);
    lemma_radio(h, m, cfg, intent, j);
    (i, args, j)
}

/// The same for an intent that names no wired interface, where `nmcli` lists one: the
/// first of the list that is wired and not the loopback is meant.
pub proof fn applied_wire_is_found(
    h: Seq<Reply>,
    m: Mark,
    cfg: ConfigView,
    intent: IntentView,
    sta_psk: Option<Seq<char>>,
    ap_psk: Option<Seq<char>>,
) -> (r: (Option<Seq<char>>, int, Seq<Seq<char>>, int))
    requires
        0 <= m.pos,
        intent.ethernet.enabled,
        is_blank(intent.ethernet.device),
        applied(h, m, cfg, intent, sta_psk, ap_psk) is Go,
    ensures
        ({
            let (ifname, written, args, up) = r;
            let eth = intent.ethernet;
            &&& wire_in_sight(h, m.pos, ifname)
            &&& ifname matches Some(name) ==> {
                &&& m.pos <= written < up
                &&& did(applied_on(h, written, m, cfg, intent, sta_psk, ap_psk), h, written, cfg, args)
                &&& writes_profile(args, "ethernet"@, "evo-network-ethernet"@, name)
                &&& sets_ipv4(args, eth.ipv4_mode, eth.ipv4_address, eth.ipv4_gateway, eth.ipv4_dns)
                &&& did(
                    applied_on(h, up, m, cfg, intent, sta_psk, ap_psk),
                    h,
                    up,
                    cfg,
                    seq!["connection"@, "up"@, "evo-network-ethernet"@],
                )
            }
        }),
{
    reveal(applied_on);
    let m1 = radio(h, m, cfg, intent)->Go_0;
    lemma_radio(h, m, cfg, intent, h.len() as int);
    let r = ethernet_found_did(h, m1, cfg, intent.ethernet);
    if r.0 is Some {
        lemma_radio(h, m, cfg, intent, r.1);
        lemma_radio(h, m, cfg, intent, r.3);
    }
    r
}

proof fn lemma_sight_widens(h: Seq<Reply>, from: int, before: int, n: int, wifi: WifiView, chosen: Option<CandidateView>)
    requires
        chosen_in_sight(h, from, n, wifi, chosen),
        before <= from,
    ensures
        chosen_in_sight(h, before, n, wifi, chosen),
{
    if chosen is Some {
        let k = choose|k: int|
            from <= k < n && (#[trigger] h[k] matches Reply::Ran(o) && o.success && chosen == selected(
                wifi,
                candidate_rows(lines(o.stdout@)),
            ));
        assert(h[k] is Ran);
    }
}

/// Where a client that was applied came from: what went before it came to its end.
proof fn lemma_client_came(
    h: Seq<Reply>,
    m: Mark,
    cfg: ConfigView,
    intent: IntentView,
    sta_psk: Option<Seq<char>>,
    ap_psk: Option<Seq<char>>,
)
    requires
        0 <= m.pos,
        intent.wifi.role == WifiRole::Sta,
        applied(h, m, cfg, intent, sta_psk, ap_psk) is Go,
    ensures
        ({
            let found = radio(h, m, cfg, intent)->Go_1;
            let m1 = radio(h, m, cfg, intent)->Go_0;
            let m2 = ethernet_done(h, m1, cfg, intent.ethernet)->Go_0;
            let m3 = radio_cleared(h, m2, cfg, found, hotspot_name(intent.fallback))->Go_0;
            &&& radio(h, m, cfg, intent) is Go
            &&& ethernet_done(h, m1, cfg, intent.ethernet) is Go
            &&& radio_cleared(h, m2, cfg, found, hotspot_name(intent.fallback)) is Go
            &&& m.pos <= m1.pos <= m2.pos <= m3.pos
            &&& sta_done(h, m3, cfg, found.sta, intent.wifi, sta_psk, intent.fallback.hotspot_enabled) is Go
        }),
{
    let n = h.len() as int;
    let m1 = radio(h, m, cfg, intent)->Go_0;
    let found = radio(h, m, cfg, intent)->Go_1;
    let m2 = ethernet_done(h, m1, cfg, intent.ethernet)->Go_0;
    lemma_radio(h, m, cfg, intent, n);
    lemma_ethernet(h, m1, cfg, intent.ethernet, n);
    lemma_cleared(h, m2, cfg, found, hotspot_name(intent.fallback), n);
}

/// Where setting the client up stops on the first replies, applying the intent does.
proof fn lemma_client_stops(
    h: Seq<Reply>,
    m: Mark,
    cfg: ConfigView,
    intent: IntentView,
    sta_psk: Option<Seq<char>>,
    ap_psk: Option<Seq<char>>,
    n: int,
)
    requires
        0 <= m.pos,
        intent.wifi.role == WifiRole::Sta,
        0 <= n <= h.len(),
        radio(h, m, cfg, intent) is Go,
        ethernet_done(h, radio(h, m, cfg, intent)->Go_0, cfg, intent.ethernet) is Go,
        ({
            let found = radio(h, m, cfg, intent)->Go_1;
            let m1 = radio(h, m, cfg, intent)->Go_0;
            let m2 = ethernet_done(h, m1, cfg, intent.ethernet)->Go_0;
            let cleared = radio_cleared(h, m2, cfg, found, hotspot_name(intent.fallback));
            &&& cleared is Go
            &&& cleared->Go_0.pos <= n
        }),
    ensures
        ({
            let found = radio(h, m, cfg, intent)->Go_1;
            let m1 = radio(h, m, cfg, intent)->Go_0;
            let m2 = ethernet_done(h, m1, cfg, intent.ethernet)->Go_0;
            let m3 = radio_cleared(h, m2, cfg, found, hotspot_name(intent.fallback))->Go_0;
            client_on(h, n, m3, cfg, found.sta, intent.wifi, sta_psk, intent.fallback.hotspot_enabled) matches Progress::Need(
                a,
            ) ==> applied_on(h, n, m, cfg, intent, sta_psk, ap_psk) == Progress::<ReportView>::Need(a)
        }),
{
    reveal(applied_on);
    reveal(client_on);
    let m1 = radio(h, m, cfg, intent)->Go_0;
    let found = radio(h, m, cfg, intent)->Go_1;
    let m2 = ethernet_done(h, m1, cfg, intent.ethernet)->Go_0;
    let name = hotspot_name(intent.fallback);
    lemma_radio(h, m, cfg, intent, n);
    lemma_ethernet(h, m1, cfg, intent.ethernet, n);
    lemma_cleared(h, m2, cfg, found, name, n);
}

/// A client that was applied has its profile: a report of success for the role of a client
/// means that its profile was created or changed without an error, with the network that
/// is wanted, its passphrase, the access point that was chosen of those in sight and the
/// address that is wanted; and that it was brought up after that, without an error unless
/// the hotspot stands by. The result is the access point that was chosen, where the two
/// commands were run, and the first one's arguments.
pub proof fn applied_client_is_up(
    h: Seq<Reply>,
    m: Mark,
    cfg: ConfigView,
    intent: IntentView,
    sta_psk: Option<Seq<char>>,
    ap_psk: Option<Seq<char>>,
) -> (r: (Option<CandidateView>, int, Seq<Seq<char>>, int))
    requires
        0 <= m.pos,
        intent.wifi.role == WifiRole::Sta,
        applied(h, m, cfg, intent, sta_psk, ap_psk) is Go,
    ensures
        ({
            let (chosen, written, args, up) = r;
            let connect = seq!["connection"@, "up"@, "evo-network-wifi-sta"@];
            &&& m.pos <= written < up
            &&& chosen_in_sight(h, m.pos, written, intent.wifi, chosen)
            &&& did(applied_on(h, written, m, cfg, intent, sta_psk, ap_psk), h, written, cfg, args)
            &&& radio(h, m, cfg, intent) matches Progress::Go(_, found) && writes_client(
                args,
                found.sta,
                intent.wifi,
                sta_psk,
                chosen,
            )
            &&& !intent.fallback.hotspot_enabled ==> did(
                applied_on(h, up, m, cfg, intent, sta_psk, ap_psk),
                h,
                up,
                cfg,
                connect,
            )
            &&& intent.fallback.hotspot_enabled ==> stopped_at(
                applied_on(h, up, m, cfg, intent, sta_psk, ap_psk),
                cfg,
                connect,
            )
        }),
{
    let n = h.len() as int;
    let nonfatal = intent.fallback.hotspot_enabled;
    let m1 = radio(h, m, cfg, intent)->Go_0;
    let found = radio(h, m, cfg, intent)->Go_1;
    let m2 = ethernet_done(h, m1, cfg, intent.ethernet)->Go_0;
    let name = hotspot_name(intent.fallback);
    let m3 = radio_cleared(h, m2, cfg, found, name)->Go_0;
    lemma_client_came(h, m, cfg, intent, sta_psk, ap_psk);
    let (chosen, i, args, j) = sta_done_did(h, m3, cfg, found.sta, intent.wifi, sta_psk, nonfatal);
    lemma_sight_widens(h, m3.pos, m.pos, i, intent.wifi, chosen);
    lemma_client_stops(h, m, cfg, intent, sta_psk, ap_psk, i);
    lemma_client_stops(h, m, cfg, intent, sta_psk, ap_psk, j);
    (chosen, i, args, j)
}

/// The hotspot stands by a client that was applied: where the fallback wants it, a report
/// of success means that its profile was written and brought up, both without an error, as
/// for a hotspot alone. On a radio of its own making it may be on the client's channel
/// instead of the intent's.
pub proof fn applied_client_has_its_hotspot(
    h: Seq<Reply>,
    m: Mark,
    cfg: ConfigView,
    intent: IntentView,
    sta_psk: Option<Seq<char>>,
    ap_psk: Option<Seq<char>>,
) -> (r: (int, Seq<Seq<char>>, int, Seq<char>, WifiView))
    requires
        0 <= m.pos,
        intent.wifi.role == WifiRole::Sta,
        intent.fallback.hotspot_enabled,
        applied(h, m, cfg, intent, sta_psk, ap_psk) is Go,
    ensures
        ({
            let (written, args, up, name, wifi) = r;
            &&& m.pos <= written < up
            &&& names_hotspot(name, intent.fallback)
            &&& wifi.ap_ssid == intent.wifi.ap_ssid
            &&& did(applied_on(h, written, m, cfg, intent, sta_psk, ap_psk), h, written, cfg, args)
            &&& radio(h, m, cfg, intent) matches Progress::Go(_, found) && {
                &&& writes_hotspot(args, found.ap, wifi, ap_psk, name)
                &&& found.sta == found.ap || found.explicit ==> wifi == intent.wifi
            }
            &&& did(
                applied_on(h, up, m, cfg, intent, sta_psk, ap_psk),
                h,
                up,
                cfg,
                seq!["connection"@, "up"@, name],
            )
        }),
{
    reveal(applied_on);
    let n = h.len() as int;
    let m1 = radio(h, m, cfg, intent)->Go_0;
    let found = radio(h, m, cfg, intent)->Go_1;
    let m2 = ethernet_done(h, m1, cfg, intent.ethernet)->Go_0;
    let name = hotspot_name(intent.fallback);
    let m3 = radio_cleared(h, m2, cfg, found, name)->Go_0;
    let m4 = sta_done(h, m3, cfg, found.sta, intent.wifi, sta_psk, true)->Go_0;
    let m5 = vif_created(h, m4, found, true)->Go_0;
    let m6 = following(h, m5, found, intent.wifi)->Go_0;
    let wifi = following(h, m5, found, intent.wifi)->Go_1;
    lemma_radio(h, m, cfg, intent, n);
    lemma_ethernet(h, m1, cfg, intent.ethernet, n);
    lemma_cleared(h, m2, cfg, found, name, n);
    lemma_sta(h, m3, cfg, found.sta, intent.wifi, sta_psk, true, n);
    lemma_created(h, m4, found, true, n);
    lemma_following(h, m5, found, intent.wifi, n);
    let (i, args, j) = ap_done_did(h, m6, cfg, found.ap, wifi, ap_psk, name);
    lemma_radio(h, m, cfg, intent, i);
    lemma_ethernet(h, m1, cfg, intent.ethernet, i);
    lemma_cleared(h, m2, cfg, found, name, i);
    lemma_sta(h, m3, cfg, found.sta, intent.wifi, sta_psk, true, i);
    lemma_created(h, m4, found, true, i);
    lemma_following(h, m5, found, intent.wifi, i);
    lemma_radio(h, m, cfg, intent, j);
    lemma_ethernet(h, m1, cfg, intent.ethernet, j);
    lemma_cleared(h, m2, cfg, found, name, j);
    lemma_sta(h, m3, cfg, found.sta, intent.wifi, sta_psk, true, j);
    lemma_created(h, m4, found, true, j);
    lemma_following(h, m5, found, intent.wifi, j);
    (i, args, j, name, wifi)
}

/// Wi-Fi that is switched off is off: a report of success means that `nmcli` was told to
/// take the client down, and then the hotspot. The result is where.
pub proof fn applied_off_is_down(
    h: Seq<Reply>,
    m: Mark,
    cfg: ConfigView,
    intent: IntentView,
    sta_psk: Option<Seq<char>>,
    ap_psk: Option<Seq<char>>,
) -> (r: (int, int, Seq<char>))
    requires
        0 <= m.pos,
        intent.wifi.role == WifiRole::Disabled,
        applied(h, m, cfg, intent, sta_psk, ap_psk) is Go,
    ensures
        ({
            let (client, hotspot, name) = r;
            &&& m.pos <= client < hotspot < h.len()
            &&& names_hotspot(name, intent.fallback)
            &&& stopped_at(
                applied_on(h, client, m, cfg, intent, sta_psk, ap_psk),
                cfg,
                seq!["connection"@, "down"@, "evo-network-wifi-sta"@],
            )
            &&& stopped_at(
                applied_on(h, hotspot, m, cfg, intent, sta_psk, ap_psk),
                cfg,
                seq!["connection"@, "down"@, name],
            )
        }),
{
    reveal(applied_on);
    let n = h.len() as int;
    let m1 = radio(h, m, cfg, intent)->Go_0;
    let m2 = ethernet_done(h, m1, cfg, intent.ethernet)->Go_0;
    let sta = crate::network::nmcli::NM_CON_WIFI_STA@;
    let name = hotspot_name(intent.fallback);
    lemma_names();
    trimming_is_idempotent(intent.fallback.hotspot_connection_name);
    let m3 = connection_down(h, m2, cfg, sta)->Go_0;
    lemma_radio(h, m, cfg, intent, n);
    lemma_ethernet(h, m1, cfg, intent.ethernet, n);
    let i = m2.pos;
    let j = m3.pos;
    lemma_replies(h, i);
    lemma_replies(h, j);
    lemma_radio(h, m, cfg, intent, i);
    lemma_ethernet(h, m1, cfg, intent.ethernet, i);
    lemma_radio(h, m, cfg, intent, j);
    lemma_ethernet(h, m1, cfg, intent.ethernet, j);
    (i, j, name)
}

/// The client is taken down before the radio becomes an access point, and the hotspot
/// before the radio becomes a client: the first command for the new role says so.
pub proof fn roles_start_from_a_free_radio(
    h: Seq<Reply>,
    m: Mark,
    cfg: ConfigView,
    intent: IntentView,
    sta_psk: Option<Seq<char>>,
    ap_psk: Option<Seq<char>>,
) -> (r: (int, Seq<char>))
    requires
        0 <= m.pos,
        intent.wifi.role != WifiRole::Disabled,
        applied(h, m, cfg, intent, sta_psk, ap_psk) is Go,
    ensures
        m.pos <= r.0 < h.len(),
        names_hotspot(r.1, intent.fallback),
        stopped_at(
            applied_on(h, r.0, m, cfg, intent, sta_psk, ap_psk),
            cfg,
            seq![
                "connection"@,
                "down"@,
                if intent.wifi.role == WifiRole::Ap {
                    "evo-network-wifi-sta"@
                } else {
                    r.1
                },
            ],
        ),
{
    reveal(applied_on);
    let n = h.len() as int;
    let m1 = radio(h, m, cfg, intent)->Go_0;
    let m2 = ethernet_done(h, m1, cfg, intent.ethernet)->Go_0;
    let name = hotspot_name(intent.fallback);
    lemma_names();
    trimming_is_idempotent(intent.fallback.hotspot_connection_name);
    lemma_radio(h, m, cfg, intent, n);
    lemma_ethernet(h, m1, cfg, intent.ethernet, n);
    let i = m2.pos;
    lemma_replies(h, i);
    lemma_radio(h, m, cfg, intent, i);
    lemma_ethernet(h, m1, cfg, intent.ethernet, i);
    (i, name)
}

proof fn lemma_names()
    ensures
        !is_blank("evo-network-wifi-sta"@),
        !is_blank("volumio-hotspot"@),
{
    reveal_strlit("evo-network-wifi-sta");
    reveal_strlit("volumio-hotspot");
    lemma_trim_fixed("evo-network-wifi-sta"@);
    lemma_trim_fixed("volumio-hotspot"@);
}

/// A wire that is not wanted is left alone: nothing is run for it.
pub proof fn unwanted_wire_is_left_alone(h: Seq<Reply>, m: Mark, cfg: ConfigView, eth: EthernetView)
    requires
        !eth.enabled,
    ensures
        ethernet_done(h, m, cfg, eth) matches Progress::Go(m1, _) && m1.pos == m.pos,
{
}

/// An intent that cannot be applied is refused before anything is done for the part that
/// lacks something: a static address that is not given, a network without a name, a
/// passphrase that is missing.
pub proof fn incomplete_intents_are_refused(
    h: Seq<Reply>,
    m: Mark,
    cfg: ConfigView,
    eth: EthernetView,
    ifname: Seq<char>,
    wifi: WifiView,
    psk: Option<Seq<char>>,
    name: Seq<char>,
    nonfatal: bool,
)
    ensures
        eth.enabled && eth.ipv4_mode == Ipv4Mode::Static && is_blank(eth.ipv4_address) ==> ethernet_done(h, m, cfg, eth)
            is Fail,
        is_blank(wifi.ap_ssid) ==> ap_done(h, m, cfg, ifname, wifi, psk, name) is Fail,
        is_blank(wifi.sta_ssid) || is_blank(ifname) ==> sta_done(h, m, cfg, ifname, wifi, psk, nonfatal) is Fail,
        wifi.sta_ipv4_mode == Ipv4Mode::Static && is_blank(wifi.sta_ipv4_address) ==> sta_done(
            h,
            m,
            cfg,
            ifname,
            wifi,
            psk,
            nonfatal,
        ) is Fail,
        !wifi.sta_open && (psk matches Some(p) ==> is_blank(p)) ==> !(sta_done(h, m, cfg, ifname, wifi, psk, nonfatal)
            is Go),
{
}

// What holds of retries and of the radio that is shared.

/// Whether the command at a place exited with an error, or did not run to its end.
pub open spec fn missed(h: Seq<Reply>, i: int) -> bool {
    &&& 0 <= i < h.len()
    &&& h[i] is Ran || h[i] is SpawnFailed || h[i] is TimedOut
    &&& !(h[i] matches Reply::Ran(o) && o.success)
}

proof fn lemma_tries(h: Seq<Reply>, m: Mark, cfg: ConfigView, name: Seq<char>, attempt: nat)
    requires
        0 <= m.pos,
        1 <= attempt <= 5,
    ensures
        hotspot_up_from(h, m, cfg, name, attempt) matches Progress::Go(m1, false) ==> {
            &&& attempt <= 4 ==> m1.pos == m.pos + 2 * (4 - attempt) + 1
            &&& forall|k: int| attempt <= k <= 4 ==> missed(h, #[trigger] (m.pos + 2 * (k - attempt)))
            &&& forall|k: int| attempt <= k < 4 ==> h[#[trigger] (m.pos + 2 * (k - attempt) + 1)] == Reply::Slept
        },
    decreases 5 - attempt,
{
    if attempt <= 4 {
        if let Progress::Go(m1, r) = connection_up(h, m, cfg, name) {
            if attempt < 4 {
                lemma_tries(h, m1.read(), cfg, name, attempt + 1);
                if let Progress::Go(end, false) = hotspot_up_from(h, m, cfg, name, attempt) {
                    assert forall|k: int| attempt <= k <= 4 implies missed(
                        h,
                        #[trigger] (m.pos + 2 * (k - attempt)),
                    ) by {
                        if k > attempt {
                            assert(m.pos + 2 * (k - attempt) == m1.read().pos + 2 * (k - (attempt + 1)));
                        }
                    }
                    assert forall|k: int| attempt <= k < 4 implies h[#[trigger] (m.pos + 2 * (k - attempt) + 1)]
                        == Reply::Slept by {
                        if k > attempt {
                            assert(m.pos + 2 * (k - attempt) + 1 == m1.read().pos + 2 * (k - (attempt + 1)) + 1);
                        }
                    }
                }
            } else {
                lemma_tries(h, m1, cfg, name, attempt + 1);
            }
        }
    }
}

/// A hotspot is given up only after four tries: where bringing it up did not succeed, four
/// commands failed, with a pause after each but the last.
pub proof fn hotspots_are_tried_four_times(h: Seq<Reply>, m: Mark, cfg: ConfigView, name: Seq<char>)
    requires
        0 <= m.pos,
        !is_blank(name),
    ensures
        hotspot_up(h, m, cfg, name) matches Progress::Go(m1, false) ==> {
            &&& m1.pos == m.pos + 7
            &&& missed(h, m.pos) && missed(h, m.pos + 2) && missed(h, m.pos + 4) && missed(h, m.pos + 6)
            &&& h[m.pos + 1] == Reply::Slept && h[m.pos + 3] == Reply::Slept && h[m.pos + 5] == Reply::Slept
        },
{
    lemma_tries(h, m, cfg, name, 1);
    if let Progress::Go(m1, false) = hotspot_up(h, m, cfg, name) {
        assert(missed(h, m.pos + 2 * (1 - 1)));
        assert(missed(h, m.pos + 2 * (2 - 1)));
        assert(missed(h, m.pos + 2 * (3 - 1)));
        assert(missed(h, m.pos + 2 * (4 - 1)));
        assert(h[m.pos + 2 * (1 - 1) + 1] == Reply::Slept);
        assert(h[m.pos + 2 * (2 - 1) + 1] == Reply::Slept);
        assert(h[m.pos + 2 * (3 - 1) + 1] == Reply::Slept);
    }
}

/// Between two tries there is a pause of 400 milliseconds, and then the same command again.
pub proof fn tries_pause_between(h: Seq<Reply>, m: Mark, cfg: ConfigView, name: Seq<char>)
    requires
        0 <= m.pos,
        !is_blank(name),
    ensures
        m.pos == h.len() ==> stopped_at(hotspot_up(h, m, cfg, name), cfg, seq!["connection"@, "up"@, name]),
        m.pos + 1 == h.len() && missed(h, m.pos) ==> hotspot_up(h, m, cfg, name) == Progress::<bool>::Need(
            Ask::Sleep { ms: 400 },
        ),
        m.pos + 2 == h.len() && missed(h, m.pos) && h[m.pos + 1] == Reply::Slept ==> stopped_at(
            hotspot_up(h, m, cfg, name),
            cfg,
            seq!["connection"@, "up"@, name],
        ),
{
    reveal_with_fuel(hotspot_up_from, 3);
}

/// A wire that an intent names is dead exactly where the kernel says that it has no carrier,
/// or says nothing; and one that the intent does not want is not dead.
pub proof fn dead_wires_have_no_carrier(h: Seq<Reply>, m: Mark, cfg: ConfigView, eth: EthernetView)
    requires
        0 <= m.pos,
    ensures
        !eth.enabled ==> wire_is_dead(h, m, cfg, eth) == Progress::<bool>::Go(m, false),
        eth.enabled && !is_blank(eth.device) && m.pos == h.len() ==> wire_is_dead(h, m, cfg, eth) == Progress::<
            bool,
        >::Need(Ask::ReadText { path: "/sys/class/net/"@ + trimmed(eth.device) + "/carrier"@ }),
        eth.enabled && !is_blank(eth.device) ==> (wire_is_dead(h, m, cfg, eth) matches Progress::Go(m1, dead) ==> m1.pos
            == m.pos + 1 && (h[m.pos] matches Reply::Text(t) && dead == (t matches Some(s) ==> trimmed(s@) == "0"@))),
{
    trimming_is_idempotent(eth.device);
}

/// A hotspot is opened only in need: the recovery does nothing while the wire is alive, and
/// where it succeeds, the passphrase was taken off the profile and the profile brought up
/// after that.
pub proof fn hotspots_are_opened_only_in_need(h: Seq<Reply>, m: Mark, cfg: ConfigView, intent: IntentView, name: Seq<char>)
    requires
        0 <= m.pos,
    ensures
        !intent.fallback.hotspot_enabled ==> open_recovery(h, m, cfg, intent, name) == Progress::<bool>::Go(m, false),
        wire_is_dead(h, m, cfg, intent.ethernet) matches Progress::Go(m1, false) ==> (open_recovery(h, m, cfg, intent, name)
            matches Progress::Go(_, opened) && !opened),
        open_recovery(h, m, cfg, intent, name) matches Progress::Go(_, true) ==> {
            let m1 = wire_is_dead(h, m, cfg, intent.ethernet)->Go_0;
            &&& wire_is_dead(h, m, cfg, intent.ethernet) matches Progress::Go(_, true)
            &&& profile_opened(h, m1, cfg, name) is Go
            &&& hotspot_up(
                h,
                profile_opened(h, m1, cfg, name)->Go_0.said(
                    "critical: Ethernet no carrier + hotspot failed; forced open AP on "@ + name,
                ),
                cfg,
                name,
            ) matches Progress::Go(_, true)
        },
        !is_blank(name) && m.pos == h.len() ==> stopped_at(
            profile_opened(h, m, cfg, name),
            cfg,
            seq!["connection"@, "modify"@, name, "remove"@, "802-11-wireless-security"@],
        ),
{
}

/// Who gets a radio that client and hotspot share: both keep it where both are active;
/// where the hotspot alone is and there is no wire, it keeps it; else it is taken down and
/// the client is brought up again.
pub proof fn shared_radios_go_to_the_client(
    h: Seq<Reply>,
    m: Mark,
    cfg: ConfigView,
    intent: IntentView,
    sta: Seq<char>,
    name: Seq<char>,
    m1: Mark,
    has_sta: bool,
    has_hs: bool,
)
    requires
        0 <= m1.pos,
        !is_blank(sta),
        !is_blank(name),
        settle_from(h, m, cfg, sta, name, 1) == Progress::Go(m1, (has_sta, has_hs)),
    ensures
        !has_hs || has_sta ==> (shared_radio(h, m, cfg, intent, sta, name) matches Progress::Go(end, _) && end.pos == m1.pos),
        has_hs && !has_sta ==> match wire_is_dead(h, m1, cfg, intent.ethernet) {
            Progress::Go(m2, true) => shared_radio(h, m, cfg, intent, sta, name) matches Progress::Go(end, _) && end.pos
                == m2.pos,
            Progress::Go(m2, false) => {
                &&& m2.pos == h.len() ==> stopped_at(
                    shared_radio(h, m, cfg, intent, sta, name),
                    cfg,
                    seq!["connection"@, "down"@, name],
                )
                &&& m2.pos + 1 == h.len() && (h[m2.pos] is Ran || h[m2.pos] is SpawnFailed || h[m2.pos] is TimedOut)
                    ==> stopped_at(
                    shared_radio(h, m, cfg, intent, sta, name),
                    cfg,
                    seq!["connection"@, "up"@, "evo-network-wifi-sta"@],
                )
            },
            _ => true,
        },
{
    if let Progress::Go(m2, false) = wire_is_dead(h, m1, cfg, intent.ethernet) {
        lemma_nmcli(
            h,
            m1,
            cfg,
            seq!["-t"@, "-f"@, "DEVICE,TYPE,STATE,CONNECTION"@, "device"@],
            h.len() as int,
        );
    }
}

/// Looking whether both are active ends as soon as they are, and at the latest after
/// fifteen times with a pause of 200 milliseconds between two.
pub proof fn looks_end_when_both_are_active(h: Seq<Reply>, m: Mark, cfg: ConfigView, sta: Seq<char>, name: Seq<char>, attempt: nat)
    requires
        1 <= attempt <= 15,
    ensures
        active_on_device(h, m, cfg, sta) matches Progress::Go(m1, names) ==> {
            let both = lists(names, "evo-network-wifi-sta"@) && lists(names, trimmed(name));
            &&& both || attempt == 15 ==> settle_from(h, m, cfg, sta, name, attempt) == Progress::Go(
                m1,
                (lists(names, "evo-network-wifi-sta"@), lists(names, trimmed(name))),
            )
            &&& !both && attempt < 15 && m1.pos == h.len() ==> settle_from(h, m, cfg, sta, name, attempt) == Progress::<
                (bool, bool),
            >::Need(Ask::Sleep { ms: 200 })
        },
{
}

} // verus!
