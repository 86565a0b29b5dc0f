//! The hotspot: its profile, its recovery when there is no wire, and giving the radio
//! back to the client.

use crate::error::{permanent, transient, ErrorView};
use crate::network::config::{ConfigView, PluginConfig};
use crate::network::intent::{EthernetIntent, EthernetView, FallbackIntent, FallbackView, IntentView, NetworkIntent, WifiIntent, WifiView};
use crate::network::nmcli::{
    active_on_device, connection_down, connection_down_lossy, connection_exists, connection_up,
    connection_up_hotspot_with_retries, device_table, hotspot_up, nm_active_connection_names_on_device,
    nm_connection_exists, nm_device_table, nmcli, nmcli_connection_up, nmcli_output, NM_CON_WIFI_STA,
};
use crate::network::profiles::{hotspot_connection_name, hotspot_name, passphrase, passphrase_of, psk_args};
use crate::network::readings::{ap_channel_args, first_ethernet_device, first_wired, push_nm_ap_channel};
use crate::network::transcript::{read_text, reply_at, slept, Ask, Halt, Mark, Progress, Reply, Run};
use crate::number::{decimal, to_decimal};
use crate::text::{
    blank, cat, cat3, cat5, extend_texts, is_blank, opt_slice, opt_text, owned, text_eq, texts, trim, trimmed,
};
use vstd::prelude::*;

verus! {

/// The security arguments of the hotspot profile.
pub open spec fn ap_security(psk: Option<Seq<char>>) -> Seq<Seq<char>> {
    match passphrase(psk) {
        Some(p) => psk_args(p),
        None => seq![],
    }
}

/// The arguments that change the hotspot profile.
pub open spec fn ap_modify_args(ifname: Seq<char>, wifi: WifiView, psk: Option<Seq<char>>, name: Seq<char>) -> Seq<Seq<char>> {
    seq![
        "connection"@,
        "modify"@,
        name,
        "connection.interface-name"@,
        trimmed(ifname),
        "802-11-wireless.mode"@,
        "ap"@,
        "802-11-wireless.ssid"@,
        trimmed(wifi.ap_ssid),
        "ipv4.method"@,
        "shared"@,
        "ipv6.method"@,
        "ignore"@,
        "connection.autoconnect"@,
        "no"@,
    ] + ap_channel_args(wifi) + ap_security(psk)
}

/// The arguments that create the hotspot profile.
pub open spec fn ap_add_args(ifname: Seq<char>, wifi: WifiView, psk: Option<Seq<char>>, name: Seq<char>) -> Seq<Seq<char>> {
    seq![
        "connection"@,
        "add"@,
        "type"@,
        "wifi"@,
        "con-name"@,
        name,
        "ifname"@,
        trimmed(ifname),
        "autoconnect"@,
        "no"@,
        "wifi.mode"@,
        "ap"@,
        "ssid"@,
        trimmed(wifi.ap_ssid),
        "ipv4.method"@,
        "shared"@,
        "ipv6.method"@,
        "ignore"@,
    ] + ap_channel_args(wifi) + ap_security(psk)
}

/// The arguments that take the passphrase off a profile.
pub open spec fn open_args(name: Seq<char>) -> Seq<Seq<char>> {
    seq!["connection"@, "modify"@, name, "remove"@, "802-11-wireless-security"@]
}

/// Takes the passphrase off a profile; whatever comes of it is left at that.
pub open spec fn profile_opened(h: Seq<Reply>, m: Mark, cfg: ConfigView, name: Seq<char>) -> Progress<()> {
    match nmcli(h, m, cfg, open_args(name)) {
        Progress::Go(m1, _) => Progress::Go(m1, ()),
        Progress::Need(a) => Progress::Need(a),
        Progress::Fail(e) => Progress::Fail(e),
    }
}

fn open_profile(run: &mut Run, cfg: &PluginConfig, name: &str) -> (r: Result<(), Halt>)
    requires
        old(run).wf(),
    ensures
        final(run).follows(old(run)),
        match r {
            Ok(v) => profile_opened(old(run).replies@, old(run)@, cfg@, name@) == Progress::Go(final(run)@, v),
            Err(h) => profile_opened(old(run).replies@, old(run)@, cfg@, name@) == h.stop::<()>(),
        },
{
    let args = owned(vec!["connection", "modify", name, "remove", "802-11-wireless-security"]);
    proof {
        assert(texts(args@) =~= open_args(name@));
    }
    match nmcli_output(run, cfg, args) {
        Ok(_) => Ok(()),
        Err(h) => Err(h),
    }
}

/// Writes the hotspot profile: changed where it exists, with its passphrase taken off
/// where there is none; created where it does not.
pub open spec fn ap_profile(
    h: Seq<Reply>,
    m: Mark,
    cfg: ConfigView,
    ifname: Seq<char>,
    wifi: WifiView,
    psk: Option<Seq<char>>,
    name: Seq<char>,
) -> Progress<()> {
    match connection_exists(h, m, cfg, name) {
        Progress::Go(m1, true) => match nmcli(h, m1, cfg, ap_modify_args(ifname, wifi, psk, name)) {
            Progress::Go(m2, Ok(_)) => {
                let line = "modified hotspot profile "@ + name;
                if passphrase(psk) is None {
                    match profile_opened(h, m2, cfg, name) {
                        Progress::Go(m3, _) => Progress::Go(m3.said(line), ()),
                        Progress::Need(a) => Progress::Need(a),
                        Progress::Fail(e) => Progress::Fail(e),
                    }
                } else {
                    Progress::Go(m2.said(line), ())
                }
            },
            Progress::Go(m2, Err(e)) => Progress::Fail(e),
            Progress::Need(a) => Progress::Need(a),
            Progress::Fail(e) => Progress::Fail(e),
        },
        Progress::Go(m1, false) => match nmcli(h, m1, cfg, ap_add_args(ifname, wifi, psk, name)) {
            Progress::Go(m2, Ok(_)) => Progress::Go(m2.said("added hotspot profile "@ + name), ()),
            Progress::Go(m2, Err(e)) => Progress::Fail(e),
            Progress::Need(a) => Progress::Need(a),
            Progress::Fail(e) => Progress::Fail(e),
        },
        Progress::Need(a) => Progress::Need(a),
        Progress::Fail(e) => Progress::Fail(e),
    }
}

/// What setting the hotspot up comes to.
pub open spec fn ap_done(
    h: Seq<Reply>,
    m: Mark,
    cfg: ConfigView,
    ifname: Seq<char>,
    wifi: WifiView,
    psk: Option<Seq<char>>,
    name: Seq<char>,
) -> Progress<()> {
    if is_blank(wifi.ap_ssid) {
        Progress::Fail(ErrorView::Permanent("wifi.ap_ssid is required for hotspot"@))
    } else {
        match ap_profile(h, m, cfg, ifname, wifi, psk, name) {
            Progress::Go(m1, _) => match hotspot_up(h, m1, cfg, name) {
                Progress::Go(m2, true) => Progress::Go(m2, ()),
                Progress::Go(m2, false) => Progress::Fail(
                    ErrorView::Transient("nmcli connection up wifi AP failed after retries"@),
                ),
                Progress::Need(a) => Progress::Need(a),
                Progress::Fail(e) => Progress::Fail(e),
            },
            Progress::Need(a) => Progress::Need(a),
            Progress::Fail(e) => Progress::Fail(e),
        }
    }
}

fn ap_security_args(psk: Option<&str>) -> (r: Vec<String>)
    ensures
        texts(r@) == ap_security(opt_slice(psk)),
{
    let out = match passphrase_of(psk) {
        Some(p) => {
            let v = owned(vec!["wifi-sec.key-mgmt", "wpa-psk", "wifi-sec.psk-flags", "0", "wifi-sec.psk", p]);
            proof {
                assert(texts(v@) =~= psk_args(p@));
            }
            v
        },
        None => {
            let v: Vec<String> = Vec::new();
            proof {
                assert(texts(v@) =~= Seq::<Seq<char>>::empty());
            }
            v
        },
    };
    out
}

fn ap_modify_list(ifname: &str, wifi: &WifiIntent, psk: Option<&str>, name: &str) -> (r: Vec<String>)
    ensures
        texts(r@) == ap_modify_args(ifname@, wifi@, opt_slice(psk), name@),
{
    let mut args = owned(
        vec![
            "connection",
            "modify",
            name,
            "connection.interface-name",
            trim(ifname),
            "802-11-wireless.mode",
            "ap",
            "802-11-wireless.ssid",
            trim(wifi.ap_ssid.as_str()),
            "ipv4.method",
            "shared",
            "ipv6.method",
            "ignore",
            "connection.autoconnect",
            "no",
        ],
    );
    push_nm_ap_channel(&mut args, wifi);
    extend_texts(&mut args, ap_security_args(psk));
    proof {
        assert(texts(args@) =~= ap_modify_args(ifname@, wifi@, opt_slice(psk), name@));
    }
    args
}

fn ap_add_list(ifname: &str, wifi: &WifiIntent, psk: Option<&str>, name: &str) -> (r: Vec<String>)
    ensures
        texts(r@) == ap_add_args(ifname@, wifi@, opt_slice(psk), name@),
{
    let mut args = owned(
        vec![
            "connection",
            "add",
            "type",
            "wifi",
            "con-name",
            name,
            "ifname",
            trim(ifname),
            "autoconnect",
            "no",
            "wifi.mode",
            "ap",
            "ssid",
            trim(wifi.ap_ssid.as_str()),
            "ipv4.method",
            "shared",
            "ipv6.method",
            "ignore",
        ],
    );
    push_nm_ap_channel(&mut args, wifi);
    extend_texts(&mut args, ap_security_args(psk));
    proof {
        assert(texts(args@) =~= ap_add_args(ifname@, wifi@, opt_slice(psk), name@));
    }
    args
}

fn write_ap_profile(
    run: &mut Run,
    cfg: &PluginConfig,
    ifname: &str,
    wifi: &WifiIntent,
    psk: Option<&str>,
    name: &str,
) -> (r: Result<(), Halt>)
    requires
        old(run).wf(),
    ensures
        final(run).follows(old(run)),
        match r {
            Ok(v) => ap_profile(old(run).replies@, old(run)@, cfg@, ifname@, wifi@, opt_slice(psk), name@)
                == Progress::Go(final(run)@, v),
            Err(h) => ap_profile(old(run).replies@, old(run)@, cfg@, ifname@, wifi@, opt_slice(psk), name@)
                == h.stop::<()>(),
        },
{
    let known = match nm_connection_exists(run, cfg, name) {
        Ok(b) => b,
        Err(h) => return Err(h),
    };
    if known {
        match nmcli_output(run, cfg, ap_modify_list(ifname, wifi, psk, name)) {
            Ok(Ok(_)) => {},
            Ok(Err(e)) => return Err(Halt::Fail(e)),
            Err(h) => return Err(h),
        }
        if passphrase_of(psk).is_none() {
            match open_profile(run, cfg, name) {
                Ok(_) => {},
                Err(h) => return Err(h),
            }
        }
        run.say(cat("modified hotspot profile ", name).as_str());
    } else {
        match nmcli_output(run, cfg, ap_add_list(ifname, wifi, psk, name)) {
            Ok(Ok(_)) => {},
            Ok(Err(e)) => return Err(Halt::Fail(e)),
            Err(h) => return Err(h),
        }
        run.say(cat("added hotspot profile ", name).as_str());
    }
    Ok(())
}

/// Sets the hotspot up, as [`ap_done`] says.
pub fn ensure_wifi_ap(
    run: &mut Run,
    cfg: &PluginConfig,
    wifi_ifname: &str,
    wifi: &WifiIntent,
    ap_psk: Option<&str>,
    hotspot_name: &str,
) -> (r: Result<(), Halt>)
    requires
        old(run).wf(),
    ensures
        final(run).follows(old(run)),
        match r {
            Ok(v) => ap_done(old(run).replies@, old(run)@, cfg@, wifi_ifname@, wifi@, opt_slice(ap_psk), hotspot_name@)
                == Progress::Go(final(run)@, v),
            Err(h) => ap_done(old(run).replies@, old(run)@, cfg@, wifi_ifname@, wifi@, opt_slice(ap_psk), hotspot_name@)
                == h.stop::<()>(),
        },
{
    if blank(wifi.ap_ssid.as_str()) {
        return Err(Halt::Fail(permanent("wifi.ap_ssid is required for hotspot")));
    }
    match write_ap_profile(run, cfg, wifi_ifname, wifi, ap_psk, hotspot_name) {
        Ok(_) => {},
        Err(h) => return Err(h),
    }
    match connection_up_hotspot_with_retries(run, cfg, hotspot_name) {
        Ok(true) => Ok(()),
        Ok(false) => Err(Halt::Fail(transient("nmcli connection up wifi AP failed after retries"))),
        Err(h) => Err(h),
    }
}

/// Sets the fallback's hotspot up, where the fallback has one.
pub open spec fn hotspot_profile(
    h: Seq<Reply>,
    m: Mark,
    cfg: ConfigView,
    ifname: Seq<char>,
    wifi: WifiView,
    psk: Option<Seq<char>>,
    fallback: FallbackView,
) -> Progress<()> {
    if fallback.hotspot_enabled {
        ap_done(h, m, cfg, ifname, wifi, psk, hotspot_name(fallback))
    } else {
        Progress::Go(m, ())
    }
}

/// Sets the fallback's hotspot up.
pub fn ensure_hotspot_profile(
    run: &mut Run,
    cfg: &PluginConfig,
    wifi_ifname: &str,
    wifi: &WifiIntent,
    ap_psk: Option<&str>,
    fallback: &FallbackIntent,
) -> (r: Result<(), Halt>)
    requires
        old(run).wf(),
    ensures
        final(run).follows(old(run)),
        match r {
            Ok(v) => hotspot_profile(
                old(run).replies@,
                old(run)@,
                cfg@,
                wifi_ifname@,
                wifi@,
                opt_slice(ap_psk),
                fallback@,
            ) == Progress::Go(final(run)@, v),
            Err(h) => hotspot_profile(
                old(run).replies@,
                old(run)@,
                cfg@,
                wifi_ifname@,
                wifi@,
                opt_slice(ap_psk),
                fallback@,
            ) == h.stop::<()>(),
        },
{
    if !fallback.hotspot_enabled {
        return Ok(());
    }
    let name = hotspot_connection_name(fallback);
    ensure_wifi_ap(run, cfg, wifi_ifname, wifi, ap_psk, name.as_str())
}

/// The wired interface of an intent, where it has one.
pub open spec fn wired_ifname(h: Seq<Reply>, m: Mark, cfg: ConfigView, eth: EthernetView) -> Progress<Option<Seq<char>>> {
    if !eth.enabled {
        Progress::Go(m, None)
    } else if !is_blank(eth.device) {
        Progress::Go(m, Some(trimmed(eth.device)))
    } else {
        match device_table(h, m, cfg) {
            Progress::Go(m1, Ok(rows)) => Progress::Go(m1, first_wired(rows)),
            Progress::Go(m1, Err(e)) => Progress::Fail(e),
            Progress::Need(a) => Progress::Need(a),
            Progress::Fail(e) => Progress::Fail(e),
        }
    }
}

/// Asks for the wired interface of an intent.
pub fn resolved_ethernet_ifname(run: &mut Run, cfg: &PluginConfig, eth: &EthernetIntent) -> (r: Result<
    Option<String>,
    Halt,
>)
    requires
        old(run).wf(),
    ensures
        final(run).follows(old(run)),
        match r {
            Ok(v) => wired_ifname(old(run).replies@, old(run)@, cfg@, eth@) == Progress::Go(final(run)@, opt_text(v)),
            Err(h) => wired_ifname(old(run).replies@, old(run)@, cfg@, eth@) == h.stop::<Option<Seq<char>>>(),
        },
{
    if !eth.enabled {
        return Ok(None);
    }
    let d = trim(eth.device.as_str());
    if !d.is_empty() {
        return Ok(Some(d.to_owned()));
    }
    match nm_device_table(run, cfg) {
        Ok(Ok(rows)) => Ok(first_ethernet_device(&rows)),
        Ok(Err(e)) => Err(Halt::Fail(e)),
        Err(h) => Err(h),
    }
}

/// Whether the kernel reports no carrier on an interface, or nothing at all.
pub open spec fn no_carrier_on(h: Seq<Reply>, m: Mark, ifname: Seq<char>) -> Progress<bool> {
    match read_text(h, m, Ask::ReadText { path: "/sys/class/net/"@ + trimmed(ifname) + "/carrier"@ }) {
        Progress::Go(m1, Some(s)) => Progress::Go(m1, trimmed(s) == "0"@),
        Progress::Go(m1, None) => Progress::Go(m1, true),
        Progress::Need(a) => Progress::Need(a),
        Progress::Fail(e) => Progress::Fail(e),
    }
}

/// Asks the kernel for the carrier of an interface.
pub fn sysfs_ethernet_no_carrier(run: &mut Run, ifname: &str) -> (r: Result<bool, Halt>)
    requires
        old(run).wf(),
    ensures
        final(run).follows(old(run)),
        match r {
            Ok(v) => no_carrier_on(old(run).replies@, old(run)@, ifname@) == Progress::Go(final(run)@, v),
            Err(h) => no_carrier_on(old(run).replies@, old(run)@, ifname@) == h.stop::<bool>(),
        },
{
    let path = cat3("/sys/class/net/", trim(ifname), "/carrier");
    match run.read_file(path.as_str()) {
        Ok(v) => match v {
            Some(s) => Ok(text_eq(trim(s.as_str()), "0")),
            None => Ok(true),
        },
        Err(h) => Err(h),
    }
}

/// Whether an intent wants a wired interface and there is one without carrier.
pub open spec fn wire_is_dead(h: Seq<Reply>, m: Mark, cfg: ConfigView, eth: EthernetView) -> Progress<bool> {
    match wired_ifname(h, m, cfg, eth) {
        Progress::Go(m1, Some(ifname)) => no_carrier_on(h, m1, ifname),
        Progress::Go(m1, None) => Progress::Go(m1, false),
        Progress::Need(a) => Progress::Need(a),
        Progress::Fail(e) => Progress::Fail(e),
    }
}

/// Asks whether the wired interface of an intent has no carrier.
pub fn ethernet_intent_has_no_carrier(run: &mut Run, cfg: &PluginConfig, eth: &EthernetIntent) -> (r: Result<bool, Halt>)
    requires
        old(run).wf(),
    ensures
        final(run).follows(old(run)),
        match r {
            Ok(v) => wire_is_dead(old(run).replies@, old(run)@, cfg@, eth@) == Progress::Go(final(run)@, v),
            Err(h) => wire_is_dead(old(run).replies@, old(run)@, cfg@, eth@) == h.stop::<bool>(),
        },
{
    match resolved_ethernet_ifname(run, cfg, eth) {
        Ok(Some(ifname)) => sysfs_ethernet_no_carrier(run, ifname.as_str()),
        Ok(None) => Ok(false),
        Err(h) => Err(h),
    }
}

/// The last resort when the hotspot does not come up and there is no wire: the hotspot
/// without a passphrase.
pub open spec fn open_recovery(h: Seq<Reply>, m: Mark, cfg: ConfigView, intent: IntentView, name: Seq<char>) -> Progress<bool> {
    if !intent.fallback.hotspot_enabled || is_blank(name) {
        Progress::Go(m, false)
    } else {
        match wire_is_dead(h, m, cfg, intent.ethernet) {
            Progress::Go(m1, true) => match profile_opened(h, m1, cfg, name) {
                Progress::Go(m2, _) => hotspot_up(
                    h,
                    m2.said("critical: Ethernet no carrier + hotspot failed; forced open AP on "@ + name),
                    cfg,
                    name,
                ),
                Progress::Need(a) => Progress::Need(a),
                Progress::Fail(e) => Progress::Fail(e),
            },
            Progress::Go(m1, false) => Progress::Go(m1, false),
            Progress::Need(a) => Progress::Need(a),
            Progress::Fail(e) => Progress::Fail(e),
        }
    }
}

/// Tries the hotspot without a passphrase, as [`open_recovery`] says.
pub fn try_critical_open_hotspot_recovery(run: &mut Run, cfg: &PluginConfig, intent: &NetworkIntent, hs_name: &str) -> (r:
    Result<bool, Halt>)
    requires
        old(run).wf(),
    ensures
        final(run).follows(old(run)),
        match r {
            Ok(v) => open_recovery(old(run).replies@, old(run)@, cfg@, intent@, hs_name@) == Progress::Go(final(run)@, v),
            Err(h) => open_recovery(old(run).replies@, old(run)@, cfg@, intent@, hs_name@) == h.stop::<bool>(),
        },
{
    if !intent.fallback.hotspot_enabled || blank(hs_name) {
        return Ok(false);
    }
    match ethernet_intent_has_no_carrier(run, cfg, &intent.ethernet) {
        Ok(true) => {},
        Ok(false) => return Ok(false),
        Err(h) => return Err(h),
    }
    match open_profile(run, cfg, hs_name) {
        Ok(_) => {},
        Err(h) => return Err(h),
    }
    run.say(cat("critical: Ethernet no carrier + hotspot failed; forced open AP on ", hs_name).as_str());
    connection_up_hotspot_with_retries(run, cfg, hs_name)
}

/// How often it is looked whether client and hotspot are both active.
pub const SETTLE_ATTEMPTS: u32 = 15;

/// The pause between two looks, in milliseconds.
pub const SETTLE_DELAY_MS: u64 = 200;

/// How often bringing the client back is tried.
pub const RESTORE_ATTEMPTS: u32 = 4;

/// The pause between two tries, in milliseconds.
pub const RESTORE_DELAY_MS: u64 = 400;

/// Whether one of the names is `want`, white space at its ends aside.
pub open spec fn lists(names: Seq<Seq<char>>, want: Seq<char>) -> bool {
    exists|i: int| 0 <= i < names.len() && trimmed(#[trigger] names[i]) == want
}

fn lists_name(names: &Vec<String>, want: &str) -> (r: bool)
    ensures
        r == lists(texts(names@), want@),
{
    let mut i: usize = 0;
    while i < names.len()
        invariant
            i <= names.len(),
            forall|j: int| 0 <= j < i ==> trimmed(#[trigger] texts(names@)[j]) != want@,
        decreases names.len() - i,
    {
        proof {
            assert(texts(names@)[i as int] == names@[i as int]@);
        }
        if text_eq(trim(names[i].as_str()), want) {
            return true;
        }
        i += 1;
    }
    false
}

/// Looks from the `attempt`-th time on until client and hotspot are both active on the
/// interface, or fifteen looks are over: which of the two are.
pub open spec fn settle_from(h: Seq<Reply>, m: Mark, cfg: ConfigView, sta: Seq<char>, name: Seq<char>, attempt: nat) -> Progress<
    (bool, bool),
>
    decreases 16 - attempt,
{
    match active_on_device(h, m, cfg, sta) {
        Progress::Go(m1, names) => {
            let has_sta = lists(names, NM_CON_WIFI_STA@);
            let has_hs = lists(names, trimmed(name));
            if (has_sta && has_hs) || attempt >= 15 {
                Progress::Go(m1, (has_sta, has_hs))
            } else {
                match slept(h, m1, SETTLE_DELAY_MS) {
                    Progress::Go(m2, _) => settle_from(h, m2, cfg, sta, name, attempt + 1),
                    Progress::Need(a) => Progress::Need(a),
                    Progress::Fail(e) => Progress::Fail(e),
                }
            }
        },
        Progress::Need(a) => Progress::Need(a),
        Progress::Fail(e) => Progress::Fail(e),
    }
}

fn settle(run: &mut Run, cfg: &PluginConfig, sta: &str, name: &str, attempt: u32) -> (r: Result<(bool, bool), Halt>)
    requires
        old(run).wf(),
        1 <= attempt <= SETTLE_ATTEMPTS,
    ensures
        final(run).follows(old(run)),
        match r {
            Ok(v) => settle_from(old(run).replies@, old(run)@, cfg@, sta@, name@, attempt as nat) == Progress::Go(
                final(run)@,
                v,
            ),
            Err(h) => settle_from(old(run).replies@, old(run)@, cfg@, sta@, name@, attempt as nat) == h.stop::<
                (bool, bool),
            >(),
        },
    decreases 16 - attempt,
{
    let names = match nm_active_connection_names_on_device(run, cfg, sta) {
        Ok(v) => v,
        Err(h) => return Err(h),
    };
    let has_sta = lists_name(&names, NM_CON_WIFI_STA);
    let has_hs = lists_name(&names, trim(name));
    if (has_sta && has_hs) || attempt >= SETTLE_ATTEMPTS {
        return Ok((has_sta, has_hs));
    }
    match run.sleep(SETTLE_DELAY_MS) {
        Ok(_) => {},
        Err(h) => return Err(h),
    }
    settle(run, cfg, sta, name, attempt + 1)
}

/// Tries from the `attempt`-th time on to bring the client back, until it is up or four
/// tries are over.
pub open spec fn restore_from(h: Seq<Reply>, m: Mark, cfg: ConfigView, sta: Seq<char>, attempt: nat) -> Progress<()>
    decreases 5 - attempt,
{
    if attempt > 4 {
        Progress::Go(
            m.said("warning: could not restore "@ + NM_CON_WIFI_STA@ + " on "@ + sta + " after releasing hotspot"@),
            (),
        )
    } else {
        match connection_up(h, m, cfg, NM_CON_WIFI_STA@) {
            Progress::Go(m1, Ok(o)) => if o.success {
                Progress::Go(
                    m1.said(
                        "shared iface: restored "@ + NM_CON_WIFI_STA@ + " on "@ + sta + " after hotspot (attempt "@
                            + decimal(attempt) + ")"@,
                    ),
                    (),
                )
            } else if attempt < 4 {
                match slept(h, m1, RESTORE_DELAY_MS) {
                    Progress::Go(m2, _) => restore_from(h, m2, cfg, sta, attempt + 1),
                    Progress::Need(a) => Progress::Need(a),
                    Progress::Fail(e) => Progress::Fail(e),
                }
            } else {
                restore_from(h, m1, cfg, sta, attempt + 1)
            },
            Progress::Go(m1, Err(e)) => Progress::Fail(e),
            Progress::Need(a) => Progress::Need(a),
            Progress::Fail(e) => Progress::Fail(e),
        }
    }
}

fn restore(run: &mut Run, cfg: &PluginConfig, sta: &str, attempt: u32) -> (r: Result<(), Halt>)
    requires
        old(run).wf(),
        1 <= attempt <= RESTORE_ATTEMPTS + 1,
    ensures
        final(run).follows(old(run)),
        match r {
            Ok(v) => restore_from(old(run).replies@, old(run)@, cfg@, sta@, attempt as nat) == Progress::Go(
                final(run)@,
                v,
            ),
            Err(h) => restore_from(old(run).replies@, old(run)@, cfg@, sta@, attempt as nat) == h.stop::<()>(),
        },
    decreases 5 - attempt,
{
    if attempt > RESTORE_ATTEMPTS {
        run.say(
            cat5("warning: could not restore ", NM_CON_WIFI_STA, " on ", sta, " after releasing hotspot").as_str(),
        );
        return Ok(());
    }
    let up = match nmcli_connection_up(run, cfg, NM_CON_WIFI_STA) {
        Ok(Ok(o)) => o.success,
        Ok(Err(e)) => return Err(Halt::Fail(e)),
        Err(h) => return Err(h),
    };
    if up {
        let head = cat5("shared iface: restored ", NM_CON_WIFI_STA, " on ", sta, " after hotspot (attempt ");
        run.say(cat3(head.as_str(), to_decimal(attempt as u64).as_str(), ")").as_str());
        return Ok(());
    }
    if attempt < RESTORE_ATTEMPTS {
        match run.sleep(RESTORE_DELAY_MS) {
            Ok(_) => {},
            Err(h) => return Err(h),
        }
    }
    restore(run, cfg, sta, attempt + 1)
}

/// What becomes of client and hotspot that share one interface: both may stay; where
/// only the hotspot is up it stays as long as there is no wire, and else gives the
/// radio back to the client.
pub open spec fn shared_radio(h: Seq<Reply>, m: Mark, cfg: ConfigView, intent: IntentView, sta: Seq<char>, name: Seq<char>) -> Progress<
    (),
> {
    if is_blank(sta) || is_blank(name) {
        Progress::Go(m, ())
    } else {
        match settle_from(h, m, cfg, sta, name, 1) {
            Progress::Go(m1, (has_sta, has_hs)) => if has_sta && has_hs {
                Progress::Go(
                    m1.said(
                        "shared iface: "@ + NM_CON_WIFI_STA@ + " + "@ + trimmed(name)
                            + " both active (concurrent STA+AP)"@,
                    ),
                    (),
                )
            } else if !has_hs {
                Progress::Go(m1, ())
            } else {
                match wire_is_dead(h, m1, cfg, intent.ethernet) {
                    Progress::Go(m2, true) => Progress::Go(
                        m2.said(
                            "shared iface: hotspot left up (no LAN carrier); STA cannot share the radio with AP here"@,
                        ),
                        (),
                    ),
                    Progress::Go(m2, false) => match connection_down(h, m2, cfg, name) {
                        Progress::Go(m3, _) => restore_from(h, m3, cfg, sta, 1),
                        Progress::Need(a) => Progress::Need(a),
                        Progress::Fail(e) => Progress::Fail(e),
                    },
                    Progress::Need(a) => Progress::Need(a),
                    Progress::Fail(e) => Progress::Fail(e),
                }
            },
            Progress::Need(a) => Progress::Need(a),
            Progress::Fail(e) => Progress::Fail(e),
        }
    }
}

/// Settles client and hotspot on one interface, as [`shared_radio`] says.
pub fn restore_sta_after_hotspot_on_shared_radio(
    run: &mut Run,
    cfg: &PluginConfig,
    intent: &NetworkIntent,
    sta_ifname: &str,
    hotspot_con: &str,
) -> (r: Result<(), Halt>)
    requires
        old(run).wf(),
    ensures
        final(run).follows(old(run)),
        match r {
            Ok(v) => shared_radio(old(run).replies@, old(run)@, cfg@, intent@, sta_ifname@, hotspot_con@)
                == Progress::Go(final(run)@, v),
            Err(h) => shared_radio(old(run).replies@, old(run)@, cfg@, intent@, sta_ifname@, hotspot_con@)
                == h.stop::<()>(),
        },
{
    if blank(sta_ifname) || blank(hotspot_con) {
        return Ok(());
    }
    let (has_sta, has_hs) = match settle(run, cfg, sta_ifname, hotspot_con, 1) {
        Ok(v) => v,
        Err(h) => return Err(h),
    };
    if has_sta && has_hs {
        run.say(
            cat5(
                "shared iface: ",
                NM_CON_WIFI_STA,
                " + ",
                trim(hotspot_con),
                " both active (concurrent STA+AP)",
            ).as_str(),
        );
        return Ok(());
    }
    if !has_hs {
        return Ok(());
    }
    match ethernet_intent_has_no_carrier(run, cfg, &intent.ethernet) {
        Ok(true) => {
            run.say("shared iface: hotspot left up (no LAN carrier); STA cannot share the radio with AP here");
            return Ok(());
        },
        Ok(false) => {},
        Err(h) => return Err(h),
    }
    match connection_down_lossy(run, cfg, hotspot_con) {
        Ok(_) => {},
        Err(h) => return Err(h),
    }
    restore(run, cfg, sta_ifname, 1)
}

/// A hotspot without a passphrase is open: where its profile is there already, whatever
/// security it had is taken out once the profile is changed.
pub proof fn open_hotspots_lose_their_security(
    h: Seq<Reply>,
    m: Mark,
    cfg: ConfigView,
    ifname: Seq<char>,
    wifi: WifiView,
    psk: Option<Seq<char>>,
    name: Seq<char>,
    m1: Mark,
    m2: Mark,
    said: Seq<char>,
    m3: Mark,
    r: Result<Seq<char>, ErrorView>,
)
    requires
        connection_exists(h, m, cfg, name) == Progress::Go(m1, true),
        nmcli(h, m1, cfg, ap_modify_args(ifname, wifi, psk, name)) == Progress::Go(m2, Ok::<Seq<char>, ErrorView>(said)),
    ensures
        psk is None || is_blank(psk->0) ==> {
            &&& nmcli(h, m2, cfg, seq!["connection"@, "modify"@, name, "remove"@, "802-11-wireless-security"@])
                == Progress::Go(m3, r) ==> ap_profile(h, m, cfg, ifname, wifi, psk, name) == Progress::Go(
                m3.said("modified hotspot profile "@ + name),
                (),
            )
            &&& ap_profile(h, m, cfg, ifname, wifi, psk, name) is Go ==> nmcli(
                h,
                m2,
                cfg,
                seq!["connection"@, "modify"@, name, "remove"@, "802-11-wireless-security"@],
            ) is Go
        },
        psk is Some && !is_blank(psk->0) ==> ap_profile(h, m, cfg, ifname, wifi, psk, name) == Progress::Go(
            m2.said("modified hotspot profile "@ + name),
            (),
        ),
{
}

/// A hotspot that was never set up is added, and told as added.
pub proof fn new_hotspots_are_added(
    h: Seq<Reply>,
    m: Mark,
    cfg: ConfigView,
    ifname: Seq<char>,
    wifi: WifiView,
    psk: Option<Seq<char>>,
    name: Seq<char>,
    m1: Mark,
    m2: Mark,
    said: Seq<char>,
)
    requires
        connection_exists(h, m, cfg, name) == Progress::Go(m1, false),
        nmcli(h, m1, cfg, ap_add_args(ifname, wifi, psk, name)) == Progress::Go(m2, Ok::<Seq<char>, ErrorView>(said)),
    ensures
        ap_profile(h, m, cfg, ifname, wifi, psk, name) == Progress::Go(m2.said("added hotspot profile "@ + name), ()),
{
}

/// A hotspot that does not come up is an error of its own kind, and one that the intent
/// switches off is left alone.
pub proof fn failed_hotspots_are_errors(
    h: Seq<Reply>,
    m: Mark,
    cfg: ConfigView,
    ifname: Seq<char>,
    wifi: WifiView,
    psk: Option<Seq<char>>,
    fallback: FallbackView,
    m1: Mark,
    m2: Mark,
    up: bool,
)
    requires
        !is_blank(wifi.ap_ssid),
        ap_profile(h, m, cfg, ifname, wifi, psk, hotspot_name(fallback)) == Progress::Go(m1, ()),
        hotspot_up(h, m1, cfg, hotspot_name(fallback)) == Progress::Go(m2, up),
    ensures
        up ==> ap_done(h, m, cfg, ifname, wifi, psk, hotspot_name(fallback)) == Progress::Go(m2, ()),
        !up ==> ap_done(h, m, cfg, ifname, wifi, psk, hotspot_name(fallback)) == Progress::<()>::Fail(
            ErrorView::Transient("nmcli connection up wifi AP failed after retries"@),
        ),
        fallback.hotspot_enabled ==> hotspot_profile(h, m, cfg, ifname, wifi, psk, fallback) == ap_done(
            h,
            m,
            cfg,
            ifname,
            wifi,
            psk,
            hotspot_name(fallback),
        ),
        !fallback.hotspot_enabled ==> hotspot_profile(h, m, cfg, ifname, wifi, psk, fallback) == Progress::Go(m, ()),
{
}

/// A client is brought back in four tries at most, with a pause of four tenths of a second
/// after each that failed but the last; the try that succeeds is told, and so is that
/// none did.
pub proof fn clients_are_brought_back_in_four_tries(h: Seq<Reply>, m: Mark, cfg: ConfigView, sta: Seq<char>, attempt: nat)
    requires
        1 <= attempt <= 4,
    ensures
        reply_at(h, m.pos) is None ==> restore_from(h, m, cfg, sta, attempt) == Progress::<()>::Need(
            Ask::Run {
                program: cfg.nmcli_path,
                args: seq!["connection"@, "up"@, "evo-network-wifi-sta"@],
                timeout_ms: Some(cfg.nmcli_timeout_ms),
            },
        ),
        reply_at(h, m.pos) matches Some(Reply::Ran(o)) ==> {
            &&& o@.success ==> restore_from(h, m, cfg, sta, attempt) == Progress::Go(
                m.read().said(
                    "shared iface: restored "@ + "evo-network-wifi-sta"@ + " on "@ + sta + " after hotspot (attempt "@
                        + decimal(attempt) + ")"@,
                ),
                (),
            )
            &&& !o@.success && attempt < 4 ==> {
                &&& reply_at(h, m.pos + 1) is None ==> restore_from(h, m, cfg, sta, attempt) == Progress::<()>::Need(
                    Ask::Sleep { ms: 400 },
                )
                &&& reply_at(h, m.pos + 1) == Some(Reply::Slept) ==> restore_from(h, m, cfg, sta, attempt) == restore_from(
                    h,
                    m.read().read(),
                    cfg,
                    sta,
                    attempt + 1,
                )
            }
            &&& !o@.success && attempt == 4 ==> restore_from(h, m, cfg, sta, attempt) == Progress::Go(
                m.read().said(
                    "warning: could not restore "@ + "evo-network-wifi-sta"@ + " on "@ + sta + " after releasing hotspot"@,
                ),
                (),
            )
        },
{
    reveal_with_fuel(restore_from, 2);
}

/// A profile is active where one of the names that are listed is its own, whatever white
/// space stands around it there.
pub proof fn listed_profiles_are_active(names: Seq<Seq<char>>, name: Seq<char>, want: Seq<char>)
    ensures
        lists(names.push(name), want) <==> lists(names, want) || trimmed(name) == want,
        !lists(Seq::<Seq<char>>::empty(), want),
{
    let more = names.push(name);
    assert(more[names.len() as int] == name);
    if lists(names, want) {
        let i = choose|i: int| 0 <= i < names.len() && trimmed(#[trigger] names[i]) == want;
        assert(more[i] == names[i]);
    }
    if lists(more, want) {
        let i = choose|i: int| 0 <= i < more.len() && trimmed(#[trigger] more[i]) == want;
        if i < names.len() {
            assert(names[i] == more[i]);
        }
    }
}

} // verus!
