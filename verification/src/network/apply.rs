//! Bringing the network into the state that an intent describes.

use crate::network::config::{ConfigView, PluginConfig};
use crate::network::hotspot::{
    ap_done, ensure_hotspot_profile, ensure_wifi_ap, hotspot_profile, open_recovery,
    restore_sta_after_hotspot_on_shared_radio, shared_radio, try_critical_open_hotspot_recovery,
};
use crate::network::intent::{IntentView, NetworkIntent, WifiIntent, WifiRole, WifiView};
use crate::network::nmcli::{
    connection_down, connection_down_lossy, connection_up_hotspot_with_retries, hotspot_up, NM_CON_WIFI_STA,
};
use crate::network::profiles::{
    ap_ifname, effective_hotspot_ifname, effective_wifi_ifname, ensure_ethernet, ensure_wifi_sta, ethernet_done,
    hotspot_connection_name, hotspot_ifname, hotspot_name, resolve_ap_ifname, sta_done, wifi_ifname,
};
use crate::network::readings::LinkView;
use crate::network::transcript::{read_text, Ask, Halt, Mark, Progress, Reply, Run};
use crate::network::vif::{
    concurrent, ensure_ap_vif_absent, ensure_ap_vif_present, links_numbered, sta_link, sta_link_info,
    sta_phy_supports_concurrent_sta_ap, vif_absent, vif_present,
};
use crate::number::{decimal, to_decimal};
use crate::text::{blank, cat4, cat5, copy_texts, is_blank, opt_slice, text_eq, texts};
use vstd::prelude::*;

verus! {

/// The environment variable that names the hotspot's second interface.
pub const ENV_AP_IFNAME: &'static str = "VOLUMIO_EVO_AP_IFNAME";

/// What applying an intent did.
#[derive(Debug, Clone)]
pub struct ApplyReport {
    pub ok: bool,
    pub steps: Vec<String>,
}

/// [`ApplyReport`] over character sequences.
#[verifier::ext_equal]
pub struct ReportView {
    pub ok: bool,
    pub steps: Seq<Seq<char>>,
}

impl View for ApplyReport {
    type V = ReportView;

    open spec fn view(&self) -> ReportView {
        ReportView { ok: self.ok, steps: texts(self.steps@) }
    }
}

/// The interfaces of an intent on this device.
#[verifier::ext_equal]
pub struct RadioView {
    /// The client's interface.
    pub sta: Seq<char>,
    /// The hotspot's interface.
    pub ap: Seq<char>,
    /// Whether the intent chose the hotspot's interface.
    pub explicit: bool,
    /// Whether the radio can be client and access point at once.
    pub concurrent: bool,
}

/// The interfaces of an intent on this device.
pub struct Radio {
    pub sta: String,
    pub ap: String,
    pub explicit: bool,
    pub concurrent: bool,
}

impl View for Radio {
    type V = RadioView;

    open spec fn view(&self) -> RadioView {
        RadioView { sta: self.sta@, ap: self.ap@, explicit: self.explicit, concurrent: self.concurrent }
    }
}

/// Whether an intent chooses the hotspot's interface.
pub open spec fn chooses_ap(cfg: ConfigView, intent: IntentView) -> bool {
    !is_blank(intent.fallback.hotspot_ifname) && hotspot_ifname(cfg, intent) != wifi_ifname(cfg, intent.wifi)
}

/// The interfaces with the hotspot's as `env` has it.
pub open spec fn radio_with(cfg: ConfigView, intent: IntentView, conc: bool, env: Option<Seq<char>>) -> RadioView {
    let sta = wifi_ifname(cfg, intent.wifi);
    let chosen = ap_ifname(intent.fallback, sta, hotspot_ifname(cfg, intent), conc, env);
    RadioView { sta, ap: chosen.0, explicit: chosen.1, concurrent: conc }
}

/// The interfaces of an intent, at this point.
pub open spec fn radio(h: Seq<Reply>, m: Mark, cfg: ConfigView, intent: IntentView) -> Progress<RadioView> {
    match concurrent(h, m, wifi_ifname(cfg, intent.wifi)) {
        Progress::Go(m1, conc) => if conc && !chooses_ap(cfg, intent) {
            match read_text(h, m1, Ask::ReadVar { name: ENV_AP_IFNAME@ }) {
                Progress::Go(m2, env) => Progress::Go(m2, radio_with(cfg, intent, conc, env)),
                Progress::Need(a) => Progress::Need(a),
                Progress::Fail(e) => Progress::Fail(e),
            }
        } else {
            Progress::Go(m1, radio_with(cfg, intent, conc, None))
        },
        Progress::Need(a) => Progress::Need(a),
        Progress::Fail(e) => Progress::Fail(e),
    }
}

fn radio_of(run: &mut Run, cfg: &PluginConfig, intent: &NetworkIntent) -> (r: Result<Radio, Halt>)
    requires
        old(run).wf(),
    ensures
        final(run).follows(old(run)),
        match r {
            Ok(v) => radio(old(run).replies@, old(run)@, cfg@, intent@) == Progress::Go(final(run)@, v@),
            Err(h) => radio(old(run).replies@, old(run)@, cfg@, intent@) == h.stop::<RadioView>(),
        },
{
    let sta = effective_wifi_ifname(cfg, intent);
    let wanted = effective_hotspot_ifname(cfg, intent);
    let conc = match sta_phy_supports_concurrent_sta_ap(run, sta.as_str()) {
        Ok(b) => b,
        Err(h) => return Err(h),
    };
    let chooses = !blank(intent.fallback.hotspot_ifname.as_str()) && !text_eq(wanted.as_str(), sta.as_str());
    let mut env: Option<&str> = None;
    if conc && !chooses {
        match run.read_var(ENV_AP_IFNAME) {
            Ok(v) => match v {
                Some(s) => {
                    env = Some(s.as_str());
                },
                None => {},
            },
            Err(h) => return Err(h),
        }
    }
    let (ap, explicit) = resolve_ap_ifname(intent, sta.as_str(), wanted.as_str(), conc, env);
    Ok(Radio { sta, ap, explicit, concurrent: conc })
}

/// Wi-Fi switched off: client and hotspot down, the hotspot's own interface gone.
pub open spec fn disabled_role(h: Seq<Reply>, m: Mark, cfg: ConfigView, radio: RadioView, name: Seq<char>) -> Progress<()> {
    match connection_down(h, m, cfg, NM_CON_WIFI_STA@) {
        Progress::Go(m1, _) => match connection_down(h, m1, cfg, name) {
            Progress::Go(m2, _) => {
                let line = "wifi role disabled; brought down STA and hotspot (best effort)"@;
                if radio.sta != radio.ap {
                    match vif_absent(h, m2, radio.ap) {
                        Progress::Go(m3, _) => Progress::Go(m3.said(line), ()),
                        Progress::Need(a) => Progress::Need(a),
                        Progress::Fail(e) => Progress::Fail(e),
                    }
                } else {
                    Progress::Go(m2.said(line), ())
                }
            },
            Progress::Need(a) => Progress::Need(a),
            Progress::Fail(e) => Progress::Fail(e),
        },
        Progress::Need(a) => Progress::Need(a),
        Progress::Fail(e) => Progress::Fail(e),
    }
}

fn apply_disabled(run: &mut Run, cfg: &PluginConfig, radio: &Radio, name: &str) -> (r: Result<(), Halt>)
    requires
        old(run).wf(),
    ensures
        final(run).follows(old(run)),
        match r {
            Ok(v) => disabled_role(old(run).replies@, old(run)@, cfg@, radio@, name@) == Progress::Go(final(run)@, v),
            Err(h) => disabled_role(old(run).replies@, old(run)@, cfg@, radio@, name@) == h.stop::<()>(),
        },
{
    match connection_down_lossy(run, cfg, NM_CON_WIFI_STA) {
        Ok(_) => {},
        Err(h) => return Err(h),
    }
    match connection_down_lossy(run, cfg, name) {
        Ok(_) => {},
        Err(h) => return Err(h),
    }
    if !text_eq(radio.sta.as_str(), radio.ap.as_str()) {
        match ensure_ap_vif_absent(run, radio.ap.as_str()) {
            Ok(_) => {},
            Err(h) => return Err(h),
        }
    }
    run.say("wifi role disabled; brought down STA and hotspot (best effort)");
    Ok(())
}

/// Clearing the radio before the client is set up.
pub open spec fn radio_cleared(h: Seq<Reply>, m: Mark, cfg: ConfigView, radio: RadioView, name: Seq<char>) -> Progress<()> {
    match connection_down(h, m, cfg, name) {
        Progress::Go(m1, _) => {
            let cleared = if radio.sta != radio.ap && !radio.explicit && radio.concurrent {
                vif_absent(h, m1, radio.ap)
            } else {
                Progress::Go(m1, true)
            };
            match cleared {
                Progress::Go(m2, _) => match connection_down(h, m2, cfg, NM_CON_WIFI_STA@) {
                    Progress::Go(m3, _) => Progress::Go(
                        m3.said("pre-STA: nmcli connection down STA profile (best effort before modify/up)"@),
                        (),
                    ),
                    Progress::Need(a) => Progress::Need(a),
                    Progress::Fail(e) => Progress::Fail(e),
                },
                Progress::Need(a) => Progress::Need(a),
                Progress::Fail(e) => Progress::Fail(e),
            }
        },
        Progress::Need(a) => Progress::Need(a),
        Progress::Fail(e) => Progress::Fail(e),
    }
}

fn clear_radio(run: &mut Run, cfg: &PluginConfig, radio: &Radio, name: &str) -> (r: Result<(), Halt>)
    requires
        old(run).wf(),
    ensures
        final(run).follows(old(run)),
        match r {
            Ok(v) => radio_cleared(old(run).replies@, old(run)@, cfg@, radio@, name@) == Progress::Go(final(run)@, v),
            Err(h) => radio_cleared(old(run).replies@, old(run)@, cfg@, radio@, name@) == h.stop::<()>(),
        },
{
    match connection_down_lossy(run, cfg, name) {
        Ok(_) => {},
        Err(h) => return Err(h),
    }
    if !text_eq(radio.sta.as_str(), radio.ap.as_str()) && !radio.explicit && radio.concurrent {
        match ensure_ap_vif_absent(run, radio.ap.as_str()) {
            Ok(_) => {},
            Err(h) => return Err(h),
        }
    }
    match connection_down_lossy(run, cfg, NM_CON_WIFI_STA) {
        Ok(_) => {},
        Err(h) => return Err(h),
    }
    run.say("pre-STA: nmcli connection down STA profile (best effort before modify/up)");
    Ok(())
}

/// Creating the hotspot's second interface, where it gets one of its own.
pub open spec fn vif_created(h: Seq<Reply>, m: Mark, radio: RadioView, hotspot_enabled: bool) -> Progress<()> {
    if hotspot_enabled && radio.sta != radio.ap && !radio.explicit {
        match vif_present(h, m, radio.sta, radio.ap) {
            Progress::Go(m1, true) => Progress::Go(
                m1.said("created AP vif "@ + radio.ap + " on phy of "@ + radio.sta + " (type __ap)"@),
                (),
            ),
            Progress::Go(m1, false) => Progress::Go(m1, ()),
            Progress::Need(a) => Progress::Need(a),
            Progress::Fail(e) => Progress::Fail(e),
        }
    } else {
        Progress::Go(m, ())
    }
}

fn create_vif(run: &mut Run, radio: &Radio, hotspot_enabled: bool) -> (r: Result<(), Halt>)
    requires
        old(run).wf(),
    ensures
        final(run).follows(old(run)),
        match r {
            Ok(v) => vif_created(old(run).replies@, old(run)@, radio@, hotspot_enabled) == Progress::Go(final(run)@, v),
            Err(h) => vif_created(old(run).replies@, old(run)@, radio@, hotspot_enabled) == h.stop::<()>(),
        },
{
    if hotspot_enabled && !text_eq(radio.sta.as_str(), radio.ap.as_str()) && !radio.explicit {
        match ensure_ap_vif_present(run, radio.sta.as_str(), radio.ap.as_str()) {
            Ok(true) => {
                run.say(
                    cat5("created AP vif ", radio.ap.as_str(), " on phy of ", radio.sta.as_str(), " (type __ap)").as_str(),
                );
            },
            Ok(false) => {},
            Err(h) => return Err(h),
        }
    }
    Ok(())
}

/// The Wi-Fi settings of a hotspot on the client's radio: it follows the client's
/// channel where the client is connected.
pub open spec fn following(h: Seq<Reply>, m: Mark, radio: RadioView, wifi: WifiView) -> Progress<WifiView> {
    if radio.sta != radio.ap && !radio.explicit {
        match sta_link(h, m, radio.sta) {
            Progress::Go(m1, Some(link)) => match link.channel {
                Some((ch, band)) => if link.connected {
                    Progress::Go(
                        m1.said("AP follows STA: band="@ + band + " channel="@ + decimal(ch as nat)),
                        WifiView { ap_channel: ch as u32, ap_band: band, ..wifi },
                    )
                } else {
                    Progress::Go(m1, wifi)
                },
                None => Progress::Go(m1, wifi),
            },
            Progress::Go(m1, None) => Progress::Go(m1, wifi),
            Progress::Need(a) => Progress::Need(a),
            Progress::Fail(e) => Progress::Fail(e),
        }
    } else {
        Progress::Go(m, wifi)
    }
}

fn follow_sta(run: &mut Run, radio: &Radio, wifi: &WifiIntent) -> (r: Result<WifiIntent, Halt>)
    requires
        old(run).wf(),
        links_numbered(old(run).replies@),
    ensures
        final(run).follows(old(run)),
        match r {
            Ok(v) => following(old(run).replies@, old(run)@, radio@, wifi@) == Progress::Go(final(run)@, v@),
            Err(h) => following(old(run).replies@, old(run)@, radio@, wifi@) == h.stop::<WifiView>(),
        },
{
    let mut out = wifi.duplicate();
    if !text_eq(radio.sta.as_str(), radio.ap.as_str()) && !radio.explicit {
        match sta_link_info(run, radio.sta.as_str()) {
            Ok(Some(link)) => {
                if link.connected {
                    if let (Some(ch), Some(band)) = (link.channel, link.band) {
                        run.say(
                            cat4(
                                "AP follows STA: band=",
                                band.as_str(),
                                " channel=",
                                to_decimal(ch as u64).as_str(),
                            ).as_str(),
                        );
                        out.ap_channel = ch;
                        out.ap_band = band;
                    }
                }
            },
            Ok(None) => {},
            Err(h) => return Err(h),
        }
    }
    Ok(out)
}

/// Bringing the hotspot up beside the client, with its recovery.
pub open spec fn hotspot_beside(h: Seq<Reply>, m: Mark, cfg: ConfigView, intent: IntentView, radio: RadioView, name: Seq<char>) -> Progress<
    (),
> {
    if !intent.fallback.hotspot_enabled || is_blank(name) {
        Progress::Go(m, ())
    } else {
        match hotspot_up(h, m, cfg, name) {
            Progress::Go(m1, ok) => {
                let recovery = if ok {
                    Progress::Go(m1, false)
                } else {
                    open_recovery(h, m1, cfg, intent, name)
                };
                match recovery {
                    Progress::Go(m2, recovered) => {
                        let shared = if radio.sta == radio.ap {
                            shared_radio(h, m2, cfg, intent, radio.sta, name)
                        } else {
                            Progress::Go(m2.said("intent: hotspot on "@ + radio.ap + ", STA on "@ + radio.sta), ())
                        };
                        match shared {
                            Progress::Go(m3, _) => Progress::Go(
                                if !ok && !recovered {
                                    m3.said(
                                        "warning: hotspot did not activate after retries (and critical open recovery if applicable)"@,
                                    )
                                } else {
                                    m3
                                },
                                (),
                            ),
                            Progress::Need(a) => Progress::Need(a),
                            Progress::Fail(e) => Progress::Fail(e),
                        }
                    },
                    Progress::Need(a) => Progress::Need(a),
                    Progress::Fail(e) => Progress::Fail(e),
                }
            },
            Progress::Need(a) => Progress::Need(a),
            Progress::Fail(e) => Progress::Fail(e),
        }
    }
}

fn hotspot_beside_sta(run: &mut Run, cfg: &PluginConfig, intent: &NetworkIntent, radio: &Radio, name: &str) -> (r: Result<
    (),
    Halt,
>)
    requires
        old(run).wf(),
    ensures
        final(run).follows(old(run)),
        match r {
            Ok(v) => hotspot_beside(old(run).replies@, old(run)@, cfg@, intent@, radio@, name@) == Progress::Go(
                final(run)@,
                v,
            ),
            Err(h) => hotspot_beside(old(run).replies@, old(run)@, cfg@, intent@, radio@, name@) == h.stop::<()>(),
        },
{
    if !intent.fallback.hotspot_enabled || blank(name) {
        return Ok(());
    }
    let ok = match connection_up_hotspot_with_retries(run, cfg, name) {
        Ok(b) => b,
        Err(h) => return Err(h),
    };
    let mut recovered = false;
    if !ok {
        match try_critical_open_hotspot_recovery(run, cfg, intent, name) {
            Ok(b) => {
                recovered = b;
            },
            Err(h) => return Err(h),
        }
    }
    if text_eq(radio.sta.as_str(), radio.ap.as_str()) {
        match restore_sta_after_hotspot_on_shared_radio(run, cfg, intent, radio.sta.as_str(), name) {
            Ok(_) => {},
            Err(h) => return Err(h),
        }
    } else {
        run.say(cat4("intent: hotspot on ", radio.ap.as_str(), ", STA on ", radio.sta.as_str()).as_str());
    }
    if !ok && !recovered {
        run.say(
            "warning: hotspot did not activate after retries (and critical open recovery if applicable)",
        );
    }
    Ok(())
}

/// Wi-Fi as client, with the hotspot as fallback.
pub open spec fn sta_role(
    h: Seq<Reply>,
    m: Mark,
    cfg: ConfigView,
    intent: IntentView,
    sta_psk: Option<Seq<char>>,
    ap_psk: Option<Seq<char>>,
    radio: RadioView,
    name: Seq<char>,
) -> Progress<()> {
    match radio_cleared(h, m, cfg, radio, name) {
        Progress::Go(m1, _) => match sta_done(
            h,
            m1,
            cfg,
            radio.sta,
            intent.wifi,
            sta_psk,
            intent.fallback.hotspot_enabled,
        ) {
            Progress::Go(m2, _) => match vif_created(h, m2, radio, intent.fallback.hotspot_enabled) {
                Progress::Go(m3, _) => match following(h, m3, radio, intent.wifi) {
                    Progress::Go(m4, wifi) => match hotspot_profile(h, m4, cfg, radio.ap, wifi, ap_psk, intent.fallback) {
                        Progress::Go(m5, _) => hotspot_beside(h, m5, cfg, intent, radio, name),
                        Progress::Need(a) => Progress::Need(a),
                        Progress::Fail(e) => Progress::Fail(e),
                    },
                    Progress::Need(a) => Progress::Need(a),
                    Progress::Fail(e) => Progress::Fail(e),
                },
                Progress::Need(a) => Progress::Need(a),
                Progress::Fail(e) => Progress::Fail(e),
            },
            Progress::Need(a) => Progress::Need(a),
            Progress::Fail(e) => Progress::Fail(e),
        },
        Progress::Need(a) => Progress::Need(a),
        Progress::Fail(e) => Progress::Fail(e),
    }
}

fn apply_sta(
    run: &mut Run,
    cfg: &PluginConfig,
    intent: &NetworkIntent,
    sta_psk: Option<&str>,
    ap_psk: Option<&str>,
    radio: &Radio,
    name: &str,
) -> (r: Result<(), Halt>)
    requires
        old(run).wf(),
        links_numbered(old(run).replies@),
    ensures
        final(run).follows(old(run)),
        match r {
            Ok(v) => sta_role(
                old(run).replies@,
                old(run)@,
                cfg@,
                intent@,
                opt_slice(sta_psk),
                opt_slice(ap_psk),
                radio@,
                name@,
            ) == Progress::Go(final(run)@, v),
            Err(h) => sta_role(
                old(run).replies@,
                old(run)@,
                cfg@,
                intent@,
                opt_slice(sta_psk),
                opt_slice(ap_psk),
                radio@,
                name@,
            ) == h.stop::<()>(),
        },
{
    match clear_radio(run, cfg, radio, name) {
        Ok(_) => {},
        Err(h) => return Err(h),
    }
    match ensure_wifi_sta(
        run,
        cfg,
        radio.sta.as_str(),
        &intent.wifi,
        sta_psk,
        intent.fallback.hotspot_enabled,
    ) {
        Ok(_) => {},
        Err(h) => return Err(h),
    }
    match create_vif(run, radio, intent.fallback.hotspot_enabled) {
        Ok(_) => {},
        Err(h) => return Err(h),
    }
    let wifi = match follow_sta(run, radio, &intent.wifi) {
        Ok(w) => w,
        Err(h) => return Err(h),
    };
    match ensure_hotspot_profile(run, cfg, radio.ap.as_str(), &wifi, ap_psk, &intent.fallback) {
        Ok(_) => {},
        Err(h) => return Err(h),
    }
    hotspot_beside_sta(run, cfg, intent, radio, name)
}

/// Wi-Fi as hotspot.
pub open spec fn ap_role(
    h: Seq<Reply>,
    m: Mark,
    cfg: ConfigView,
    intent: IntentView,
    ap_psk: Option<Seq<char>>,
    radio: RadioView,
    name: Seq<char>,
) -> Progress<()> {
    match connection_down(h, m, cfg, NM_CON_WIFI_STA@) {
        Progress::Go(m1, _) => ap_done(h, m1, cfg, radio.ap, intent.wifi, ap_psk, name),
        Progress::Need(a) => Progress::Need(a),
        Progress::Fail(e) => Progress::Fail(e),
    }
}

/// What applying an intent comes to: the interfaces are found, the wire is set up, and
/// the radio gets its role; the report holds every line said on the way.
pub open spec fn applied(
    h: Seq<Reply>,
    m: Mark,
    cfg: ConfigView,
    intent: IntentView,
    sta_psk: Option<Seq<char>>,
    ap_psk: Option<Seq<char>>,
) -> Progress<ReportView> {
    match radio(h, m, cfg, intent) {
        Progress::Go(m1, radio) => match ethernet_done(h, m1, cfg, intent.ethernet) {
            Progress::Go(m2, _) => {
                let name = hotspot_name(intent.fallback);
                let done = match intent.wifi.role {
                    WifiRole::Disabled => disabled_role(h, m2, cfg, radio, name),
                    WifiRole::Sta => sta_role(h, m2, cfg, intent, sta_psk, ap_psk, radio, name),
                    WifiRole::Ap => ap_role(h, m2, cfg, intent, ap_psk, radio, name),
                };
                match done {
                    Progress::Go(m3, _) => Progress::Go(m3, ReportView { ok: true, steps: m3.log }),
                    Progress::Need(a) => Progress::Need(a),
                    Progress::Fail(e) => Progress::Fail(e),
                }
            },
            Progress::Need(a) => Progress::Need(a),
            Progress::Fail(e) => Progress::Fail(e),
        },
        Progress::Need(a) => Progress::Need(a),
        Progress::Fail(e) => Progress::Fail(e),
    }
}

/// Applies an intent, as [`applied`] says.
pub fn apply_intent(
    run: &mut Run,
    cfg: &PluginConfig,
    intent: &NetworkIntent,
    sta_psk: Option<&str>,
    ap_psk: Option<&str>,
) -> (r: Result<ApplyReport, Halt>)
    requires
        old(run).wf(),
        links_numbered(old(run).replies@),
    ensures
        final(run).follows(old(run)),
        match r {
            Ok(v) => applied(old(run).replies@, old(run)@, cfg@, intent@, opt_slice(sta_psk), opt_slice(ap_psk))
                == Progress::Go(final(run)@, v@),
            Err(h) => applied(old(run).replies@, old(run)@, cfg@, intent@, opt_slice(sta_psk), opt_slice(ap_psk))
                == h.stop::<ReportView>(),
        },
{
    let radio = match radio_of(run, cfg, intent) {
        Ok(v) => v,
        Err(h) => return Err(h),
    };
    let name = hotspot_connection_name(&intent.fallback);
    match ensure_ethernet(run, cfg, intent) {
        Ok(_) => {},
        Err(h) => return Err(h),
    }
    let done = match intent.wifi.role {
        WifiRole::Disabled => apply_disabled(run, cfg, &radio, name.as_str()),
        WifiRole::Sta => apply_sta(run, cfg, intent, sta_psk, ap_psk, &radio, name.as_str()),
        WifiRole::Ap => {
            match connection_down_lossy(run, cfg, NM_CON_WIFI_STA) {
                Ok(_) => {},
                Err(h) => return Err(h),
            }
            ensure_wifi_ap(run, cfg, radio.ap.as_str(), &intent.wifi, ap_psk, name.as_str())
        },
    };
    match done {
        Ok(_) => Ok(ApplyReport { ok: true, steps: copy_texts(&run.log) }),
        Err(h) => Err(h),
    }
}

/// A hotspot on a second interface of the client's radio goes to the channel that the
/// client is on; on an interface of its own, or where the client is not connected, it
/// keeps its own.
pub proof fn hotspots_follow_the_client(
    h: Seq<Reply>,
    m: Mark,
    radio: RadioView,
    wifi: WifiView,
    m1: Mark,
    link: Option<LinkView>,
)
    requires
        sta_link(h, m, radio.sta) == Progress::Go(m1, link),
    ensures
        radio.sta == radio.ap || radio.explicit ==> following(h, m, radio, wifi) == Progress::Go(m, wifi),
        radio.sta != radio.ap && !radio.explicit ==> {
            &&& link is None || !link->0.connected || link->0.channel is None ==> following(h, m, radio, wifi)
                == Progress::Go(m1, wifi)
            &&& link is Some && link->0.connected && link->0.channel is Some ==> {
                let (ch, band) = link->0.channel->0;
                following(h, m, radio, wifi) matches Progress::Go(n, w) && {
                    &&& n.pos == m1.pos
                    &&& 0 <= ch <= u32::MAX ==> w.ap_channel == ch
                    &&& w.ap_band == band
                    &&& w == (WifiView { ap_channel: w.ap_channel, ap_band: w.ap_band, ..wifi })
                    &&& n.log == m1.log.push("AP follows STA: band="@ + band + " channel="@ + decimal(ch as nat))
                }
            }
        },
{
}

/// The second interface is made where the hotspot is wanted on the client's radio, and
/// told where it is there; otherwise nothing is made.
pub proof fn second_interfaces_are_made_in_need(h: Seq<Reply>, m: Mark, radio: RadioView, m1: Mark, there: bool)
    requires
        vif_present(h, m, radio.sta, radio.ap) == Progress::Go(m1, there),
    ensures
        radio.sta == radio.ap || radio.explicit ==> vif_created(h, m, radio, true) == Progress::Go(m, ()),
        vif_created(h, m, radio, false) == Progress::Go(m, ()),
        radio.sta != radio.ap && !radio.explicit && there ==> vif_created(h, m, radio, true) == Progress::Go(
            m1.said("created AP vif "@ + radio.ap + " on phy of "@ + radio.sta + " (type __ap)"@),
            (),
        ),
        radio.sta != radio.ap && !radio.explicit && !there ==> vif_created(h, m, radio, true) == Progress::Go(m1, ()),
{
}

/// A hotspot beside a client is brought up, and opened to everyone where it does not come
/// up and nothing else is left; one that stays down is warned of, and that is no error.
pub proof fn hotspots_beside_clients_may_fail(
    h: Seq<Reply>,
    m: Mark,
    cfg: ConfigView,
    intent: IntentView,
    radio: RadioView,
    name: Seq<char>,
    m1: Mark,
    up: bool,
    m2: Mark,
    recovered: bool,
)
    requires
        !is_blank(name),
        hotspot_up(h, m, cfg, name) == Progress::Go(m1, up),
        up ==> m2 == m1 && !recovered,
        !up ==> open_recovery(h, m1, cfg, intent, name) == Progress::Go(m2, recovered),
        radio.sta != radio.ap,
    ensures
        !intent.fallback.hotspot_enabled ==> hotspot_beside(h, m, cfg, intent, radio, name) == Progress::Go(m, ()),
        intent.fallback.hotspot_enabled && (up || recovered) ==> hotspot_beside(h, m, cfg, intent, radio, name)
            == Progress::Go(m2.said("intent: hotspot on "@ + radio.ap + ", STA on "@ + radio.sta), ()),
        intent.fallback.hotspot_enabled && !up && !recovered ==> hotspot_beside(h, m, cfg, intent, radio, name)
            == Progress::Go(
            m2.said("intent: hotspot on "@ + radio.ap + ", STA on "@ + radio.sta).said(
                "warning: hotspot did not activate after retries (and critical open recovery if applicable)"@,
            ),
            (),
        ),
{
}

/// On one interface the client gets the radio back from the hotspot, as far as it can.
pub proof fn one_interface_is_shared(
    h: Seq<Reply>,
    m: Mark,
    cfg: ConfigView,
    intent: IntentView,
    radio: RadioView,
    name: Seq<char>,
    m1: Mark,
    m2: Mark,
)
    requires
        !is_blank(name),
        intent.fallback.hotspot_enabled,
        radio.sta == radio.ap,
        hotspot_up(h, m, cfg, name) == Progress::Go(m1, true),
        shared_radio(h, m1, cfg, intent, radio.sta, name) == Progress::Go(m2, ()),
    ensures
        hotspot_beside(h, m, cfg, intent, radio, name) == Progress::Go(m2, ()),
{
}

/// An intent whose parts are done is applied: once the interfaces are found and the wire
/// is set up, a hotspot needs its profile up, a client all that belongs to it, and a
/// radio that is off both profiles down; the report is then a success with every line that
/// was said.
pub proof fn done_parts_make_an_applied_intent(
    h: Seq<Reply>,
    m: Mark,
    cfg: ConfigView,
    intent: IntentView,
    sta_psk: Option<Seq<char>>,
    ap_psk: Option<Seq<char>>,
    m1: Mark,
    found: RadioView,
    m2: Mark,
    m3: Mark,
    m4: Mark,
)
    requires
        radio(h, m, cfg, intent) == Progress::Go(m1, found),
        ethernet_done(h, m1, cfg, intent.ethernet) == Progress::Go(m2, ()),
    ensures
        intent.wifi.role == WifiRole::Ap && connection_down(h, m2, cfg, "evo-network-wifi-sta"@) == Progress::Go(m3, ())
            && ap_done(h, m3, cfg, found.ap, intent.wifi, ap_psk, hotspot_name(intent.fallback)) == Progress::Go(m4, ())
            ==> applied(h, m, cfg, intent, sta_psk, ap_psk) == Progress::Go(m4, ReportView { ok: true, steps: m4.log }),
        intent.wifi.role == WifiRole::Disabled && connection_down(h, m2, cfg, "evo-network-wifi-sta"@) == Progress::Go(
            m3,
            (),
        ) && connection_down(h, m3, cfg, hotspot_name(intent.fallback)) == Progress::Go(m4, ()) && found.sta == found.ap
            ==> applied(h, m, cfg, intent, sta_psk, ap_psk) is Go,
        intent.wifi.role == WifiRole::Disabled && connection_down(h, m2, cfg, "evo-network-wifi-sta"@) == Progress::Go(
            m3,
            (),
        ) && connection_down(h, m3, cfg, hotspot_name(intent.fallback)) == Progress::Go(m4, ()) && vif_absent(h, m4, found.ap)
            is Go ==> applied(h, m, cfg, intent, sta_psk, ap_psk) is Go,
{
}

/// A client whose parts are done is applied: the radio is cleared, the client is up, the
/// hotspot's interface is made, its channel is the client's, its profile is written and
/// it stands beside the client, each after the other.
pub proof fn done_parts_make_a_client(
    h: Seq<Reply>,
    m: Mark,
    cfg: ConfigView,
    intent: IntentView,
    sta_psk: Option<Seq<char>>,
    ap_psk: Option<Seq<char>>,
    m1: Mark,
    found: RadioView,
    m2: Mark,
    m3: Mark,
    m4: Mark,
    m5: Mark,
    m6: Mark,
    wifi: WifiView,
    m7: Mark,
    m8: Mark,
)
    requires
        intent.wifi.role == WifiRole::Sta,
        radio(h, m, cfg, intent) == Progress::Go(m1, found),
        ethernet_done(h, m1, cfg, intent.ethernet) == Progress::Go(m2, ()),
        radio_cleared(h, m2, cfg, found, hotspot_name(intent.fallback)) == Progress::Go(m3, ()),
        sta_done(h, m3, cfg, found.sta, intent.wifi, sta_psk, intent.fallback.hotspot_enabled) == Progress::Go(m4, ()),
        vif_created(h, m4, found, intent.fallback.hotspot_enabled) == Progress::Go(m5, ()),
        following(h, m5, found, intent.wifi) == Progress::Go(m6, wifi),
        hotspot_profile(h, m6, cfg, found.ap, wifi, ap_psk, intent.fallback) == Progress::Go(m7, ()),
        hotspot_beside(h, m7, cfg, intent, found, hotspot_name(intent.fallback)) == Progress::Go(m8, ()),
    ensures
        applied(h, m, cfg, intent, sta_psk, ap_psk) == Progress::Go(m8, ReportView { ok: true, steps: m8.log }),
{
}

/// The interfaces are always found, once it is known whether the radio can be shared and,
/// where that matters, what the operator calls the second one.
pub proof fn interfaces_are_found(h: Seq<Reply>, m: Mark, cfg: ConfigView, intent: IntentView, m1: Mark, shared: bool)
    requires
        concurrent(h, m, wifi_ifname(cfg, intent.wifi)) == Progress::Go(m1, shared),
    ensures
        !shared ==> (radio(h, m, cfg, intent) matches Progress::Go(n, r) && n == m1 && !r.concurrent && r.sta == wifi_ifname(
            cfg,
            intent.wifi,
        )),
        shared && read_text(h, m1, Ask::ReadVar { name: "VOLUMIO_EVO_AP_IFNAME"@ }) is Go ==> (radio(h, m, cfg, intent) matches
            Progress::Go(_, r) && r.concurrent && r.sta == wifi_ifname(cfg, intent.wifi)),
{
}

/// Each field is seen under its own name, as it is.
pub proof fn fields_are_seen_under_their_names(apply_report: ApplyReport, radio: Radio)
    ensures
        apply_report@.ok == apply_report.ok,
        apply_report@.steps == texts(apply_report.steps@),
        radio@.sta == radio.sta@,
        radio@.ap == radio.ap@,
        radio@.explicit == radio.explicit,
        radio@.concurrent == radio.concurrent,
{
}

} // verus!
