//! The answers to the network plugin's requests, each as a function of what the world
//! has replied.

use crate::error::{ErrorView, PluginError};
use crate::network::apply::{applied, apply_intent, ApplyReport, ReportView};
use crate::network::captive::{captive_detect, captive_submit, detected, submitted};
use crate::network::captive_state::{CaptivePhase, CaptiveSessionState, CaptiveView};
use crate::network::config::{CaptiveConfig, ConfigView, PluginConfig};
use crate::network::intent::{IntentView, NetworkIntent};
use crate::network::nmcli::{
    connectivity, device_table, nm_connectivity, nm_device_table, nmcli, nmcli_output, scan, scan_candidates, wifi_scan,
    wifi_scan_candidates,
};
use crate::network::notices::{
    action_views, apply_notices, build_apply_notices, build_captive_actions, build_captive_notices, captive_actions,
    connectivity_notices, notice_views, phase_notices, ActionView, CaptiveAction, Notice, NoticeView,
};
use crate::network::readings::{candidate_views, device_views, scan_views, CandidateView, DeviceRow, DeviceView, ScanRow, ScanRowView, WifiStaCandidate};
use crate::network::scan_cache::{copy_candidates, copy_rows, CachedScan, CachedView, ScanCache};
use crate::network::storage::{
    captive_loaded, captive_saved, intent_loaded, intent_saved, load_captive_state, load_intent, read_optional_secret,
    save_captive_state, save_intent, secret_read, secret_written, state_file, state_path, write_optional_secret,
    AP_PSK_FILE, STA_PSK_FILE,
};
use crate::network::transcript::{clock, reply_at, Action, Ask, Halt, Mark, Payload, PayloadKind, Progress, Reply, Run};
use crate::network::vif::links_numbered;
use crate::paths::joined;
use crate::text::{cat, opt_slice, opt_text, owned, texts, trim, trimmed};
use vstd::prelude::*;

verus! {

// Status.

/// The state of the network as far as it could be read.
#[derive(Debug, Clone)]
pub struct StatusBody {
    pub degraded: bool,
    pub nmcli_path: String,
    pub general_status: Option<String>,
    pub general_error: Option<String>,
    pub devices: Vec<DeviceRow>,
    pub devices_error: Option<String>,
    pub scan_ifname: String,
    pub wifi_scan_error: Option<String>,
}

/// [`StatusBody`] over mathematical values.
#[verifier::ext_equal]
pub struct StatusView {
    pub degraded: bool,
    pub nmcli_path: Seq<char>,
    pub general_status: Option<Seq<char>>,
    pub general_error: Option<Seq<char>>,
    pub devices: Seq<DeviceView>,
    pub devices_error: Option<Seq<char>>,
    pub scan_ifname: Seq<char>,
    pub wifi_scan_error: Option<Seq<char>>,
}

impl View for StatusBody {
    type V = StatusView;

    open spec fn view(&self) -> StatusView {
        StatusView {
            degraded: self.degraded,
            nmcli_path: self.nmcli_path@,
            general_status: opt_text(self.general_status),
            general_error: opt_text(self.general_error),
            devices: device_views(self.devices@),
            devices_error: opt_text(self.devices_error),
            scan_ifname: self.scan_ifname@,
            wifi_scan_error: opt_text(self.wifi_scan_error),
        }
    }
}

/// The message of a failure.
pub open spec fn complaint<V>(r: Result<V, ErrorView>) -> Option<Seq<char>> {
    match r {
        Ok(_) => None,
        Err(e) => Some(e.text()),
    }
}

/// The status that three readings give; it is degraded where one of them failed.
pub open spec fn status_of(
    cfg: ConfigView,
    devices: Result<Seq<DeviceView>, ErrorView>,
    general: Result<Seq<char>, ErrorView>,
    networks: Result<Seq<ScanRowView>, ErrorView>,
) -> StatusView {
    StatusView {
        degraded: devices is Err || general is Err || networks is Err,
        nmcli_path: cfg.nmcli_path,
        general_status: match general {
            Ok(raw) => Some(trimmed(raw)),
            Err(_) => None,
        },
        general_error: complaint(general),
        devices: match devices {
            Ok(v) => v,
            Err(_) => seq![],
        },
        devices_error: complaint(devices),
        scan_ifname: cfg.default_wifi_iface,
        wifi_scan_error: complaint(networks),
    }
}

/// The answer to a request for the status.
#[verifier::opaque]
pub open spec fn status(h: Seq<Reply>, m: Mark, cfg: ConfigView) -> Progress<StatusView> {
    match device_table(h, m, cfg) {
        Progress::Go(m1, devices) => match nmcli(h, m1, cfg, seq!["general"@, "status"@]) {
            Progress::Go(m2, general) => match scan(h, m2, cfg, Some(cfg.default_wifi_iface)) {
                Progress::Go(m3, networks) => Progress::Go(m3, status_of(cfg, devices, general, networks)),
                Progress::Need(a) => Progress::Need(a),
                Progress::Fail(e) => Progress::Fail(e),
            },
            Progress::Need(a) => Progress::Need(a),
            Progress::Fail(e) => Progress::Fail(e),
        },
        Progress::Need(a) => Progress::Need(a),
        Progress::Fail(e) => Progress::Fail(e),
    }
}

/// Answers a request for the status.
pub fn handle_status(run: &mut Run, cfg: &PluginConfig) -> (r: Result<StatusBody, Halt>)
    requires
        old(run).wf(),
    ensures
        final(run).follows(old(run)),
        match r {
            Ok(v) => status(old(run).replies@, old(run)@, cfg@) == Progress::Go(final(run)@, v@),
            Err(h) => status(old(run).replies@, old(run)@, cfg@) == h.stop::<StatusView>(),
        },
{
    proof {
        reveal(status);
    }
    let mut devices: Vec<DeviceRow> = Vec::new();
    let mut devices_error: Option<String> = None;
    proof {
        assert(device_views(devices@) =~= Seq::<DeviceView>::empty());
    }
    match nm_device_table(run, cfg) {
        Ok(Ok(v)) => {
            devices = v;
        },
        Ok(Err(e)) => {
            devices_error = Some(e.message().to_owned());
        },
        Err(h) => return Err(h),
    }
    let args = owned(vec!["general", "status"]);
    proof {
        assert(texts(args@) =~= seq!["general"@, "status"@]);
    }
    let mut general_status: Option<String> = None;
    let mut general_error: Option<String> = None;
    match nmcli_output(run, cfg, args) {
        Ok(Ok(raw)) => {
            general_status = Some(trim(raw.as_str()).to_owned());
        },
        Ok(Err(e)) => {
            general_error = Some(e.message().to_owned());
        },
        Err(h) => return Err(h),
    }
    let mut wifi_scan_error: Option<String> = None;
    match wifi_scan(run, cfg, Some(cfg.default_wifi_iface.as_str())) {
        Ok(Ok(_)) => {},
        Ok(Err(e)) => {
            wifi_scan_error = Some(e.message().to_owned());
        },
        Err(h) => return Err(h),
    }
    let degraded = devices_error.is_some() || general_error.is_some() || wifi_scan_error.is_some();
    Ok(
        StatusBody {
            degraded,
            nmcli_path: cfg.nmcli_path.clone(),
            general_status,
            general_error,
            devices,
            devices_error,
            scan_ifname: cfg.default_wifi_iface.clone(),
            wifi_scan_error,
        },
    )
}

// Scans.

/// The networks and access points that an interface sees, and where they come from.
#[derive(Debug, Clone)]
pub struct ScanBody {
    pub available: Vec<ScanRow>,
    pub candidates: Vec<WifiStaCandidate>,
    pub cache_hit: bool,
    pub cache_stale: bool,
    pub refresh_requested: bool,
    pub scan_error: Option<String>,
}

/// [`ScanBody`] over mathematical values.
#[verifier::ext_equal]
pub struct ScanBodyView {
    pub available: Seq<ScanRowView>,
    pub candidates: Seq<CandidateView>,
    pub cache_hit: bool,
    pub cache_stale: bool,
    pub refresh_requested: bool,
    pub scan_error: Option<Seq<char>>,
}

impl View for ScanBody {
    type V = ScanBodyView;

    open spec fn view(&self) -> ScanBodyView {
        ScanBodyView {
            available: scan_views(self.available@),
            candidates: candidate_views(self.candidates@),
            cache_hit: self.cache_hit,
            cache_stale: self.cache_stale,
            refresh_requested: self.refresh_requested,
            scan_error: opt_text(self.scan_error),
        }
    }
}

/// What a scan keeps: nothing, or its result under the interface's name.
pub type Kept = Option<(Seq<char>, CachedView)>;

/// A scan to be kept.
pub struct Keep {
    pub key: String,
    pub scan: CachedScan,
}

/// The view of a scan to be kept.
pub open spec fn kept(k: Option<Keep>) -> Kept {
    match k {
        Some(k) => Some((k.key@, k.scan@)),
        None => None,
    }
}

/// A fresh scan: both lists, and where scans are kept, the time.
pub open spec fn fresh_scan(h: Seq<Reply>, m: Mark, cfg: ConfigView, key: Seq<char>, ifname: Option<Seq<char>>, refresh: bool) -> Progress<
    Result<(ScanBodyView, Kept), ErrorView>,
> {
    match scan(h, m, cfg, ifname) {
        Progress::Go(m1, Ok(available)) => match scan_candidates(h, m1, cfg, ifname) {
            Progress::Go(m2, Ok(candidates)) => {
                let body = ScanBodyView {
                    available,
                    candidates,
                    cache_hit: false,
                    cache_stale: false,
                    refresh_requested: refresh,
                    scan_error: None,
                };
                if cfg.scan_cache_ttl_ms > 0 {
                    match clock(h, m2, Ask::MonotonicMs) {
                        Progress::Go(m3, t) => Progress::Go(
                            m3,
                            Ok((body, Some((key, CachedView { available, candidates, captured_at: t })))),
                        ),
                        Progress::Need(a) => Progress::Need(a),
                        Progress::Fail(e) => Progress::Fail(e),
                    }
                } else {
                    Progress::Go(m2, Ok((body, None)))
                }
            },
            Progress::Go(m2, Err(e)) => Progress::Go(m2, Err(e)),
            Progress::Need(a) => Progress::Need(a),
            Progress::Fail(e) => Progress::Fail(e),
        },
        Progress::Go(m1, Err(e)) => Progress::Go(m1, Err(e)),
        Progress::Need(a) => Progress::Need(a),
        Progress::Fail(e) => Progress::Fail(e),
    }
}

/// The view of a fresh scan.
pub open spec fn fresh_result(r: Result<(ScanBody, Option<Keep>), PluginError>) -> Result<(ScanBodyView, Kept), ErrorView> {
    match r {
        Ok((b, k)) => Ok((b@, kept(k))),
        Err(e) => Err(e@),
    }
}

fn scan_afresh(run: &mut Run, cfg: &PluginConfig, key: &str, ifname: Option<&str>, refresh: bool) -> (r: Result<
    Result<(ScanBody, Option<Keep>), PluginError>,
    Halt,
>)
    requires
        old(run).wf(),
    ensures
        final(run).follows(old(run)),
        match r {
            Ok(v) => fresh_scan(old(run).replies@, old(run)@, cfg@, key@, opt_slice(ifname), refresh) == Progress::Go(
                final(run)@,
                fresh_result(v),
            ),
            Err(h) => fresh_scan(old(run).replies@, old(run)@, cfg@, key@, opt_slice(ifname), refresh) == h.stop::<
                Result<(ScanBodyView, Kept), ErrorView>,
            >(),
        },
{
    let available = match wifi_scan(run, cfg, ifname) {
        Ok(Ok(v)) => v,
        Ok(Err(e)) => return Ok(Err(e)),
        Err(h) => return Err(h),
    };
    let candidates = match wifi_scan_candidates(run, cfg, ifname) {
        Ok(Ok(v)) => v,
        Ok(Err(e)) => return Ok(Err(e)),
        Err(h) => return Err(h),
    };
    let mut keep: Option<Keep> = None;
    if cfg.scan_cache_ttl_ms > 0 {
        match run.now(Action::MonotonicMs) {
            Ok(t) => {
                keep = Some(
                    Keep {
                        key: key.to_owned(),
                        scan: CachedScan {
                            available: copy_rows(&available),
                            candidates: copy_candidates(&candidates),
                            captured_at: t,
                        },
                    },
                );
            },
            Err(h) => return Err(h),
        }
    }
    Ok(
        Ok(
            (
                ScanBody {
                    available,
                    candidates,
                    cache_hit: false,
                    cache_stale: false,
                    refresh_requested: refresh,
                    scan_error: None,
                },
                keep,
            ),
        ),
    )
}

/// The answer out of the cache.
pub open spec fn cached_answer(c: CachedView, stale: bool, refresh: bool, error: Option<Seq<char>>) -> ScanBodyView {
    ScanBodyView {
        available: c.available,
        candidates: c.candidates,
        cache_hit: true,
        cache_stale: stale,
        refresh_requested: refresh,
        scan_error: error,
    }
}

fn answer_from(c: &CachedScan, stale: bool, refresh: bool, error: Option<String>) -> (r: ScanBody)
    ensures
        r@ == cached_answer(c@, stale, refresh, opt_text(error)),
{
    ScanBody {
        available: copy_rows(&c.available),
        candidates: copy_candidates(&c.candidates),
        cache_hit: true,
        cache_stale: stale,
        refresh_requested: refresh,
        scan_error: error,
    }
}

/// A fresh scan, or where it fails, the last one however old.
pub open spec fn scan_or_stale(
    h: Seq<Reply>,
    m: Mark,
    cfg: ConfigView,
    cache: Map<Seq<char>, CachedView>,
    key: Seq<char>,
    ifname: Option<Seq<char>>,
    refresh: bool,
) -> Progress<(ScanBodyView, Kept)> {
    match fresh_scan(h, m, cfg, key, ifname, refresh) {
        Progress::Go(m1, Ok(v)) => Progress::Go(m1, v),
        Progress::Go(m1, Err(e)) => if cache.contains_key(key) {
            Progress::Go(m1, (cached_answer(cache[key], true, refresh, Some(e.text())), None))
        } else {
            Progress::Fail(e)
        },
        Progress::Need(a) => Progress::Need(a),
        Progress::Fail(e) => Progress::Fail(e),
    }
}

fn scan_or_last(
    run: &mut Run,
    cfg: &PluginConfig,
    cache: &ScanCache,
    key: &str,
    ifname: Option<&str>,
    refresh: bool,
) -> (r: Result<(ScanBody, Option<Keep>), Halt>)
    requires
        old(run).wf(),
        cache.wf(),
    ensures
        final(run).follows(old(run)),
        match r {
            Ok(v) => scan_or_stale(old(run).replies@, old(run)@, cfg@, cache@, key@, opt_slice(ifname), refresh)
                == Progress::Go(final(run)@, (v.0@, kept(v.1))),
            Err(h) => scan_or_stale(old(run).replies@, old(run)@, cfg@, cache@, key@, opt_slice(ifname), refresh)
                == h.stop::<(ScanBodyView, Kept)>(),
        },
{
    match scan_afresh(run, cfg, key, ifname, refresh) {
        Ok(Ok(v)) => Ok(v),
        Ok(Err(e)) => match cache.get(key) {
            Some(c) => Ok((answer_from(c, true, refresh, Some(e.message().to_owned())), None)),
            None => Err(Halt::Fail(e)),
        },
        Err(h) => Err(h),
    }
}

/// Whether a scan of the time `at` may still be used at the time `now`.
pub open spec fn young(at: u64, now: u64, ttl: u64) -> bool {
    now <= at || now - at <= ttl
}

/// The answer to a scan request: out of the cache where it may be used, else fresh.
pub open spec fn scanned(
    h: Seq<Reply>,
    m: Mark,
    cfg: ConfigView,
    cache: Map<Seq<char>, CachedView>,
    ifname: Option<Seq<char>>,
    refresh: bool,
) -> Progress<(ScanBodyView, Kept)> {
    let name = trimmed(
        match ifname {
            Some(i) => i,
            None => cfg.default_wifi_iface,
        },
    );
    let on = if name.len() == 0 {
        None
    } else {
        Some(name)
    };
    if !refresh && cfg.scan_cache_ttl_ms > 0 && cache.contains_key(name) {
        match clock(h, m, Ask::MonotonicMs) {
            Progress::Go(m1, now) => if young(cache[name].captured_at, now, cfg.scan_cache_ttl_ms) {
                Progress::Go(m1, (cached_answer(cache[name], false, refresh, None), None))
            } else {
                scan_or_stale(h, m1, cfg, cache, name, on, refresh)
            },
            Progress::Need(a) => Progress::Need(a),
            Progress::Fail(e) => Progress::Fail(e),
        }
    } else {
        scan_or_stale(h, m, cfg, cache, name, on, refresh)
    }
}

/// Answers a scan request, as [`scanned`] says.
pub fn wifi_scan_with_cache(run: &mut Run, cfg: &PluginConfig, cache: &ScanCache, ifname: &Option<String>, refresh: bool) -> (r:
    Result<(ScanBody, Option<Keep>), Halt>)
    requires
        old(run).wf(),
        cache.wf(),
    ensures
        final(run).follows(old(run)),
        match r {
            Ok(v) => scanned(old(run).replies@, old(run)@, cfg@, cache@, opt_text(*ifname), refresh) == Progress::Go(
                final(run)@,
                (v.0@, kept(v.1)),
            ),
            Err(h) => scanned(old(run).replies@, old(run)@, cfg@, cache@, opt_text(*ifname), refresh) == h.stop::<
                (ScanBodyView, Kept),
            >(),
        },
{
    let name = match ifname {
        Some(i) => trim(i.as_str()),
        None => trim(cfg.default_wifi_iface.as_str()),
    };
    let on: Option<&str> = if name.is_empty() {
        None
    } else {
        Some(name)
    };
    if !refresh && cfg.scan_cache_ttl_ms > 0 {
        if let Some(c) = cache.get(name) {
            let now: u64 = match run.now(Action::MonotonicMs) {
                Ok(t) => t,
                Err(h) => return Err(h),
            };
            if now.saturating_sub(c.captured_at) <= cfg.scan_cache_ttl_ms {
                return Ok((answer_from(c, false, refresh, None), None));
            }
        }
    }
    scan_or_last(run, cfg, cache, name, on, refresh)
}

/// The payload of a scan request: a request without one scans the configured interface
/// and may use the cache.
pub open spec fn scan_asked(h: Seq<Reply>, m: Mark, empty: bool) -> Progress<(Option<Seq<char>>, bool)> {
    if empty {
        Progress::Go(m, (None, false))
    } else {
        match reply_at(h, m.pos) {
            Some(Reply::Decoded(Ok(Payload::Scan(p)))) => Progress::Go(m.read(), (opt_text(p.ifname), p.refresh)),
            Some(Reply::Decoded(Err(e))) => Progress::Fail(ErrorView::Permanent("invalid JSON payload: "@ + e@)),
            _ => Progress::Need(Ask::DecodePayload { kind: PayloadKind::Scan }),
        }
    }
}

/// The answer to a scan request.
#[verifier::opaque]
pub open spec fn scan_answer(h: Seq<Reply>, m: Mark, cfg: ConfigView, cache: Map<Seq<char>, CachedView>, empty: bool) -> Progress<
    (ScanBodyView, Kept),
> {
    match scan_asked(h, m, empty) {
        Progress::Go(m1, (ifname, refresh)) => scanned(h, m1, cfg, cache, ifname, refresh),
        Progress::Need(a) => Progress::Need(a),
        Progress::Fail(e) => Progress::Fail(e),
    }
}

fn invalid_payload(e: &str) -> (r: Halt)
    ensures
        r matches Halt::Fail(p) && p@ == ErrorView::Permanent("invalid JSON payload: "@ + e@),
{
    Halt::Fail(PluginError::Permanent(cat("invalid JSON payload: ", e)))
}

/// Answers a scan request.
pub fn handle_scan(run: &mut Run, cfg: &PluginConfig, cache: &ScanCache, empty: bool) -> (r: Result<
    (ScanBody, Option<Keep>),
    Halt,
>)
    requires
        old(run).wf(),
        cache.wf(),
    ensures
        final(run).follows(old(run)),
        match r {
            Ok(v) => scan_answer(old(run).replies@, old(run)@, cfg@, cache@, empty) == Progress::Go(
                final(run)@,
                (v.0@, kept(v.1)),
            ),
            Err(h) => scan_answer(old(run).replies@, old(run)@, cfg@, cache@, empty) == h.stop::<(ScanBodyView, Kept)>(),
        },
{
    proof {
        reveal(scan_answer);
    }
    if empty {
        return wifi_scan_with_cache(run, cfg, cache, &None, false);
    }
    match run.next() {
        Some(Reply::Decoded(Ok(Payload::Scan(p)))) => wifi_scan_with_cache(run, cfg, cache, &p.ifname, p.refresh),
        Some(Reply::Decoded(Err(e))) => Err(invalid_payload(e.as_str())),
        _ => Err(Halt::Need(Action::DecodePayload { kind: PayloadKind::Scan })),
    }
}

/// Within the time to live a scan is not made again: the answer is the cached one, and
/// no program is run.
pub proof fn young_scans_are_reused(
    h: Seq<Reply>,
    m: Mark,
    cfg: ConfigView,
    cache: Map<Seq<char>, CachedView>,
    ifname: Seq<char>,
    now: u64,
)
    requires
        cfg.scan_cache_ttl_ms > 0,
        cache.contains_key(trimmed(ifname)),
        reply_at(h, m.pos) == Some(Reply::Now(now)),
        young(cache[trimmed(ifname)].captured_at, now, cfg.scan_cache_ttl_ms),
    ensures
        scanned(h, m, cfg, cache, Some(ifname), false) == Progress::Go(
            m.read(),
            (cached_answer(cache[trimmed(ifname)], false, false, None), None::<(Seq<char>, CachedView)>),
        ),
{
}

/// A request to refresh does not look at the cache: it comes to what it would come to
/// with an empty one, unless the scan fails.
pub proof fn refresh_scans_again(
    h: Seq<Reply>,
    m: Mark,
    cfg: ConfigView,
    cache: Map<Seq<char>, CachedView>,
    ifname: Option<Seq<char>>,
)
    requires
        !(scanned(h, m, cfg, Map::<Seq<char>, CachedView>::empty(), ifname, true) is Fail),
    ensures
        scanned(h, m, cfg, cache, ifname, true) == scanned(h, m, cfg, Map::<Seq<char>, CachedView>::empty(), ifname, true),
{
}

// The intent.

/// The stored intent, and whether there are passphrases.
#[derive(Debug, Clone)]
pub struct IntentGetBody {
    pub intent: NetworkIntent,
    pub sta_psk_configured: bool,
    pub ap_psk_configured: bool,
}

/// [`IntentGetBody`] over mathematical values.
#[verifier::ext_equal]
pub struct IntentGetView {
    pub intent: IntentView,
    pub sta_psk_configured: bool,
    pub ap_psk_configured: bool,
}

impl View for IntentGetBody {
    type V = IntentGetView;

    open spec fn view(&self) -> IntentGetView {
        IntentGetView {
            intent: self.intent@,
            sta_psk_configured: self.sta_psk_configured,
            ap_psk_configured: self.ap_psk_configured,
        }
    }
}

/// The stored passphrase of a file.
pub open spec fn psk_read(h: Seq<Reply>, m: Mark, cfg: ConfigView, dir: Option<Seq<char>>, file: Seq<char>) -> Progress<
    Option<Seq<char>>,
> {
    match state_file(dir, file) {
        Ok(path) => secret_read(h, m, cfg, path),
        Err(e) => Progress::Fail(e),
    }
}

fn read_psk(run: &mut Run, cfg: &PluginConfig, dir: Option<&str>, file: &str) -> (r: Result<Option<String>, Halt>)
    requires
        old(run).wf(),
    ensures
        final(run).follows(old(run)),
        match r {
            Ok(v) => psk_read(old(run).replies@, old(run)@, cfg@, opt_slice(dir), file@) == Progress::Go(
                final(run)@,
                opt_text(v),
            ),
            Err(h) => psk_read(old(run).replies@, old(run)@, cfg@, opt_slice(dir), file@) == h.stop::<Option<Seq<char>>>(),
        },
{
    match state_path(dir, file) {
        Ok(path) => read_optional_secret(run, cfg, path.as_str()),
        Err(e) => Err(Halt::Fail(e)),
    }
}

/// The answer to a request for the intent.
#[verifier::opaque]
pub open spec fn intent_get(h: Seq<Reply>, m: Mark, cfg: ConfigView, dir: Option<Seq<char>>) -> Progress<IntentGetView> {
    match intent_loaded(h, m, dir) {
        Progress::Go(m1, intent) => match psk_read(h, m1, cfg, dir, STA_PSK_FILE@) {
            Progress::Go(m2, sta) => match psk_read(h, m2, cfg, dir, AP_PSK_FILE@) {
                Progress::Go(m3, ap) => Progress::Go(
                    m3,
                    IntentGetView { intent, sta_psk_configured: sta is Some, ap_psk_configured: ap is Some },
                ),
                Progress::Need(a) => Progress::Need(a),
                Progress::Fail(e) => Progress::Fail(e),
            },
            Progress::Need(a) => Progress::Need(a),
            Progress::Fail(e) => Progress::Fail(e),
        },
        Progress::Need(a) => Progress::Need(a),
        Progress::Fail(e) => Progress::Fail(e),
    }
}

/// Answers a request for the intent.
pub fn handle_intent_get(run: &mut Run, cfg: &PluginConfig, dir: Option<&str>) -> (r: Result<IntentGetBody, Halt>)
    requires
        old(run).wf(),
    ensures
        final(run).follows(old(run)),
        match r {
            Ok(v) => intent_get(old(run).replies@, old(run)@, cfg@, opt_slice(dir)) == Progress::Go(final(run)@, v@),
            Err(h) => intent_get(old(run).replies@, old(run)@, cfg@, opt_slice(dir)) == h.stop::<IntentGetView>(),
        },
{
    proof {
        reveal(intent_get);
    }
    let intent = match load_intent(run, dir) {
        Ok(v) => v,
        Err(h) => return Err(h),
    };
    let sta = match read_psk(run, cfg, dir, STA_PSK_FILE) {
        Ok(v) => v.is_some(),
        Err(h) => return Err(h),
    };
    let ap = match read_psk(run, cfg, dir, AP_PSK_FILE) {
        Ok(v) => v.is_some(),
        Err(h) => return Err(h),
    };
    Ok(IntentGetBody { intent, sta_psk_configured: sta, ap_psk_configured: ap })
}

/// What storing or applying an intent came to.
#[derive(Debug, Clone)]
pub struct ApplyBody {
    pub apply: Option<ApplyReport>,
    pub notices: Vec<Notice>,
}

/// [`ApplyBody`] over mathematical values.
#[verifier::ext_equal]
pub struct ApplyView {
    pub apply: Option<ReportView>,
    pub notices: Seq<NoticeView>,
}

/// The view of an optional report.
pub open spec fn opt_report(r: Option<ApplyReport>) -> Option<ReportView> {
    match r {
        Some(r) => Some(r@),
        None => None,
    }
}

impl View for ApplyBody {
    type V = ApplyView;

    open spec fn view(&self) -> ApplyView {
        ApplyView { apply: opt_report(self.apply), notices: notice_views(self.notices@) }
    }
}

/// The answer with a report.
pub open spec fn report_answer(r: ReportView) -> ApplyView {
    ApplyView { apply: Some(r), notices: apply_notices(r) }
}

/// Storing a passphrase under its file.
pub open spec fn psk_written(
    h: Seq<Reply>,
    m: Mark,
    cfg: ConfigView,
    dir: Option<Seq<char>>,
    file: Seq<char>,
    value: Option<Seq<char>>,
) -> Progress<()> {
    match state_file(dir, file) {
        Ok(path) => secret_written(h, m, cfg, path, value),
        Err(e) => Progress::Fail(e),
    }
}

fn as_slice(v: &Option<String>) -> (r: Option<&str>)
    ensures
        opt_slice(r) == opt_text(*v),
{
    match v {
        Some(s) => Some(s.as_str()),
        None => None,
    }
}

fn write_psk(run: &mut Run, cfg: &PluginConfig, dir: Option<&str>, file: &str, value: &Option<String>) -> (r: Result<(), Halt>)
    requires
        old(run).wf(),
    ensures
        final(run).follows(old(run)),
        match r {
            Ok(v) => psk_written(old(run).replies@, old(run)@, cfg@, opt_slice(dir), file@, opt_text(*value))
                == Progress::Go(final(run)@, v),
            Err(h) => psk_written(old(run).replies@, old(run)@, cfg@, opt_slice(dir), file@, opt_text(*value))
                == h.stop::<()>(),
        },
{
    match state_path(dir, file) {
        Ok(path) => write_optional_secret(run, cfg, path.as_str(), as_slice(value)),
        Err(e) => Err(Halt::Fail(e)),
    }
}

/// Storing an intent with its passphrases, and applying it where that is asked.
pub open spec fn intent_stored(
    h: Seq<Reply>,
    m: Mark,
    cfg: ConfigView,
    dir: Option<Seq<char>>,
    intent: IntentView,
    sta: Option<Seq<char>>,
    ap: Option<Seq<char>>,
    apply: bool,
) -> Progress<ApplyView> {
    match intent_saved(h, m, dir, intent) {
        Progress::Go(m1, _) => match psk_written(h, m1, cfg, dir, STA_PSK_FILE@, sta) {
            Progress::Go(m2, _) => match psk_written(h, m2, cfg, dir, AP_PSK_FILE@, ap) {
                Progress::Go(m3, _) => if apply {
                    match applied(h, m3, cfg, intent, sta, ap) {
                        Progress::Go(m4, r) => Progress::Go(m4, report_answer(r)),
                        Progress::Need(a) => Progress::Need(a),
                        Progress::Fail(e) => Progress::Fail(e),
                    }
                } else {
                    Progress::Go(m3, ApplyView { apply: None, notices: seq![] })
                },
                Progress::Need(a) => Progress::Need(a),
                Progress::Fail(e) => Progress::Fail(e),
            },
            Progress::Need(a) => Progress::Need(a),
            Progress::Fail(e) => Progress::Fail(e),
        },
        Progress::Need(a) => Progress::Need(a),
        Progress::Fail(e) => Progress::Fail(e),
    }
}

/// The answer to a request that stores an intent.
#[verifier::opaque]
pub open spec fn intent_set(h: Seq<Reply>, m: Mark, cfg: ConfigView, dir: Option<Seq<char>>) -> Progress<ApplyView> {
    match reply_at(h, m.pos) {
        Some(Reply::Decoded(Ok(Payload::IntentSet(p)))) => intent_stored(
            h,
            m.read(),
            cfg,
            dir,
            p.intent@,
            opt_text(p.sta_psk),
            opt_text(p.ap_psk),
            p.apply,
        ),
        Some(Reply::Decoded(Err(e))) => Progress::Fail(ErrorView::Permanent("invalid JSON payload: "@ + e@)),
        _ => Progress::Need(Ask::DecodePayload { kind: PayloadKind::IntentSet }),
    }
}

fn answer_with(report: ApplyReport) -> (r: ApplyBody)
    ensures
        r@ == report_answer(report@),
{
    let notices = build_apply_notices(&report);
    ApplyBody { apply: Some(report), notices }
}

/// Answers a request that stores an intent.
pub fn handle_intent_set(run: &mut Run, cfg: &PluginConfig, dir: Option<&str>) -> (r: Result<ApplyBody, Halt>)
    requires
        old(run).wf(),
        links_numbered(old(run).replies@),
    ensures
        final(run).follows(old(run)),
        match r {
            Ok(v) => intent_set(old(run).replies@, old(run)@, cfg@, opt_slice(dir)) == Progress::Go(final(run)@, v@),
            Err(h) => intent_set(old(run).replies@, old(run)@, cfg@, opt_slice(dir)) == h.stop::<ApplyView>(),
        },
{
    proof {
        reveal(intent_set);
    }
    let p = match run.next() {
        Some(Reply::Decoded(Ok(Payload::IntentSet(p)))) => p,
        Some(Reply::Decoded(Err(e))) => return Err(invalid_payload(e.as_str())),
        _ => return Err(Halt::Need(Action::DecodePayload { kind: PayloadKind::IntentSet })),
    };
    match save_intent(run, dir, &p.intent) {
        Ok(_) => {},
        Err(h) => return Err(h),
    }
    match write_psk(run, cfg, dir, STA_PSK_FILE, &p.sta_psk) {
        Ok(_) => {},
        Err(h) => return Err(h),
    }
    match write_psk(run, cfg, dir, AP_PSK_FILE, &p.ap_psk) {
        Ok(_) => {},
        Err(h) => return Err(h),
    }
    if p.apply {
        match apply_intent(run, cfg, &p.intent, as_slice(&p.sta_psk), as_slice(&p.ap_psk)) {
            Ok(report) => Ok(answer_with(report)),
            Err(h) => Err(h),
        }
    } else {
        let r = ApplyBody { apply: None, notices: Vec::new() };
        proof {
            assert(r@.notices =~= Seq::<NoticeView>::empty());
        }
        Ok(r)
    }
}

/// The intent to apply: the one of the request, or the stored one.
pub open spec fn intent_to_apply(h: Seq<Reply>, m: Mark, dir: Option<Seq<char>>, empty: bool) -> Progress<IntentView> {
    if empty {
        intent_loaded(h, m, dir)
    } else {
        match reply_at(h, m.pos) {
            Some(Reply::Decoded(Ok(Payload::IntentApply(p)))) => match p.intent {
                Some(i) => Progress::Go(m.read(), i@),
                None => intent_loaded(h, m.read(), dir),
            },
            Some(Reply::Decoded(Err(e))) => Progress::Fail(ErrorView::Permanent("invalid JSON payload: "@ + e@)),
            _ => Progress::Need(Ask::DecodePayload { kind: PayloadKind::IntentApply }),
        }
    }
}

fn find_intent(run: &mut Run, dir: Option<&str>, empty: bool) -> (r: Result<NetworkIntent, Halt>)
    requires
        old(run).wf(),
    ensures
        final(run).follows(old(run)),
        match r {
            Ok(v) => intent_to_apply(old(run).replies@, old(run)@, opt_slice(dir), empty) == Progress::Go(
                final(run)@,
                v@,
            ),
            Err(h) => intent_to_apply(old(run).replies@, old(run)@, opt_slice(dir), empty) == h.stop::<IntentView>(),
        },
{
    if empty {
        return load_intent(run, dir);
    }
    match run.next() {
        Some(Reply::Decoded(Ok(Payload::IntentApply(p)))) => match &p.intent {
            Some(i) => Ok(i.duplicate()),
            None => load_intent(run, dir),
        },
        Some(Reply::Decoded(Err(e))) => Err(invalid_payload(e.as_str())),
        _ => Err(Halt::Need(Action::DecodePayload { kind: PayloadKind::IntentApply })),
    }
}

/// The answer to a request that applies an intent.
#[verifier::opaque]
pub open spec fn intent_apply(h: Seq<Reply>, m: Mark, cfg: ConfigView, dir: Option<Seq<char>>, empty: bool) -> Progress<ApplyView> {
    match intent_to_apply(h, m, dir, empty) {
        Progress::Go(m1, intent) => match psk_read(h, m1, cfg, dir, STA_PSK_FILE@) {
            Progress::Go(m2, sta) => match psk_read(h, m2, cfg, dir, AP_PSK_FILE@) {
                Progress::Go(m3, ap) => match applied(h, m3, cfg, intent, sta, ap) {
                    Progress::Go(m4, r) => Progress::Go(m4, report_answer(r)),
                    Progress::Need(a) => Progress::Need(a),
                    Progress::Fail(e) => Progress::Fail(e),
                },
                Progress::Need(a) => Progress::Need(a),
                Progress::Fail(e) => Progress::Fail(e),
            },
            Progress::Need(a) => Progress::Need(a),
            Progress::Fail(e) => Progress::Fail(e),
        },
        Progress::Need(a) => Progress::Need(a),
        Progress::Fail(e) => Progress::Fail(e),
    }
}

/// Answers a request that applies an intent.
pub fn handle_intent_apply(run: &mut Run, cfg: &PluginConfig, dir: Option<&str>, empty: bool) -> (r: Result<ApplyBody, Halt>)
    requires
        old(run).wf(),
        links_numbered(old(run).replies@),
    ensures
        final(run).follows(old(run)),
        match r {
            Ok(v) => intent_apply(old(run).replies@, old(run)@, cfg@, opt_slice(dir), empty) == Progress::Go(
                final(run)@,
                v@,
            ),
            Err(h) => intent_apply(old(run).replies@, old(run)@, cfg@, opt_slice(dir), empty) == h.stop::<ApplyView>(),
        },
{
    proof {
        reveal(intent_apply);
    }
    let intent = match find_intent(run, dir, empty) {
        Ok(v) => v,
        Err(h) => return Err(h),
    };
    let sta = match read_psk(run, cfg, dir, STA_PSK_FILE) {
        Ok(v) => v,
        Err(h) => return Err(h),
    };
    let ap = match read_psk(run, cfg, dir, AP_PSK_FILE) {
        Ok(v) => v,
        Err(h) => return Err(h),
    };
    match apply_intent(run, cfg, &intent, as_slice(&sta), as_slice(&ap)) {
        Ok(report) => Ok(answer_with(report)),
        Err(h) => Err(h),
    }
}

// Captive portals.

/// The state of a captive-portal session.
#[derive(Debug, Clone)]
pub struct CaptiveBody {
    /// The network's connectivity, where the request asks for it.
    pub connectivity: Option<Option<String>>,
    pub captive: CaptiveSessionState,
    pub notices: Vec<Notice>,
    pub actions: Vec<CaptiveAction>,
    pub reliability: CaptiveConfig,
}

/// [`CaptiveBody`] over mathematical values.
#[verifier::ext_equal]
pub struct CaptiveBodyView {
    pub connectivity: Option<Option<Seq<char>>>,
    pub captive: CaptiveView,
    pub notices: Seq<NoticeView>,
    pub actions: Seq<ActionView>,
    pub reliability: CaptiveConfig,
}

/// The view of a connectivity that may not have been asked for.
pub open spec fn asked_connectivity(c: Option<Option<String>>) -> Option<Option<Seq<char>>> {
    match c {
        Some(c) => Some(opt_text(c)),
        None => None,
    }
}

impl View for CaptiveBody {
    type V = CaptiveBodyView;

    open spec fn view(&self) -> CaptiveBodyView {
        CaptiveBodyView {
            connectivity: asked_connectivity(self.connectivity),
            captive: self.captive@,
            notices: notice_views(self.notices@),
            actions: action_views(self.actions@),
            reliability: self.reliability,
        }
    }
}

/// The answer with a session.
pub open spec fn session_answer(cfg: ConfigView, s: CaptiveView, connectivity: Option<Option<Seq<char>>>) -> CaptiveBodyView {
    CaptiveBodyView {
        connectivity,
        captive: s,
        notices: connectivity_notices(
            match connectivity {
                Some(c) => c,
                None => None,
            },
        ) + phase_notices(s),
        actions: captive_actions(s),
        reliability: cfg.captive,
    }
}

fn answer_session(cfg: &PluginConfig, s: CaptiveSessionState, connectivity: Option<Option<String>>) -> (r: CaptiveBody)
    ensures
        r@ == session_answer(cfg@, s@, asked_connectivity(connectivity)),
{
    let notices = match &connectivity {
        Some(c) => build_captive_notices(&s, as_slice(c)),
        None => build_captive_notices(&s, None),
    };
    let actions = build_captive_actions(&s);
    CaptiveBody { connectivity, captive: s, notices, actions, reliability: cfg.captive }
}

/// A session that could not be probed.
pub open spec fn unprobed(s: CaptiveView, e: ErrorView) -> CaptiveView {
    CaptiveView { phase: CaptivePhase::Failed, last_error: Some(e.text()), ..s }
}

/// The answer to a request for the session's status: the stored session, or where a
/// probe is asked, the one that the probe leaves.
pub open spec fn captive_status_of(
    h: Seq<Reply>,
    m: Mark,
    cfg: ConfigView,
    dir: Option<Seq<char>>,
    wanted: bool,
    url: Option<Seq<char>>,
) -> Progress<CaptiveBodyView> {
    match captive_loaded(h, m, dir) {
        Progress::Go(m1, s) => match connectivity(h, m1, cfg) {
            Progress::Go(m2, c) => if wanted {
                match detected(h, m2, cfg, dir, url) {
                    Progress::Go(m3, Ok(v)) => match captive_saved(h, m3, dir, v) {
                        Progress::Go(m4, _) => Progress::Go(m4, session_answer(cfg, v, Some(c))),
                        Progress::Need(a) => Progress::Need(a),
                        Progress::Fail(e) => Progress::Fail(e),
                    },
                    Progress::Go(m3, Err(e)) => Progress::Go(m3, session_answer(cfg, unprobed(s, e), Some(c))),
                    Progress::Need(a) => Progress::Need(a),
                    Progress::Fail(e) => Progress::Fail(e),
                }
            } else {
                Progress::Go(m2, session_answer(cfg, s, Some(c)))
            },
            Progress::Need(a) => Progress::Need(a),
            Progress::Fail(e) => Progress::Fail(e),
        },
        Progress::Need(a) => Progress::Need(a),
        Progress::Fail(e) => Progress::Fail(e),
    }
}

fn captive_status_body(run: &mut Run, cfg: &PluginConfig, dir: Option<&str>, wanted: bool, url: Option<&str>) -> (r: Result<
    CaptiveBody,
    Halt,
>)
    requires
        old(run).wf(),
    ensures
        final(run).follows(old(run)),
        match r {
            Ok(v) => captive_status_of(old(run).replies@, old(run)@, cfg@, opt_slice(dir), wanted, opt_slice(url))
                == Progress::Go(final(run)@, v@),
            Err(h) => captive_status_of(old(run).replies@, old(run)@, cfg@, opt_slice(dir), wanted, opt_slice(url))
                == h.stop::<CaptiveBodyView>(),
        },
{
    let mut state = match load_captive_state(run, dir) {
        Ok(s) => s,
        Err(h) => return Err(h),
    };
    let c = match nm_connectivity(run, cfg) {
        Ok(c) => c,
        Err(h) => return Err(h),
    };
    if wanted {
        match captive_detect(run, cfg, dir, url) {
            Ok(Ok(v)) => {
                match save_captive_state(run, dir, &v) {
                    Ok(_) => {},
                    Err(h) => return Err(h),
                }
                state = v;
            },
            Ok(Err(e)) => {
                state.phase = CaptivePhase::Failed;
                state.last_error = Some(e.message().to_owned());
            },
            Err(h) => return Err(h),
        }
    }
    Ok(answer_session(cfg, state, Some(c)))
}

/// The answer to a request for the session's status; without a payload it probes.
#[verifier::opaque]
pub open spec fn captive_status(h: Seq<Reply>, m: Mark, cfg: ConfigView, dir: Option<Seq<char>>, empty: bool) -> Progress<
    CaptiveBodyView,
> {
    if empty {
        captive_status_of(h, m, cfg, dir, true, None)
    } else {
        match reply_at(h, m.pos) {
            Some(Reply::Decoded(Ok(Payload::CaptiveStatus(p)))) => captive_status_of(
                h,
                m.read(),
                cfg,
                dir,
                p.probe,
                opt_text(p.url),
            ),
            Some(Reply::Decoded(Err(e))) => Progress::Fail(ErrorView::Permanent("invalid JSON payload: "@ + e@)),
            _ => Progress::Need(Ask::DecodePayload { kind: PayloadKind::CaptiveStatus }),
        }
    }
}

/// Answers a request for the session's status.
pub fn handle_captive_status(run: &mut Run, cfg: &PluginConfig, dir: Option<&str>, empty: bool) -> (r: Result<
    CaptiveBody,
    Halt,
>)
    requires
        old(run).wf(),
    ensures
        final(run).follows(old(run)),
        match r {
            Ok(v) => captive_status(old(run).replies@, old(run)@, cfg@, opt_slice(dir), empty) == Progress::Go(
                final(run)@,
                v@,
            ),
            Err(h) => captive_status(old(run).replies@, old(run)@, cfg@, opt_slice(dir), empty) == h.stop::<
                CaptiveBodyView,
            >(),
        },
{
    proof {
        reveal(captive_status);
    }
    if empty {
        return captive_status_body(run, cfg, dir, true, None);
    }
    match run.next() {
        Some(Reply::Decoded(Ok(Payload::CaptiveStatus(p)))) => captive_status_body(
            run,
            cfg,
            dir,
            p.probe,
            as_slice(&p.url),
        ),
        Some(Reply::Decoded(Err(e))) => Err(invalid_payload(e.as_str())),
        _ => Err(Halt::Need(Action::DecodePayload { kind: PayloadKind::CaptiveStatus })),
    }
}

/// The session at its start: a portal that was met waits for credentials.
pub open spec fn started(s: CaptiveView) -> CaptiveView {
    if s.phase == CaptivePhase::ProbeDetected {
        CaptiveView { phase: CaptivePhase::AwaitingCredentials, ..s }
    } else {
        s
    }
}

/// The answer once a session is stored.
pub open spec fn stored_answer(h: Seq<Reply>, m: Mark, cfg: ConfigView, dir: Option<Seq<char>>, s: CaptiveView) -> Progress<
    CaptiveBodyView,
> {
    match captive_saved(h, m, dir, s) {
        Progress::Go(m1, _) => Progress::Go(m1, session_answer(cfg, s, None)),
        Progress::Need(a) => Progress::Need(a),
        Progress::Fail(e) => Progress::Fail(e),
    }
}

fn store_and_answer(run: &mut Run, cfg: &PluginConfig, dir: Option<&str>, s: CaptiveSessionState) -> (r: Result<
    CaptiveBody,
    Halt,
>)
    requires
        old(run).wf(),
    ensures
        final(run).follows(old(run)),
        match r {
            Ok(v) => stored_answer(old(run).replies@, old(run)@, cfg@, opt_slice(dir), s@) == Progress::Go(final(run)@, v@),
            Err(h) => stored_answer(old(run).replies@, old(run)@, cfg@, opt_slice(dir), s@) == h.stop::<CaptiveBodyView>(),
        },
{
    match save_captive_state(run, dir, &s) {
        Ok(_) => Ok(answer_session(cfg, s, None)),
        Err(h) => Err(h),
    }
}

/// The answer to a request that starts a session at an address.
pub open spec fn captive_start_at(h: Seq<Reply>, m: Mark, cfg: ConfigView, dir: Option<Seq<char>>, url: Option<Seq<char>>) -> Progress<
    CaptiveBodyView,
> {
    match detected(h, m, cfg, dir, url) {
        Progress::Go(m1, Ok(s)) => stored_answer(h, m1, cfg, dir, started(s)),
        Progress::Go(m1, Err(e)) => Progress::Fail(e),
        Progress::Need(a) => Progress::Need(a),
        Progress::Fail(e) => Progress::Fail(e),
    }
}

fn captive_start_body(run: &mut Run, cfg: &PluginConfig, dir: Option<&str>, url: Option<&str>) -> (r: Result<CaptiveBody, Halt>)
    requires
        old(run).wf(),
    ensures
        final(run).follows(old(run)),
        match r {
            Ok(v) => captive_start_at(old(run).replies@, old(run)@, cfg@, opt_slice(dir), opt_slice(url)) == Progress::Go(
                final(run)@,
                v@,
            ),
            Err(h) => captive_start_at(old(run).replies@, old(run)@, cfg@, opt_slice(dir), opt_slice(url)) == h.stop::<
                CaptiveBodyView,
            >(),
        },
{
    let mut state = match captive_detect(run, cfg, dir, url) {
        Ok(Ok(s)) => s,
        Ok(Err(e)) => return Err(Halt::Fail(e)),
        Err(h) => return Err(h),
    };
    if state.phase == CaptivePhase::ProbeDetected {
        state.phase = CaptivePhase::AwaitingCredentials;
    }
    store_and_answer(run, cfg, dir, state)
}

/// The answer to a request that starts a session.
#[verifier::opaque]
pub open spec fn captive_start(h: Seq<Reply>, m: Mark, cfg: ConfigView, dir: Option<Seq<char>>, empty: bool) -> Progress<
    CaptiveBodyView,
> {
    if empty {
        captive_start_at(h, m, cfg, dir, None)
    } else {
        match reply_at(h, m.pos) {
            Some(Reply::Decoded(Ok(Payload::CaptiveStart(p)))) => captive_start_at(h, m.read(), cfg, dir, opt_text(p.url)),
            Some(Reply::Decoded(Err(e))) => Progress::Fail(ErrorView::Permanent("invalid JSON payload: "@ + e@)),
            _ => Progress::Need(Ask::DecodePayload { kind: PayloadKind::CaptiveStart }),
        }
    }
}

/// Answers a request that starts a session.
pub fn handle_captive_start(run: &mut Run, cfg: &PluginConfig, dir: Option<&str>, empty: bool) -> (r: Result<
    CaptiveBody,
    Halt,
>)
    requires
        old(run).wf(),
    ensures
        final(run).follows(old(run)),
        match r {
            Ok(v) => captive_start(old(run).replies@, old(run)@, cfg@, opt_slice(dir), empty) == Progress::Go(
                final(run)@,
                v@,
            ),
            Err(h) => captive_start(old(run).replies@, old(run)@, cfg@, opt_slice(dir), empty) == h.stop::<
                CaptiveBodyView,
            >(),
        },
{
    proof {
        reveal(captive_start);
    }
    if empty {
        return captive_start_body(run, cfg, dir, None);
    }
    match run.next() {
        Some(Reply::Decoded(Ok(Payload::CaptiveStart(p)))) => captive_start_body(run, cfg, dir, as_slice(&p.url)),
        Some(Reply::Decoded(Err(e))) => Err(invalid_payload(e.as_str())),
        _ => Err(Halt::Need(Action::DecodePayload { kind: PayloadKind::CaptiveStart })),
    }
}

/// The answer to a request that submits credentials.
#[verifier::opaque]
pub open spec fn captive_submission(h: Seq<Reply>, m: Mark, cfg: ConfigView, dir: Option<Seq<char>>) -> Progress<
    CaptiveBodyView,
> {
    match reply_at(h, m.pos) {
        Some(Reply::Decoded(Ok(Payload::CaptiveSubmit(p)))) => match submitted(h, m.read(), cfg, dir, p@) {
            Progress::Go(m1, s) => stored_answer(h, m1, cfg, dir, s),
            Progress::Need(a) => Progress::Need(a),
            Progress::Fail(e) => Progress::Fail(e),
        },
        Some(Reply::Decoded(Err(e))) => Progress::Fail(ErrorView::Permanent("invalid JSON payload: "@ + e@)),
        _ => Progress::Need(Ask::DecodePayload { kind: PayloadKind::CaptiveSubmit }),
    }
}

/// Answers a request that submits credentials.
pub fn handle_captive_submit(run: &mut Run, cfg: &PluginConfig, dir: Option<&str>) -> (r: Result<CaptiveBody, Halt>)
    requires
        old(run).wf(),
    ensures
        final(run).follows(old(run)),
        match r {
            Ok(v) => captive_submission(old(run).replies@, old(run)@, cfg@, opt_slice(dir)) == Progress::Go(
                final(run)@,
                v@,
            ),
            Err(h) => captive_submission(old(run).replies@, old(run)@, cfg@, opt_slice(dir)) == h.stop::<
                CaptiveBodyView,
            >(),
        },
{
    proof {
        reveal(captive_submission);
    }
    match run.next() {
        Some(Reply::Decoded(Ok(Payload::CaptiveSubmit(p)))) => match captive_submit(run, cfg, dir, p) {
            Ok(s) => store_and_answer(run, cfg, dir, s),
            Err(h) => Err(h),
        },
        Some(Reply::Decoded(Err(e))) => Err(invalid_payload(e.as_str())),
        _ => Err(Halt::Need(Action::DecodePayload { kind: PayloadKind::CaptiveSubmit })),
    }
}

/// The session at its end, as the operator saw it.
pub open spec fn completed(s: CaptiveView, success: bool) -> CaptiveView {
    if success {
        CaptiveView {
            phase: CaptivePhase::Authenticated,
            last_error: None,
            requires_user_confirmation: false,
            ..s
        }
    } else {
        CaptiveView {
            phase: CaptivePhase::Failed,
            requires_user_confirmation: true,
            last_error: match s.last_error {
                Some(e) => Some(e),
                None => Some("captive completion marked as failed"@),
            },
            ..s
        }
    }
}

/// Ends a session, as [`completed`] says.
pub fn complete_session(state: CaptiveSessionState, success: bool) -> (r: CaptiveSessionState)
    ensures
        r@ == completed(state@, success),
{
    let mut state = state;
    if success {
        state.phase = CaptivePhase::Authenticated;
        state.last_error = None;
        state.requires_user_confirmation = false;
    } else {
        state.phase = CaptivePhase::Failed;
        state.requires_user_confirmation = true;
        if state.last_error.is_none() {
            state.last_error = Some("captive completion marked as failed".to_owned());
        }
    }
    state
}

/// The outcome that a request to end a session reports: success unless it says
/// otherwise.
pub open spec fn completion_asked(h: Seq<Reply>, m: Mark, empty: bool) -> Progress<bool> {
    if empty {
        Progress::Go(m, true)
    } else {
        match reply_at(h, m.pos) {
            Some(Reply::Decoded(Ok(Payload::CaptiveComplete(p)))) => Progress::Go(
                m.read(),
                match p.success {
                    Some(b) => b,
                    None => true,
                },
            ),
            Some(Reply::Decoded(Err(e))) => Progress::Fail(ErrorView::Permanent("invalid JSON payload: "@ + e@)),
            _ => Progress::Need(Ask::DecodePayload { kind: PayloadKind::CaptiveComplete }),
        }
    }
}

/// The answer to a request that ends a session.
#[verifier::opaque]
pub open spec fn captive_complete(h: Seq<Reply>, m: Mark, cfg: ConfigView, dir: Option<Seq<char>>, empty: bool) -> Progress<
    CaptiveBodyView,
> {
    match completion_asked(h, m, empty) {
        Progress::Go(m1, success) => match captive_loaded(h, m1, dir) {
            Progress::Go(m2, s) => stored_answer(h, m2, cfg, dir, completed(s, success)),
            Progress::Need(a) => Progress::Need(a),
            Progress::Fail(e) => Progress::Fail(e),
        },
        Progress::Need(a) => Progress::Need(a),
        Progress::Fail(e) => Progress::Fail(e),
    }
}

/// Answers a request that ends a session.
pub fn handle_captive_complete(run: &mut Run, cfg: &PluginConfig, dir: Option<&str>, empty: bool) -> (r: Result<
    CaptiveBody,
    Halt,
>)
    requires
        old(run).wf(),
    ensures
        final(run).follows(old(run)),
        match r {
            Ok(v) => captive_complete(old(run).replies@, old(run)@, cfg@, opt_slice(dir), empty) == Progress::Go(
                final(run)@,
                v@,
            ),
            Err(h) => captive_complete(old(run).replies@, old(run)@, cfg@, opt_slice(dir), empty) == h.stop::<
                CaptiveBodyView,
            >(),
        },
{
    proof {
        reveal(captive_complete);
    }
    let mut success = true;
    if !empty {
        match run.next() {
            Some(Reply::Decoded(Ok(Payload::CaptiveComplete(p)))) => {
                if let Some(b) = p.success {
                    success = b;
                }
            },
            Some(Reply::Decoded(Err(e))) => return Err(invalid_payload(e.as_str())),
            _ => return Err(Halt::Need(Action::DecodePayload { kind: PayloadKind::CaptiveComplete })),
        }
    }
    match load_captive_state(run, dir) {
        Ok(s) => store_and_answer(run, cfg, dir, complete_session(s, success)),
        Err(h) => Err(h),
    }
}

/// The status says what three readings said: the devices, NetworkManager's own report
/// without the white space around it, and nothing but the complaint of the scan on the
/// configured Wi-Fi interface. A reading that failed leaves its complaint and nothing
/// else, and one failure is enough for a degraded network.
pub proof fn statuses_say_what_was_read(
    h: Seq<Reply>,
    m: Mark,
    cfg: ConfigView,
    m1: Mark,
    devices: Result<Seq<DeviceView>, ErrorView>,
    m2: Mark,
    general: Result<Seq<char>, ErrorView>,
    m3: Mark,
    networks: Result<Seq<ScanRowView>, ErrorView>,
) -> (v: StatusView)
    requires
        device_table(h, m, cfg) == Progress::Go(m1, devices),
        nmcli(h, m1, cfg, seq!["general"@, "status"@]) == Progress::Go(m2, general),
        scan(h, m2, cfg, Some(cfg.default_wifi_iface)) == Progress::Go(m3, networks),
    ensures
        status(h, m, cfg) == Progress::Go(m3, v),
        v.degraded <==> !(devices is Ok && general is Ok && networks is Ok),
        devices matches Ok(d) ==> v.devices == d && v.devices_error is None,
        devices matches Err(e) ==> v.devices.len() == 0 && v.devices_error == Some(e.text()),
        general matches Ok(raw) ==> v.general_status == Some(trimmed(raw)) && v.general_error is None,
        general matches Err(e) ==> v.general_status is None && v.general_error == Some(e.text()),
        networks matches Ok(_) ==> v.wifi_scan_error is None,
        networks matches Err(e) ==> v.wifi_scan_error == Some(e.text()),
        v.nmcli_path == cfg.nmcli_path,
        v.scan_ifname == cfg.default_wifi_iface,
{
    reveal(status);
    status_of(cfg, devices, general, networks)
}

/// A kept scan answers a request as long as it is not older than the configured time
/// to live: it is shown as it was kept, and nothing is scanned. An older one is never
/// shown as if it were fresh.
pub proof fn scans_are_reused_within_their_time(
    h: Seq<Reply>,
    m: Mark,
    cfg: ConfigView,
    cache: Map<Seq<char>, CachedView>,
    ifname: Seq<char>,
    now: u64,
)
    requires
        cfg.scan_cache_ttl_ms > 0,
        cache.contains_key(trimmed(ifname)),
        reply_at(h, m.pos) == Some(Reply::Now(now)),
    ensures
        now <= cache[trimmed(ifname)].captured_at + cfg.scan_cache_ttl_ms ==> {
            &&& scanned(h, m, cfg, cache, Some(ifname), false) matches Progress::Go(n, (v, k))
            &&& n == m.read()
            &&& k is None
            &&& v.available == cache[trimmed(ifname)].available
            &&& v.candidates == cache[trimmed(ifname)].candidates
            &&& v.cache_hit
            &&& !v.cache_stale
            &&& !v.refresh_requested
            &&& v.scan_error is None
        },
        now > cache[trimmed(ifname)].captured_at + cfg.scan_cache_ttl_ms ==> (scanned(
            h,
            m,
            cfg,
            cache,
            Some(ifname),
            false,
        ) matches Progress::Go(n, (v, k)) ==> v.cache_hit == v.cache_stale),
{
}

/// Where no scan may be reused (none was kept, none is to be, or a new one is asked
/// for), the answer holds what was scanned on the interface just now: the networks and
/// the access points. Where scans are kept, this one is kept under the interface's name,
/// with the time that it was taken at.
pub proof fn fresh_scans_are_shown_and_kept(
    h: Seq<Reply>,
    m: Mark,
    cfg: ConfigView,
    cache: Map<Seq<char>, CachedView>,
    ifname: Seq<char>,
    refresh: bool,
    m1: Mark,
    available: Seq<ScanRowView>,
    m2: Mark,
    candidates: Seq<CandidateView>,
)
    requires
        trimmed(ifname).len() > 0,
        refresh || cfg.scan_cache_ttl_ms == 0 || !cache.contains_key(trimmed(ifname)),
        scan(h, m, cfg, Some(trimmed(ifname))) == Progress::Go(m1, Ok::<Seq<ScanRowView>, ErrorView>(available)),
        scan_candidates(h, m1, cfg, Some(trimmed(ifname))) == Progress::Go(
            m2,
            Ok::<Seq<CandidateView>, ErrorView>(candidates),
        ),
    ensures
        cfg.scan_cache_ttl_ms == 0 ==> {
            &&& scanned(h, m, cfg, cache, Some(ifname), refresh) matches Progress::Go(n, (v, k))
            &&& n == m2
            &&& k is None
            &&& is_fresh(v, available, candidates, refresh)
        },
        cfg.scan_cache_ttl_ms > 0 ==> (reply_at(h, m2.pos) matches Some(Reply::Now(t)) ==> {
            &&& scanned(h, m, cfg, cache, Some(ifname), refresh) matches Progress::Go(n, (v, k))
            &&& n == m2.read()
            &&& is_fresh(v, available, candidates, refresh)
            &&& k matches Some((key, c))
            &&& key == trimmed(ifname)
            &&& c.available == available
            &&& c.candidates == candidates
            &&& c.captured_at == t
        }),
{
}

/// An answer that shows what was scanned just now.
pub open spec fn is_fresh(v: ScanBodyView, available: Seq<ScanRowView>, candidates: Seq<CandidateView>, refresh: bool) -> bool {
    &&& v.available == available
    &&& v.candidates == candidates
    &&& !v.cache_hit
    &&& !v.cache_stale
    &&& v.refresh_requested == refresh
    &&& v.scan_error is None
}

/// A request that names no interface is scanned on the configured one.
pub proof fn scans_default_to_the_configured_interface(
    h: Seq<Reply>,
    m: Mark,
    cfg: ConfigView,
    cache: Map<Seq<char>, CachedView>,
    refresh: bool,
)
    ensures
        scanned(h, m, cfg, cache, None, refresh) == scanned(h, m, cfg, cache, Some(cfg.default_wifi_iface), refresh),
{
}

/// A scan that fails is answered with the last one, however old, and with the
/// complaint; with nothing kept, the request fails with the scan's own error. Neither
/// keeps anything.
pub proof fn failed_scans_fall_back_on_the_last(
    h: Seq<Reply>,
    m: Mark,
    cfg: ConfigView,
    cache: Map<Seq<char>, CachedView>,
    ifname: Seq<char>,
    m1: Mark,
    e: ErrorView,
)
    requires
        trimmed(ifname).len() > 0,
        scan(h, m, cfg, Some(trimmed(ifname))) == Progress::Go(m1, Err::<Seq<ScanRowView>, ErrorView>(e)),
    ensures
        cache.contains_key(trimmed(ifname)) ==> {
            &&& scanned(h, m, cfg, cache, Some(ifname), true) matches Progress::Go(n, (v, k))
            &&& n == m1
            &&& k is None
            &&& v.available == cache[trimmed(ifname)].available
            &&& v.candidates == cache[trimmed(ifname)].candidates
            &&& v.cache_hit
            &&& v.cache_stale
            &&& v.refresh_requested
            &&& v.scan_error == Some(e.text())
        },
        !cache.contains_key(trimmed(ifname)) ==> scanned(h, m, cfg, cache, Some(ifname), true) == Progress::<
            (ScanBodyView, Kept),
        >::Fail(e),
{
}

/// A scan request is answered on the interface and with the refresh that its payload
/// asks for; without a payload it asks for neither. What cannot be decoded is refused.
pub proof fn scan_requests_get_what_they_ask(
    h: Seq<Reply>,
    m: Mark,
    cfg: ConfigView,
    cache: Map<Seq<char>, CachedView>,
)
    ensures
        scan_answer(h, m, cfg, cache, true) == scanned(h, m, cfg, cache, None, false),
        reply_at(h, m.pos) matches Some(Reply::Decoded(Ok(Payload::Scan(p)))) ==> scan_answer(h, m, cfg, cache, false)
            == scanned(h, m.read(), cfg, cache, opt_text(p.ifname), p.refresh),
        reply_at(h, m.pos) matches Some(Reply::Decoded(Err(e))) ==> scan_answer(h, m, cfg, cache, false) == Progress::<
            (ScanBodyView, Kept),
        >::Fail(ErrorView::Permanent("invalid JSON payload: "@ + e@)),
{
    reveal(scan_answer);
}

/// A request for the intent is answered with the stored one and with whether a
/// passphrase is stored: the client's in its file, the hotspot's in its own.
pub proof fn shown_intents_are_the_stored_ones(
    h: Seq<Reply>,
    m: Mark,
    cfg: ConfigView,
    dir: Seq<char>,
    m1: Mark,
    intent: IntentView,
    m2: Mark,
    sta: Option<Seq<char>>,
    m3: Mark,
    ap: Option<Seq<char>>,
)
    requires
        intent_loaded(h, m, Some(dir)) == Progress::Go(m1, intent),
        secret_read(h, m1, cfg, joined(dir, "wifi-sta.psk"@)) == Progress::Go(m2, sta),
        secret_read(h, m2, cfg, joined(dir, "wifi-ap.psk"@)) == Progress::Go(m3, ap),
    ensures
        intent_get(h, m, cfg, Some(dir)) matches Progress::Go(n, v) && {
            &&& n == m3
            &&& v.intent == intent
            &&& v.sta_psk_configured <==> sta is Some
            &&& v.ap_psk_configured <==> ap is Some
        },
{
    reveal(intent_get);
}

/// A request that sets an intent stores the intent, the client's passphrase in its
/// file and the hotspot's in its own, in this order. Where it asks for it, the intent is
/// then applied with these passphrases, and the answer is the report and its notices;
/// otherwise the answer is empty.
pub proof fn set_intents_are_stored_and_applied(
    h: Seq<Reply>,
    m: Mark,
    cfg: ConfigView,
    dir: Seq<char>,
    m1: Mark,
    m2: Mark,
    m3: Mark,
    m4: Mark,
    report: ReportView,
)
    ensures
        reply_at(h, m.pos) matches Some(Reply::Decoded(Ok(Payload::IntentSet(p)))) ==> {
            intent_saved(h, m.read(), Some(dir), p.intent@) == Progress::Go(m1, ()) && secret_written(
                h,
                m1,
                cfg,
                joined(dir, "wifi-sta.psk"@),
                opt_text(p.sta_psk),
            ) == Progress::Go(m2, ()) && secret_written(h, m2, cfg, joined(dir, "wifi-ap.psk"@), opt_text(p.ap_psk))
                == Progress::Go(m3, ()) ==> {
                &&& !p.apply ==> (intent_set(h, m, cfg, Some(dir)) matches Progress::Go(n, v) && n == m3 && v.apply is None
                    && v.notices.len() == 0)
                &&& p.apply && applied(h, m3, cfg, p.intent@, opt_text(p.sta_psk), opt_text(p.ap_psk)) == Progress::Go(
                    m4,
                    report,
                ) ==> (intent_set(h, m, cfg, Some(dir)) matches Progress::Go(n, v) && n == m4 && v.apply == Some(report)
                    && v.notices == apply_notices(report))
            }
        },
{
    reveal(intent_set);
}

/// An answer to a request that sets an intent comes only once the intent and both
/// passphrases are stored; and it holds a report exactly where it was to be applied.
pub proof fn set_intents_are_stored_first(h: Seq<Reply>, m: Mark, cfg: ConfigView, dir: Seq<char>) -> (r: (Mark, Mark, Mark))
    requires
        intent_set(h, m, cfg, Some(dir)) is Go,
    ensures
        reply_at(h, m.pos) matches Some(Reply::Decoded(Ok(Payload::IntentSet(p)))) && {
            &&& intent_saved(h, m.read(), Some(dir), p.intent@) == Progress::Go(r.0, ())
            &&& secret_written(h, r.0, cfg, joined(dir, "wifi-sta.psk"@), opt_text(p.sta_psk)) == Progress::Go(r.1, ())
            &&& secret_written(h, r.1, cfg, joined(dir, "wifi-ap.psk"@), opt_text(p.ap_psk)) == Progress::Go(r.2, ())
            &&& intent_set(h, m, cfg, Some(dir))->Go_1.apply is Some <==> p.apply
        },
{
    reveal(intent_set);
    let p = reply_at(h, m.pos)->0->Decoded_0->Ok_0->IntentSet_0;
    let m1 = intent_saved(h, m.read(), Some(dir), p.intent@)->Go_0;
    let m2 = secret_written(h, m1, cfg, joined(dir, "wifi-sta.psk"@), opt_text(p.sta_psk))->Go_0;
    let m3 = secret_written(h, m2, cfg, joined(dir, "wifi-ap.psk"@), opt_text(p.ap_psk))->Go_0;
    (m1, m2, m3)
}

/// A request that applies an intent applies the one in its payload, or else the stored
/// one, with the stored passphrases: the client's out of its file, the hotspot's out of
/// its own. The answer is the report and its notices.
pub proof fn applied_intents_use_the_stored_passphrases(
    h: Seq<Reply>,
    m: Mark,
    cfg: ConfigView,
    dir: Seq<char>,
    empty: bool,
    m1: Mark,
    intent: IntentView,
    m2: Mark,
    sta: Option<Seq<char>>,
    m3: Mark,
    ap: Option<Seq<char>>,
    m4: Mark,
    report: ReportView,
)
    requires
        if empty {
            intent_loaded(h, m, Some(dir)) == Progress::Go(m1, intent)
        } else {
            reply_at(h, m.pos) matches Some(Reply::Decoded(Ok(Payload::IntentApply(p)))) && match p.intent {
                Some(i) => m1 == m.read() && intent == i@,
                None => intent_loaded(h, m.read(), Some(dir)) == Progress::Go(m1, intent),
            }
        },
        secret_read(h, m1, cfg, joined(dir, "wifi-sta.psk"@)) == Progress::Go(m2, sta),
        secret_read(h, m2, cfg, joined(dir, "wifi-ap.psk"@)) == Progress::Go(m3, ap),
        applied(h, m3, cfg, intent, sta, ap) == Progress::Go(m4, report),
    ensures
        intent_apply(h, m, cfg, Some(dir), empty) matches Progress::Go(n, v) && n == m4 && v.apply == Some(report)
            && v.notices == apply_notices(report),
{
    reveal(intent_apply);
}

/// A request for the session's status shows the connectivity that NetworkManager
/// reports. Without a probe it shows the stored session; with one, the session that the
/// probe found, which is stored first; a probe that fails marks the stored session as
/// failed, with its complaint, and stores nothing.
pub proof fn session_statuses_are_current(
    h: Seq<Reply>,
    m: Mark,
    cfg: ConfigView,
    dir: Option<Seq<char>>,
    url: Option<Seq<char>>,
    m1: Mark,
    s: CaptiveView,
    m2: Mark,
    c: Option<Seq<char>>,
    m3: Mark,
    found: Result<CaptiveView, ErrorView>,
    m4: Mark,
)
    requires
        captive_loaded(h, m, dir) == Progress::Go(m1, s),
        connectivity(h, m1, cfg) == Progress::Go(m2, c),
    ensures
        captive_status_of(h, m, cfg, dir, false, url) matches Progress::Go(n, v) && n == m2 && v.captive == s
            && v.connectivity == Some(c),
        detected(h, m2, cfg, dir, url) == Progress::Go(m3, found) ==> match found {
            Ok(t) => captive_saved(h, m3, dir, t) == Progress::Go(m4, ()) ==> (captive_status_of(
                h,
                m,
                cfg,
                dir,
                true,
                url,
            ) matches Progress::Go(n, v) && n == m4 && v.captive == t && v.connectivity == Some(c)),
            Err(e) => captive_status_of(h, m, cfg, dir, true, url) matches Progress::Go(n, v) && {
                &&& n == m3
                &&& v.connectivity == Some(c)
                &&& v.captive.phase == CaptivePhase::Failed
                &&& v.captive.last_error == Some(e.text())
                &&& v.captive == (CaptiveView { phase: v.captive.phase, last_error: v.captive.last_error, ..s })
            },
        },
{
}

/// A request about the session asks for what its payload says; without a payload, the
/// status is probed at no particular address, a session starts at none either, and a
/// session ends well.
pub proof fn session_requests_get_what_they_ask(h: Seq<Reply>, m: Mark, cfg: ConfigView, dir: Option<Seq<char>>)
    ensures
        captive_status(h, m, cfg, dir, true) == captive_status_of(h, m, cfg, dir, true, None),
        reply_at(h, m.pos) matches Some(Reply::Decoded(Ok(Payload::CaptiveStatus(p)))) ==> captive_status(
            h,
            m,
            cfg,
            dir,
            false,
        ) == captive_status_of(h, m.read(), cfg, dir, p.probe, opt_text(p.url)),
        captive_start(h, m, cfg, dir, true) == captive_start_at(h, m, cfg, dir, None),
        reply_at(h, m.pos) matches Some(Reply::Decoded(Ok(Payload::CaptiveStart(p)))) ==> captive_start(
            h,
            m,
            cfg,
            dir,
            false,
        ) == captive_start_at(h, m.read(), cfg, dir, opt_text(p.url)),
        completion_asked(h, m, true) == Progress::Go(m, true),
        reply_at(h, m.pos) matches Some(Reply::Decoded(Ok(Payload::CaptiveComplete(p)))) ==> completion_asked(
            h,
            m,
            false,
        ) == Progress::Go(m.read(), !(p.success matches Some(b) && !b)),
{
    reveal(captive_status);
    reveal(captive_start);
}

/// A session that starts is the one that the probe found, but that a portal that was
/// met now waits for credentials. It is stored before it is shown.
pub proof fn started_sessions_wait_for_credentials(
    h: Seq<Reply>,
    m: Mark,
    cfg: ConfigView,
    dir: Option<Seq<char>>,
    url: Option<Seq<char>>,
    m1: Mark,
    s: CaptiveView,
)
    requires
        detected(h, m, cfg, dir, url) == Progress::Go(m1, Ok::<CaptiveView, ErrorView>(s)),
        captive_start_at(h, m, cfg, dir, url) is Go,
    ensures
        ({
            let v = captive_start_at(h, m, cfg, dir, url)->Go_1;
            &&& captive_saved(h, m1, dir, v.captive) == Progress::Go(captive_start_at(h, m, cfg, dir, url)->Go_0, ())
            &&& v.captive.phase != CaptivePhase::ProbeDetected
            &&& s.phase == CaptivePhase::ProbeDetected ==> v.captive.phase == CaptivePhase::AwaitingCredentials
            &&& s.phase != CaptivePhase::ProbeDetected ==> v.captive.phase == s.phase
            &&& v.captive == (CaptiveView { phase: v.captive.phase, ..s })
            &&& v.connectivity is None
        }),
{
}

/// The session that a submission leaves is stored before it is shown.
pub proof fn submitted_sessions_are_stored(
    h: Seq<Reply>,
    m: Mark,
    cfg: ConfigView,
    dir: Option<Seq<char>>,
    m1: Mark,
    s: CaptiveView,
    m2: Mark,
)
    ensures
        reply_at(h, m.pos) matches Some(Reply::Decoded(Ok(Payload::CaptiveSubmit(p)))) ==> (submitted(
            h,
            m.read(),
            cfg,
            dir,
            p@,
        ) == Progress::Go(m1, s) && captive_saved(h, m1, dir, s) == Progress::Go(m2, ()) ==> (captive_submission(
            h,
            m,
            cfg,
            dir,
        ) matches Progress::Go(n, v) && n == m2 && v.captive == s && v.connectivity is None)),
{
    reveal(captive_submission);
}

/// A session ends as the operator says. One that ended well is authenticated, without a
/// complaint and with nothing to confirm; any other has failed, keeps its complaint or
/// gets one, and its replay has to be confirmed. Everything else of it stays, and it is
/// stored before it is shown.
pub proof fn ended_sessions_are_stored(
    h: Seq<Reply>,
    m: Mark,
    cfg: ConfigView,
    dir: Option<Seq<char>>,
    empty: bool,
    m1: Mark,
    success: bool,
    m2: Mark,
    s: CaptiveView,
)
    requires
        completion_asked(h, m, empty) == Progress::Go(m1, success),
        captive_loaded(h, m1, dir) == Progress::Go(m2, s),
        captive_complete(h, m, cfg, dir, empty) is Go,
    ensures
        ({
            let v = captive_complete(h, m, cfg, dir, empty)->Go_1.captive;
            &&& captive_saved(h, m2, dir, v) == Progress::Go(captive_complete(h, m, cfg, dir, empty)->Go_0, ())
            &&& success ==> v.phase == CaptivePhase::Authenticated && v.last_error is None
                && !v.requires_user_confirmation
            &&& !success ==> v.phase == CaptivePhase::Failed && v.requires_user_confirmation && v.last_error is Some
            &&& !success && s.last_error is Some ==> v.last_error == s.last_error
            &&& !success && s.last_error is None ==> v.last_error == Some("captive completion marked as failed"@)
            &&& v == (CaptiveView {
                phase: v.phase,
                last_error: v.last_error,
                requires_user_confirmation: v.requires_user_confirmation,
                ..s
            })
        }),
{
    reveal(captive_complete);
}

/// Every answer with a session shows what can be done next with that very session, what
/// there is to say of it and, where the connectivity was asked for, of the connectivity
/// before; and the policy that the plugin was configured with.
pub proof fn sessions_are_shown_with_their_notices(cfg: ConfigView, s: CaptiveView, c: Option<Seq<char>>)
    ensures
        session_answer(cfg, s, Some(c)).captive == s,
        session_answer(cfg, s, None).captive == s,
        session_answer(cfg, s, Some(c)).reliability == cfg.captive,
        session_answer(cfg, s, None).reliability == cfg.captive,
        session_answer(cfg, s, Some(c)).actions == captive_actions(s),
        session_answer(cfg, s, None).actions == captive_actions(s),
        session_answer(cfg, s, None).notices == phase_notices(s),
        session_answer(cfg, s, Some(c)).notices == connectivity_notices(c) + phase_notices(s),
        session_answer(cfg, s, Some(c)).connectivity == Some(c),
        session_answer(cfg, s, None).connectivity is None,
{
    assert(session_answer(cfg, s, None).notices =~= phase_notices(s));
}

/// A session that can be stored is answered, whether it starts, was submitted or ends; a
/// probe that fails at the start is the answer's error.
pub proof fn storable_sessions_are_answered(
    h: Seq<Reply>,
    m: Mark,
    cfg: ConfigView,
    dir: Option<Seq<char>>,
    url: Option<Seq<char>>,
    m1: Mark,
    s: CaptiveView,
    e: ErrorView,
    success: bool,
    m2: Mark,
)
    ensures
        detected(h, m, cfg, dir, url) == Progress::Go(m1, Err::<CaptiveView, ErrorView>(e)) ==> captive_start_at(
            h,
            m,
            cfg,
            dir,
            url,
        ) == Progress::<CaptiveBodyView>::Fail(e),
        detected(h, m, cfg, dir, url) == Progress::Go(m1, Ok::<CaptiveView, ErrorView>(s)) && captive_saved(
            h,
            m1,
            dir,
            (CaptiveView {
                phase: if s.phase == CaptivePhase::ProbeDetected {
                    CaptivePhase::AwaitingCredentials
                } else {
                    s.phase
                },
                ..s
            }),
        ) is Go ==> captive_start_at(h, m, cfg, dir, url) is Go,
        completion_asked(h, m, true) == Progress::Go(m1, success) && captive_loaded(h, m1, dir) == Progress::Go(m2, s)
            && captive_saved(
            h,
            m2,
            dir,
            (CaptiveView { phase: CaptivePhase::Authenticated, last_error: None, requires_user_confirmation: false, ..s }),
        ) is Go ==> captive_complete(h, m, cfg, dir, true) is Go,
{
    reveal(captive_complete);
    if s.phase != CaptivePhase::ProbeDetected {
        assert((CaptiveView { phase: s.phase, ..s }) == s);
    }
}

/// Each field is seen under its own name, as it is.
pub proof fn fields_are_seen_under_their_names(
    status_body: StatusBody,
    scan_body: ScanBody,
    intent_get_body: IntentGetBody,
    apply_body: ApplyBody,
    captive_body: CaptiveBody,
)
    ensures
        status_body@.degraded == status_body.degraded,
        status_body@.nmcli_path == status_body.nmcli_path@,
        status_body@.general_status == opt_text(status_body.general_status),
        status_body@.general_error == opt_text(status_body.general_error),
        status_body@.devices == device_views(status_body.devices@),
        status_body@.devices_error == opt_text(status_body.devices_error),
        status_body@.scan_ifname == status_body.scan_ifname@,
        status_body@.wifi_scan_error == opt_text(status_body.wifi_scan_error),
        scan_body@.available == scan_views(scan_body.available@),
        scan_body@.candidates == candidate_views(scan_body.candidates@),
        scan_body@.cache_hit == scan_body.cache_hit,
        scan_body@.cache_stale == scan_body.cache_stale,
        scan_body@.refresh_requested == scan_body.refresh_requested,
        scan_body@.scan_error == opt_text(scan_body.scan_error),
        intent_get_body@.intent == intent_get_body.intent@,
        intent_get_body@.sta_psk_configured == intent_get_body.sta_psk_configured,
        intent_get_body@.ap_psk_configured == intent_get_body.ap_psk_configured,
        apply_body@.apply == opt_report(apply_body.apply),
        apply_body@.notices == notice_views(apply_body.notices@),
        captive_body@.connectivity == asked_connectivity(captive_body.connectivity),
        captive_body@.captive == captive_body.captive@,
        captive_body@.notices == notice_views(captive_body.notices@),
        captive_body@.actions == action_views(captive_body.actions@),
        captive_body@.reliability == captive_body.reliability,
{
}

} // verus!
