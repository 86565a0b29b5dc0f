//! The network plugin: its life cycle and the dispatch of its requests.

use crate::config_value::ConfigTable;
use crate::error::{permanent, transient, ErrorView, PluginError};
use crate::network::config::{config_complaint, config_defaults, config_of, ConfigView, PluginConfig, SecretEnvironment};
use crate::network::intent::{NetworkIntent, WifiIntent};
use crate::network::notices::{
    REQUEST_NETWORK_CAPTIVE_COMPLETE, REQUEST_NETWORK_CAPTIVE_START, REQUEST_NETWORK_CAPTIVE_SUBMIT,
};
use crate::network::profiles::{
    effective_hotspot_ifname, effective_wifi_ifname, hotspot_connection_name, hotspot_ifname, hotspot_name, wifi_ifname,
};
use crate::network::readings::{candidate_views, choose_candidate, selected, WifiStaCandidate};
use crate::network::requests::{
    captive_complete, captive_start, captive_status, captive_submission, handle_captive_complete, handle_captive_start,
    handle_captive_status, handle_captive_submit, handle_intent_apply, handle_intent_get, handle_intent_set,
    handle_scan, handle_status, intent_apply, intent_get, intent_set, kept, scan_answer, status, ApplyBody, ApplyView,
    CaptiveBody, CaptiveBodyView, IntentGetBody, IntentGetView, Keep, Kept, ScanBody, ScanBodyView, StatusBody,
    StatusView,
};
use crate::network::scan_cache::{CachedView, ScanCache};
use crate::network::secrets::text_result;
use crate::network::storage::{state_file, state_path, AP_PSK_FILE, CAPTIVE_FILE, INTENT_FILE, STA_PSK_FILE};
use crate::network::transcript::{reply_at, Action, Ask, Halt, Mark, Payload, Progress, Reply, Run};
use crate::network::vif::links_numbered;
use crate::number::{debug_text, quoted};
use crate::text::{cat, opt_slice, opt_text, owned, text_eq, texts};
use vstd::prelude::*;

verus! {

/// The name of the plugin.
pub const PLUGIN_NAME: &'static str = "org.evoframework.network.nm";

/// The request for the network's status.
pub const REQUEST_NETWORK_STATUS: &'static str = "network.nm.status";

/// The request for the networks in sight.
pub const REQUEST_NETWORK_SCAN: &'static str = "network.nm.scan";

/// The request for the stored intent.
pub const REQUEST_NETWORK_INTENT_GET: &'static str = "network.nm.intent.get";

/// The request that stores an intent.
pub const REQUEST_NETWORK_INTENT_SET: &'static str = "network.nm.intent.set";

/// The request that applies an intent.
pub const REQUEST_NETWORK_INTENT_APPLY: &'static str = "network.nm.intent.apply";

/// The request for the captive-portal status.
pub const REQUEST_NETWORK_CAPTIVE_STATUS: &'static str = "network.nm.captive.status";

/// A request as it reaches the plugin, before its payload is decoded.
#[derive(Debug, Clone)]
pub struct NetworkRequest {
    pub request_type: String,
    pub correlation_id: u64,
    /// Whether its deadline had passed when it arrived.
    pub past_deadline: bool,
    /// Whether it has no payload.
    pub payload_empty: bool,
}

/// What is said of a request beside its answer.
#[derive(Debug, Clone)]
pub struct Observability {
    pub request_type: String,
    pub correlation_id: u64,
    pub requests_handled: u64,
    pub secret_encryption: bool,
    pub secret_encryption_required: bool,
}

/// [`Observability`] over mathematical values.
#[verifier::ext_equal]
pub struct ObservabilityView {
    pub request_type: Seq<char>,
    pub correlation_id: u64,
    pub requests_handled: u64,
    pub secret_encryption: bool,
    pub secret_encryption_required: bool,
}

impl View for Observability {
    type V = ObservabilityView;

    open spec fn view(&self) -> ObservabilityView {
        ObservabilityView {
            request_type: self.request_type@,
            correlation_id: self.correlation_id,
            requests_handled: self.requests_handled,
            secret_encryption: self.secret_encryption,
            secret_encryption_required: self.secret_encryption_required,
        }
    }
}

/// The answer to a request.
#[derive(Debug, Clone)]
pub enum ResponseBody {
    Status(StatusBody),
    Scan(ScanBody),
    IntentGet(IntentGetBody),
    IntentSet(ApplyBody),
    IntentApply(ApplyBody),
    Captive(CaptiveBody),
}

/// [`ResponseBody`] over mathematical values.
pub enum BodyView {
    Status(StatusView),
    Scan(ScanBodyView),
    IntentGet(IntentGetView),
    IntentSet(ApplyView),
    IntentApply(ApplyView),
    Captive(CaptiveBodyView),
}

impl View for ResponseBody {
    type V = BodyView;

    open spec fn view(&self) -> BodyView {
        match self {
            ResponseBody::Status(b) => BodyView::Status(b@),
            ResponseBody::Scan(b) => BodyView::Scan(b@),
            ResponseBody::IntentGet(b) => BodyView::IntentGet(b@),
            ResponseBody::IntentSet(b) => BodyView::IntentSet(b@),
            ResponseBody::IntentApply(b) => BodyView::IntentApply(b@),
            ResponseBody::Captive(b) => BodyView::Captive(b@),
        }
    }
}

/// The answer to a request, with what is said of it beside.
#[derive(Debug, Clone)]
pub struct NetworkResponse {
    pub body: ResponseBody,
    pub observability: Observability,
}

/// [`NetworkResponse`] over mathematical values.
pub struct ResponseView {
    pub body: BodyView,
    pub observability: ObservabilityView,
}

impl View for NetworkResponse {
    type V = ResponseView;

    open spec fn view(&self) -> ResponseView {
        ResponseView { body: self.body@, observability: self.observability@ }
    }
}

/// The network plugin.
pub struct NetworkNmPlugin {
    pub loaded: bool,
    pub config: PluginConfig,
    pub state_dir: Option<String>,
    pub requests_handled: u64,
    pub scan_cache: ScanCache,
}

/// [`NetworkNmPlugin`] over mathematical values.
#[verifier::ext_equal]
pub struct PluginView {
    pub loaded: bool,
    pub config: ConfigView,
    pub state_dir: Option<Seq<char>>,
    pub requests_handled: u64,
    pub scan_cache: Map<Seq<char>, CachedView>,
}

impl View for NetworkNmPlugin {
    type V = PluginView;

    open spec fn view(&self) -> PluginView {
        PluginView {
            loaded: self.loaded,
            config: self.config@,
            state_dir: opt_text(self.state_dir),
            requests_handled: self.requests_handled,
            scan_cache: self.scan_cache@,
        }
    }
}

/// An environment that says nothing.
pub open spec fn silent_environment(env: SecretEnvironment) -> bool {
    env.key is None && env.require is None
}

/// A plugin that was just made.
pub open spec fn fresh_plugin(v: PluginView) -> bool {
    &&& !v.loaded
    &&& exists|env: SecretEnvironment| silent_environment(env) && v.config == #[trigger] config_defaults(env)
    &&& v.state_dir is None
    &&& v.requests_handled == 0
    &&& v.scan_cache == Map::<Seq<char>, CachedView>::empty()
}

/// Where the handling of a request ends: at an action, or with the plugin as it then is
/// and the answer.
pub enum Outcome {
    Need(Ask),
    Done(PluginView, Result<ResponseView, ErrorView>),
}

/// A piece of an answer and what its scan keeps.
pub open spec fn with_body<V>(p: Progress<V>, wrap: spec_fn(V) -> BodyView) -> Progress<(BodyView, Kept)> {
    match p {
        Progress::Go(m, v) => Progress::Go(m, (wrap(v), None)),
        Progress::Need(a) => Progress::Need(a),
        Progress::Fail(e) => Progress::Fail(e),
    }
}

/// The answer to a request of a given type.
#[verifier::opaque]
pub open spec fn answer(h: Seq<Reply>, p: PluginView, kind: Seq<char>, empty: bool) -> Progress<(BodyView, Kept)> {
    let m = Mark { pos: 0, log: Seq::<Seq<char>>::empty() };
    let cfg = p.config;
    let dir = p.state_dir;
    if kind == REQUEST_NETWORK_STATUS@ {
        with_body(status(h, m, cfg), |v: StatusView| BodyView::Status(v))
    } else if kind == REQUEST_NETWORK_SCAN@ {
        match scan_answer(h, m, cfg, p.scan_cache, empty) {
            Progress::Go(m1, (b, k)) => Progress::Go(m1, (BodyView::Scan(b), k)),
            Progress::Need(a) => Progress::Need(a),
            Progress::Fail(e) => Progress::Fail(e),
        }
    } else if kind == REQUEST_NETWORK_INTENT_GET@ {
        with_body(intent_get(h, m, cfg, dir), |v: IntentGetView| BodyView::IntentGet(v))
    } else if kind == REQUEST_NETWORK_INTENT_SET@ {
        with_body(intent_set(h, m, cfg, dir), |v: ApplyView| BodyView::IntentSet(v))
    } else if kind == REQUEST_NETWORK_INTENT_APPLY@ {
        with_body(intent_apply(h, m, cfg, dir, empty), |v: ApplyView| BodyView::IntentApply(v))
    } else if kind == REQUEST_NETWORK_CAPTIVE_STATUS@ {
        with_body(captive_status(h, m, cfg, dir, empty), |v: CaptiveBodyView| BodyView::Captive(v))
    } else if kind == REQUEST_NETWORK_CAPTIVE_START@ {
        with_body(captive_start(h, m, cfg, dir, empty), |v: CaptiveBodyView| BodyView::Captive(v))
    } else if kind == REQUEST_NETWORK_CAPTIVE_SUBMIT@ {
        with_body(captive_submission(h, m, cfg, dir), |v: CaptiveBodyView| BodyView::Captive(v))
    } else if kind == REQUEST_NETWORK_CAPTIVE_COMPLETE@ {
        with_body(captive_complete(h, m, cfg, dir, empty), |v: CaptiveBodyView| BodyView::Captive(v))
    } else {
        Progress::Fail(ErrorView::Permanent("unknown request type: "@ + debug_text(kind)))
    }
}

/// The cache after a request: a scan may keep its result; storing an intent forgets
/// every scan as soon as the request is understood, applying one when it is done.
pub open spec fn cache_after(h: Seq<Reply>, p: PluginView, kind: Seq<char>, a: Progress<(BodyView, Kept)>) -> Map<
    Seq<char>,
    CachedView,
> {
    if kind == REQUEST_NETWORK_INTENT_SET@ {
        if reply_at(h, 0) matches Some(Reply::Decoded(Ok(Payload::IntentSet(_)))) {
            Map::empty()
        } else {
            p.scan_cache
        }
    } else if kind == REQUEST_NETWORK_INTENT_APPLY@ {
        if a is Go {
            Map::empty()
        } else {
            p.scan_cache
        }
    } else {
        match a {
            Progress::Go(_, (_, Some((key, scan)))) => p.scan_cache.insert(key, scan),
            _ => p.scan_cache,
        }
    }
}

/// What is said of a request beside its answer.
pub open spec fn observed(p: PluginView, kind: Seq<char>, correlation_id: u64) -> ObservabilityView {
    ObservabilityView {
        request_type: kind,
        correlation_id,
        requests_handled: p.requests_handled,
        secret_encryption: p.config.secret_key is Some,
        secret_encryption_required: p.config.require_encrypted_secrets,
    }
}

/// What handling a request comes to: a plugin that is not loaded and a request that
/// comes too late are refused and not counted; every other request is counted and
/// answered.
pub open spec fn handled(h: Seq<Reply>, p: PluginView, req: NetworkRequest) -> Outcome {
    let kind = req.request_type@;
    if !p.loaded {
        Outcome::Done(p, Err(ErrorView::Permanent("network plugin not loaded"@)))
    } else if req.past_deadline {
        Outcome::Done(p, Err(ErrorView::Transient("request deadline already expired"@)))
    } else {
        let a = answer(h, p, kind, req.payload_empty);
        let after = PluginView {
            requests_handled: (p.requests_handled + 1) as u64,
            scan_cache: cache_after(h, p, kind, a),
            ..p
        };
        match a {
            Progress::Go(_, (body, _)) => Outcome::Done(
                after,
                Ok(ResponseView { body, observability: observed(after, kind, req.correlation_id) }),
            ),
            Progress::Need(ask) => Outcome::Need(ask),
            Progress::Fail(e) => Outcome::Done(after, Err(e)),
        }
    }
}

/// The view of what handling a request came to.
pub open spec fn outcome(r: Result<Result<NetworkResponse, PluginError>, Action>, p: PluginView) -> Outcome {
    match r {
        Ok(Ok(v)) => Outcome::Done(p, Ok(v@)),
        Ok(Err(e)) => Outcome::Done(p, Err(e@)),
        Err(a) => Outcome::Need(a@),
    }
}

/// A plugin that is not loaded, and a request that comes too late, change nothing: the
/// request is refused whatever the world has replied, and it is not counted.
pub proof fn refused_requests_change_nothing(h: Seq<Reply>, p: PluginView, req: NetworkRequest)
    requires
        !p.loaded || req.past_deadline,
    ensures
        handled(h, p, req) is Done,
        handled(h, p, req)->Done_0 == p,
        handled(h, p, req)->Done_1 is Err,
{
}

/// Every other request is counted once when it is done, and leaves the settings and the
/// state directory as they are; its answer, where it has one, names the request and the
/// count.
pub proof fn done_requests_are_counted_and_named(h: Seq<Reply>, p: PluginView, req: NetworkRequest)
    requires
        p.loaded,
        !req.past_deadline,
        p.requests_handled < u64::MAX,
        handled(h, p, req) is Done,
    ensures
        handled(h, p, req)->Done_0.requests_handled == p.requests_handled + 1,
        handled(h, p, req)->Done_0.loaded,
        handled(h, p, req)->Done_0.config == p.config,
        handled(h, p, req)->Done_0.state_dir == p.state_dir,
        handled(h, p, req)->Done_1 matches Ok(v) ==> {
            &&& v.observability.request_type == req.request_type@
            &&& v.observability.correlation_id == req.correlation_id
            &&& v.observability.requests_handled == p.requests_handled + 1
        },
{
}

impl PluginView {
    /// The plugin after loading.
    pub open spec fn after_load(self, table: ConfigTable, env: SecretEnvironment, dir: Seq<char>) -> PluginView {
        if config_complaint(table) is Some {
            self
        } else {
            PluginView {
                loaded: true,
                config: config_of(table, env),
                state_dir: Some(dir),
                scan_cache: Map::empty(),
                ..self
            }
        }
    }

    /// The plugin after unloading.
    pub open spec fn after_unload(self, env: SecretEnvironment) -> PluginView {
        PluginView {
            loaded: false,
            config: config_defaults(env),
            state_dir: None,
            scan_cache: Map::empty(),
            ..self
        }
    }
}

impl NetworkNmPlugin {
    /// The cache is well-formed.
    pub open spec fn wf(&self) -> bool {
        self.scan_cache.wf()
    }

    /// Makes a plugin. What the environment says of secrets comes in with [`load`].
    ///
    /// [`load`]: NetworkNmPlugin::load
    pub fn new() -> (r: NetworkNmPlugin)
        ensures
            r.wf(),
            fresh_plugin(r@),
    {
        let env = SecretEnvironment { key: None, require: None };
        let config = PluginConfig::defaults(&env);
        proof {
            assert(silent_environment(env));
        }
        NetworkNmPlugin { loaded: false, config, state_dir: None, requests_handled: 0, scan_cache: ScanCache::new() }
    }

    /// Loads the plugin with its settings and its state directory. Settings that are
    /// refused leave it as it was.
    pub fn load(&mut self, table: &ConfigTable, env: &SecretEnvironment, state_dir: &str) -> (r: Result<(), PluginError>)
        requires
            old(self).wf(),
        ensures
            final(self).wf(),
            final(self)@ == old(self)@.after_load(*table, *env, state_dir@),
            match config_complaint(*table) {
                Some(m) => {
                    &&& r matches Err(e) && e@ == ErrorView::Permanent(m)
                    &&& final(self)@ == old(self)@
                },
                None => {
                    &&& r is Ok
                    &&& final(self)@ == (PluginView {
                        loaded: true,
                        config: config_of(*table, *env),
                        state_dir: Some(state_dir@),
                        requests_handled: old(self)@.requests_handled,
                        scan_cache: Map::empty(),
                    })
                },
            },
    {
        match PluginConfig::from_toml_table(table, env) {
            Ok(c) => {
                self.config = c;
                self.state_dir = Some(state_dir.to_owned());
                self.loaded = true;
                self.scan_cache.clear();
                Ok(())
            },
            Err(e) => Err(e),
        }
    }

    /// Unloads the plugin: its settings are the default ones again.
    pub fn unload(&mut self, env: &SecretEnvironment)
        requires
            old(self).wf(),
        ensures
            final(self).wf(),
            final(self)@ == old(self)@.after_unload(*env),
            final(self)@ == (PluginView {
                loaded: false,
                config: config_defaults(*env),
                state_dir: None,
                requests_handled: old(self)@.requests_handled,
                scan_cache: Map::empty(),
            }),
    {
        self.loaded = false;
        self.state_dir = None;
        self.config = PluginConfig::defaults(env);
        self.scan_cache.clear();
    }

    /// Nothing where the plugin is healthy, else what is wrong with it.
    pub fn health_check(&self) -> (r: Option<&'static str>)
        ensures
            opt_slice(r) == if self.loaded {
                None::<Seq<char>>
            } else {
                Some("network plugin not loaded"@)
            },
    {
        if self.loaded {
            None
        } else {
            Some("network plugin not loaded")
        }
    }

    /// The requests that the plugin answers.
    pub fn request_types() -> (r: Vec<String>)
        ensures
            texts(r@) == seq![
                REQUEST_NETWORK_STATUS@,
                REQUEST_NETWORK_SCAN@,
                REQUEST_NETWORK_INTENT_GET@,
                REQUEST_NETWORK_INTENT_SET@,
                REQUEST_NETWORK_INTENT_APPLY@,
                REQUEST_NETWORK_CAPTIVE_STATUS@,
                REQUEST_NETWORK_CAPTIVE_START@,
                REQUEST_NETWORK_CAPTIVE_SUBMIT@,
                REQUEST_NETWORK_CAPTIVE_COMPLETE@,
            ],
    {
        owned(
            vec![
                REQUEST_NETWORK_STATUS,
                REQUEST_NETWORK_SCAN,
                REQUEST_NETWORK_INTENT_GET,
                REQUEST_NETWORK_INTENT_SET,
                REQUEST_NETWORK_INTENT_APPLY,
                REQUEST_NETWORK_CAPTIVE_STATUS,
                REQUEST_NETWORK_CAPTIVE_START,
                REQUEST_NETWORK_CAPTIVE_SUBMIT,
                REQUEST_NETWORK_CAPTIVE_COMPLETE,
            ],
        )
    }

    fn dir(&self) -> (r: Option<&str>)
        ensures
            opt_slice(r) == self@.state_dir,
    {
        match &self.state_dir {
            Some(d) => Some(d.as_str()),
            None => None,
        }
    }

    /// The file of the intent.
    pub fn intent_path(&self) -> (r: Result<String, PluginError>)
        ensures
            text_result(r) == state_file(self@.state_dir, INTENT_FILE@),
    {
        state_path(self.dir(), INTENT_FILE)
    }

    /// The file of the client's passphrase.
    pub fn sta_psk_path(&self) -> (r: Result<String, PluginError>)
        ensures
            text_result(r) == state_file(self@.state_dir, STA_PSK_FILE@),
    {
        state_path(self.dir(), STA_PSK_FILE)
    }

    /// The file of the hotspot's passphrase.
    pub fn ap_psk_path(&self) -> (r: Result<String, PluginError>)
        ensures
            text_result(r) == state_file(self@.state_dir, AP_PSK_FILE@),
    {
        state_path(self.dir(), AP_PSK_FILE)
    }

    /// The file of the captive-portal session.
    pub fn captive_state_path(&self) -> (r: Result<String, PluginError>)
        ensures
            text_result(r) == state_file(self@.state_dir, CAPTIVE_FILE@),
    {
        state_path(self.dir(), CAPTIVE_FILE)
    }

    /// The access point to join.
    pub fn select_sta_candidate(&self, wifi: &WifiIntent, candidates: &Vec<WifiStaCandidate>) -> (r: Option<
        WifiStaCandidate,
    >)
        ensures
            match r {
                Some(c) => selected(wifi@, candidate_views(candidates@)) == Some(c@),
                None => selected(wifi@, candidate_views(candidates@)) is None,
            },
    {
        choose_candidate(wifi, candidates)
    }

    /// The hotspot profile of an intent.
    pub fn hotspot_connection_name(intent: &NetworkIntent) -> (r: String)
        ensures
            r@ == hotspot_name(intent@.fallback),
    {
        hotspot_connection_name(&intent.fallback)
    }

    /// The Wi-Fi interface of an intent.
    pub fn effective_wifi_ifname(&self, intent: &NetworkIntent) -> (r: String)
        ensures
            r@ == wifi_ifname(self@.config, intent@.wifi),
    {
        effective_wifi_ifname(&self.config, intent)
    }

    /// The interface that the hotspot of an intent asks for.
    pub fn effective_hotspot_ifname(&self, intent: &NetworkIntent) -> (r: String)
        ensures
            r@ == hotspot_ifname(self@.config, intent@),
    {
        effective_hotspot_ifname(&self.config, intent)
    }

    fn dispatch(&self, req: &NetworkRequest, replies: &Vec<Reply>) -> (r: Result<(ResponseBody, Option<Keep>), Halt>)
        requires
            self.wf(),
            links_numbered(replies@),
        ensures
            match r {
                Ok(v) => {
                    answer(replies@, self@, req.request_type@, req.payload_empty) matches Progress::Go(_, a) && a == (
                        v.0@,
                        kept(v.1),
                    )
                },
                Err(h) => answer(replies@, self@, req.request_type@, req.payload_empty) == h.stop::<(BodyView, Kept)>(),
            },
    {
        proof {
            reveal(answer);
        }
        let mut run = Run::new(replies);
        let kind = req.request_type.as_str();
        let empty = req.payload_empty;
        if text_eq(kind, REQUEST_NETWORK_STATUS) {
            match handle_status(&mut run, &self.config) {
                Ok(b) => Ok((ResponseBody::Status(b), None)),
                Err(h) => Err(h),
            }
        } else if text_eq(kind, REQUEST_NETWORK_SCAN) {
            match handle_scan(&mut run, &self.config, &self.scan_cache, empty) {
                Ok((b, k)) => Ok((ResponseBody::Scan(b), k)),
                Err(h) => Err(h),
            }
        } else if text_eq(kind, REQUEST_NETWORK_INTENT_GET) {
            match handle_intent_get(&mut run, &self.config, self.dir()) {
                Ok(b) => Ok((ResponseBody::IntentGet(b), None)),
                Err(h) => Err(h),
            }
        } else if text_eq(kind, REQUEST_NETWORK_INTENT_SET) {
            match handle_intent_set(&mut run, &self.config, self.dir()) {
                Ok(b) => Ok((ResponseBody::IntentSet(b), None)),
                Err(h) => Err(h),
            }
        } else if text_eq(kind, REQUEST_NETWORK_INTENT_APPLY) {
            match handle_intent_apply(&mut run, &self.config, self.dir(), empty) {
                Ok(b) => Ok((ResponseBody::IntentApply(b), None)),
                Err(h) => Err(h),
            }
        } else if text_eq(kind, REQUEST_NETWORK_CAPTIVE_STATUS) {
            match handle_captive_status(&mut run, &self.config, self.dir(), empty) {
                Ok(b) => Ok((ResponseBody::Captive(b), None)),
                Err(h) => Err(h),
            }
        } else if text_eq(kind, REQUEST_NETWORK_CAPTIVE_START) {
            match handle_captive_start(&mut run, &self.config, self.dir(), empty) {
                Ok(b) => Ok((ResponseBody::Captive(b), None)),
                Err(h) => Err(h),
            }
        } else if text_eq(kind, REQUEST_NETWORK_CAPTIVE_SUBMIT) {
            match handle_captive_submit(&mut run, &self.config, self.dir()) {
                Ok(b) => Ok((ResponseBody::Captive(b), None)),
                Err(h) => Err(h),
            }
        } else if text_eq(kind, REQUEST_NETWORK_CAPTIVE_COMPLETE) {
            match handle_captive_complete(&mut run, &self.config, self.dir(), empty) {
                Ok(b) => Ok((ResponseBody::Captive(b), None)),
                Err(h) => Err(h),
            }
        } else {
            let shown = quoted(kind);
            Err(Halt::Fail(PluginError::Permanent(cat("unknown request type: ", shown.as_str()))))
        }
    }

    /// Handles a request as far as the replies go: its answer, or the action whose
    /// reply comes next. As long as an action is asked for, the plugin does not change.
    pub fn handle_request(&mut self, req: &NetworkRequest, replies: &Vec<Reply>) -> (r: Result<
        Result<NetworkResponse, PluginError>,
        Action,
    >)
        requires
            old(self).wf(),
            old(self).loaded && !req.past_deadline ==> old(self).requests_handled < u64::MAX,
            links_numbered(replies@),
        ensures
            final(self).wf(),
            outcome(r, final(self)@) == handled(replies@, old(self)@, *req),
            r is Err ==> final(self)@ == old(self)@,
    {
        if !self.loaded {
            return Ok(Err(permanent("network plugin not loaded")));
        }
        if req.past_deadline {
            return Ok(Err(transient("request deadline already expired")));
        }
        let ghost before = self@;
        let ghost a = answer(replies@, before, req.request_type@, req.payload_empty);
        let mut keep: Option<Keep> = None;
        let done: Result<ResponseBody, PluginError> = match self.dispatch(req, replies) {
            Err(Halt::Need(action)) => return Err(action),
            Err(Halt::Fail(e)) => Err(e),
            Ok((body, k)) => {
                keep = k;
                Ok(body)
            },
        };
        self.requests_handled += 1;
        let kind = req.request_type.as_str();
        if text_eq(kind, REQUEST_NETWORK_INTENT_SET) {
            let understood = if replies.len() > 0 {
                match &replies[0] {
                    Reply::Decoded(Ok(Payload::IntentSet(_))) => true,
                    _ => false,
                }
            } else {
                false
            };
            if understood {
                self.scan_cache.clear();
            }
        } else if text_eq(kind, REQUEST_NETWORK_INTENT_APPLY) {
            if done.is_ok() {
                self.scan_cache.clear();
            }
        } else if let Some(k) = keep {
            self.scan_cache.insert(k.key, k.scan);
        }
        match done {
            Err(e) => {
                proof {
                    assert(self@ == handled(replies@, before, *req)->Done_0);
                }
                Ok(Err(e))
            },
            Ok(body) => {
                let observability = Observability {
                    request_type: req.request_type.clone(),
                    correlation_id: req.correlation_id,
                    requests_handled: self.requests_handled,
                    secret_encryption: self.config.secret_key.is_some(),
                    secret_encryption_required: self.config.require_encrypted_secrets,
                };
                proof {
                    assert(self@ == handled(replies@, before, *req)->Done_0);
                }
                Ok(Ok(NetworkResponse { body, observability }))
            },
        }
    }
}

proof fn lemma_request_names()
    ensures
        REQUEST_NETWORK_STATUS@ == "network.nm.status"@,
        REQUEST_NETWORK_SCAN@ == "network.nm.scan"@,
        REQUEST_NETWORK_INTENT_GET@ == "network.nm.intent.get"@,
        REQUEST_NETWORK_INTENT_SET@ == "network.nm.intent.set"@,
        REQUEST_NETWORK_INTENT_APPLY@ == "network.nm.intent.apply"@,
        REQUEST_NETWORK_CAPTIVE_STATUS@ == "network.nm.captive.status"@,
        REQUEST_NETWORK_CAPTIVE_START@ == "network.nm.captive.start"@,
        REQUEST_NETWORK_CAPTIVE_SUBMIT@ == "network.nm.captive.submit"@,
        REQUEST_NETWORK_CAPTIVE_COMPLETE@ == "network.nm.captive.complete"@,
        "network.nm.status"@.len() == 17,
        "network.nm.scan"@.len() == 15,
        "network.nm.intent.get"@.len() == 21,
        "network.nm.intent.set"@.len() == 21,
        "network.nm.intent.get"@[18] == 'g',
        "network.nm.intent.set"@[18] == 's',
        "network.nm.intent.apply"@.len() == 23,
        "network.nm.captive.status"@.len() == 25,
        "network.nm.captive.status"@[20] == 't',
        "network.nm.captive.start"@.len() == 24,
        "network.nm.captive.submit"@.len() == 25,
        "network.nm.captive.submit"@[20] == 'u',
        "network.nm.captive.complete"@.len() == 27,
{
    reveal_strlit("network.nm.status");
    reveal_strlit("network.nm.scan");
    reveal_strlit("network.nm.intent.get");
    reveal_strlit("network.nm.intent.set");
    reveal_strlit("network.nm.intent.apply");
    reveal_strlit("network.nm.captive.status");
    reveal_strlit("network.nm.captive.start");
    reveal_strlit("network.nm.captive.submit");
    reveal_strlit("network.nm.captive.complete");
}

/// The start of a request: nothing is read yet, nothing reported.
pub open spec fn at_the_start() -> Mark {
    Mark { pos: 0, log: Seq::<Seq<char>>::empty() }
}

/// A request is answered by its name: what an answered request shows is what its own
/// logic came to with the plugin's settings and in its state directory, and nothing of
/// another request.
pub proof fn requests_are_answered_by_name(h: Seq<Reply>, p: PluginView, req: NetworkRequest, v: ResponseView)
    requires
        handled(h, p, req) is Done,
        handled(h, p, req)->Done_1 == Ok::<ResponseView, ErrorView>(v),
    ensures
        v.body matches BodyView::Status(b) ==> req.request_type@ == "network.nm.status"@ && (status(
            h,
            at_the_start(),
            p.config,
        ) matches Progress::Go(_, w) && w == b),
        v.body matches BodyView::Scan(b) ==> req.request_type@ == "network.nm.scan"@ && (scan_answer(
            h,
            at_the_start(),
            p.config,
            p.scan_cache,
            req.payload_empty,
        ) matches Progress::Go(_, w) && w.0 == b),
        v.body matches BodyView::IntentGet(b) ==> req.request_type@ == "network.nm.intent.get"@ && (intent_get(
            h,
            at_the_start(),
            p.config,
            p.state_dir,
        ) matches Progress::Go(_, w) && w == b),
        v.body matches BodyView::IntentSet(b) ==> req.request_type@ == "network.nm.intent.set"@ && (intent_set(
            h,
            at_the_start(),
            p.config,
            p.state_dir,
        ) matches Progress::Go(_, w) && w == b),
        v.body matches BodyView::IntentApply(b) ==> req.request_type@ == "network.nm.intent.apply"@ && (intent_apply(
            h,
            at_the_start(),
            p.config,
            p.state_dir,
            req.payload_empty,
        ) matches Progress::Go(_, w) && w == b),
        v.body is Captive ==> req.request_type@ == "network.nm.captive.status"@ || req.request_type@
            == "network.nm.captive.start"@ || req.request_type@ == "network.nm.captive.submit"@ || req.request_type@
            == "network.nm.captive.complete"@,
{
    reveal(answer);
    lemma_request_names();
}

/// The four requests about the captive-portal session are told apart by their names.
pub proof fn session_requests_are_answered_by_name(h: Seq<Reply>, p: PluginView, req: NetworkRequest, v: ResponseView)
    requires
        handled(h, p, req) is Done,
        handled(h, p, req)->Done_1 == Ok::<ResponseView, ErrorView>(v),
    ensures
        req.request_type@ == "network.nm.captive.status"@ ==> (captive_status(
            h,
            at_the_start(),
            p.config,
            p.state_dir,
            req.payload_empty,
        ) matches Progress::Go(_, b) && v.body == BodyView::Captive(b)),
        req.request_type@ == "network.nm.captive.start"@ ==> (captive_start(
            h,
            at_the_start(),
            p.config,
            p.state_dir,
            req.payload_empty,
        ) matches Progress::Go(_, b) && v.body == BodyView::Captive(b)),
        req.request_type@ == "network.nm.captive.submit"@ ==> (captive_submission(
            h,
            at_the_start(),
            p.config,
            p.state_dir,
        ) matches Progress::Go(_, b) && v.body == BodyView::Captive(b)),
        req.request_type@ == "network.nm.captive.complete"@ ==> (captive_complete(
            h,
            at_the_start(),
            p.config,
            p.state_dir,
            req.payload_empty,
        ) matches Progress::Go(_, b) && v.body == BodyView::Captive(b)),
{
    reveal(answer);
    lemma_request_names();
}

/// The first five requests are told apart by their names too: each shows an answer of
/// its own kind.
pub proof fn answers_are_of_the_requests_kind(h: Seq<Reply>, p: PluginView, req: NetworkRequest, v: ResponseView)
    requires
        handled(h, p, req) is Done,
        handled(h, p, req)->Done_1 == Ok::<ResponseView, ErrorView>(v),
    ensures
        v.body is Status <==> req.request_type@ == "network.nm.status"@,
        v.body is Scan <==> req.request_type@ == "network.nm.scan"@,
        v.body is IntentGet <==> req.request_type@ == "network.nm.intent.get"@,
        v.body is IntentSet <==> req.request_type@ == "network.nm.intent.set"@,
        v.body is IntentApply <==> req.request_type@ == "network.nm.intent.apply"@,
{
    reveal(answer);
    lemma_request_names();
}

/// A request of any other name is refused, with its name in the complaint; it is counted
/// all the same, and the kept scans stay.
pub proof fn unknown_requests_are_refused(h: Seq<Reply>, p: PluginView, req: NetworkRequest)
    requires
        p.loaded,
        !req.past_deadline,
        p.requests_handled < u64::MAX,
        ![
            "network.nm.status"@,
            "network.nm.scan"@,
            "network.nm.intent.get"@,
            "network.nm.intent.set"@,
            "network.nm.intent.apply"@,
            "network.nm.captive.status"@,
            "network.nm.captive.start"@,
            "network.nm.captive.submit"@,
            "network.nm.captive.complete"@,
        ]@.contains(req.request_type@),
    ensures
        handled(h, p, req) matches Outcome::Done(q, r) && r == Err::<ResponseView, ErrorView>(
            ErrorView::Permanent("unknown request type: "@ + debug_text(req.request_type@)),
        ) && q.requests_handled == p.requests_handled + 1 && q.scan_cache == p.scan_cache,
{
    reveal(answer);
    lemma_request_names();
    let known = [
        "network.nm.status"@,
        "network.nm.scan"@,
        "network.nm.intent.get"@,
        "network.nm.intent.set"@,
        "network.nm.intent.apply"@,
        "network.nm.captive.status"@,
        "network.nm.captive.start"@,
        "network.nm.captive.submit"@,
        "network.nm.captive.complete"@,
    ]@;
    assert(known[0] == "network.nm.status"@);
    assert(known[1] == "network.nm.scan"@);
    assert(known[2] == "network.nm.intent.get"@);
    assert(known[3] == "network.nm.intent.set"@);
    assert(known[4] == "network.nm.intent.apply"@);
    assert(known[5] == "network.nm.captive.status"@);
    assert(known[6] == "network.nm.captive.start"@);
    assert(known[7] == "network.nm.captive.submit"@);
    assert(known[8] == "network.nm.captive.complete"@);
}

/// Kept scans outlive every request but those that change the network: setting an
/// intent forgets them as soon as the request is understood, and applying one once it is
/// answered. A scan request adds what it kept and touches no other entry.
pub proof fn kept_scans_end_with_the_intent(h: Seq<Reply>, p: PluginView, req: NetworkRequest, q: PluginView, key: Seq<char>)
    requires
        p.loaded,
        !req.past_deadline,
        handled(h, p, req) is Done,
        handled(h, p, req)->Done_0 == q,
    ensures
        req.request_type@ == "network.nm.intent.set"@ ==> q.scan_cache == (if reply_at(h, 0) matches Some(
            Reply::Decoded(Ok(Payload::IntentSet(_))),
        ) {
            Map::<Seq<char>, CachedView>::empty()
        } else {
            p.scan_cache
        }),
        req.request_type@ == "network.nm.intent.apply"@ ==> q.scan_cache == (if handled(h, p, req)->Done_1 is Ok {
            Map::<Seq<char>, CachedView>::empty()
        } else {
            p.scan_cache
        }),
        req.request_type@ == "network.nm.scan"@ ==> (scan_answer(
            h,
            at_the_start(),
            p.config,
            p.scan_cache,
            req.payload_empty,
        ) matches Progress::Go(_, w) ==> match w.1 {
            Some((k, c)) => q.scan_cache.contains_key(k) && q.scan_cache[k] == c && (key != k ==> (q.scan_cache.contains_key(
                key,
            ) <==> p.scan_cache.contains_key(key)) && (p.scan_cache.contains_key(key) ==> q.scan_cache[key]
                == p.scan_cache[key])),
            None => q.scan_cache == p.scan_cache,
        }),
        req.request_type@ != "network.nm.intent.set"@ && req.request_type@ != "network.nm.intent.apply"@
            && req.request_type@ != "network.nm.scan"@ ==> q.scan_cache == p.scan_cache,
{
    reveal(answer);
    lemma_request_names();
}

/// What is said beside an answer tells whether secrets are sealed and whether they have
/// to be.
pub proof fn answers_tell_of_sealing(h: Seq<Reply>, p: PluginView, req: NetworkRequest, v: ResponseView)
    requires
        handled(h, p, req) is Done,
        handled(h, p, req)->Done_1 == Ok::<ResponseView, ErrorView>(v),
    ensures
        v.observability.secret_encryption <==> p.config.secret_key is Some,
        v.observability.secret_encryption_required <==> p.config.require_encrypted_secrets,
{
}

/// A request whose own logic comes to its end is answered; one whose logic fails is
/// refused with that failure.
pub proof fn requests_that_end_are_answered(h: Seq<Reply>, p: PluginView, req: NetworkRequest)
    requires
        p.loaded,
        !req.past_deadline,
    ensures
        req.request_type@ == "network.nm.status"@ && status(h, at_the_start(), p.config) is Go ==> is_answered(h, p, req),
        req.request_type@ == "network.nm.scan"@ && scan_answer(h, at_the_start(), p.config, p.scan_cache, req.payload_empty)
            is Go ==> is_answered(h, p, req),
        req.request_type@ == "network.nm.intent.get"@ && intent_get(h, at_the_start(), p.config, p.state_dir) is Go
            ==> is_answered(h, p, req),
        req.request_type@ == "network.nm.intent.set"@ && intent_set(h, at_the_start(), p.config, p.state_dir) is Go
            ==> is_answered(h, p, req),
        req.request_type@ == "network.nm.intent.apply"@ && intent_apply(
            h,
            at_the_start(),
            p.config,
            p.state_dir,
            req.payload_empty,
        ) is Go ==> is_answered(h, p, req),
        req.request_type@ == "network.nm.captive.status"@ && captive_status(
            h,
            at_the_start(),
            p.config,
            p.state_dir,
            req.payload_empty,
        ) is Go ==> is_answered(h, p, req),
        req.request_type@ == "network.nm.captive.start"@ && captive_start(
            h,
            at_the_start(),
            p.config,
            p.state_dir,
            req.payload_empty,
        ) is Go ==> is_answered(h, p, req),
        req.request_type@ == "network.nm.captive.submit"@ && captive_submission(h, at_the_start(), p.config, p.state_dir) is Go
            ==> is_answered(h, p, req),
        req.request_type@ == "network.nm.captive.complete"@ && captive_complete(
            h,
            at_the_start(),
            p.config,
            p.state_dir,
            req.payload_empty,
        ) is Go ==> is_answered(h, p, req),
{
    reveal(answer);
    lemma_request_names();
}

/// The request is answered.
pub open spec fn is_answered(h: Seq<Reply>, p: PluginView, req: NetworkRequest) -> bool {
    handled(h, p, req) matches Outcome::Done(_, r) && r is Ok
}

/// Each field is seen under its own name, as it is.
pub proof fn fields_are_seen_under_their_names(
    observability: Observability,
    network_response: NetworkResponse,
    network_nm_plugin: NetworkNmPlugin,
)
    ensures
        observability@.request_type == observability.request_type@,
        observability@.correlation_id == observability.correlation_id,
        observability@.requests_handled == observability.requests_handled,
        observability@.secret_encryption == observability.secret_encryption,
        observability@.secret_encryption_required == observability.secret_encryption_required,
        network_response@.body == network_response.body@,
        network_response@.observability == network_response.observability@,
        network_nm_plugin@.loaded == network_nm_plugin.loaded,
        network_nm_plugin@.config == network_nm_plugin.config@,
        network_nm_plugin@.state_dir == opt_text(network_nm_plugin.state_dir),
        network_nm_plugin@.requests_handled == network_nm_plugin.requests_handled,
        network_nm_plugin@.scan_cache == network_nm_plugin.scan_cache@,
{
}

/// Loading takes up the settings and the directory and starts without a kept scan, or
/// else changes nothing; unloading gives all of it up; and neither forgets how many
/// requests were handled.
pub proof fn unloading_gives_up_what_loading_took(p: PluginView, table: ConfigTable, env: SecretEnvironment, dir: Seq<char>)
    ensures
        config_complaint(table) is None ==> {
            &&& p.after_load(table, env, dir).loaded
            &&& p.after_load(table, env, dir).config == config_of(table, env)
            &&& p.after_load(table, env, dir).state_dir == Some(dir)
            &&& p.after_load(table, env, dir).scan_cache == Map::<Seq<char>, CachedView>::empty()
        },
        config_complaint(table) is Some ==> p.after_load(table, env, dir) == p,
        p.after_load(table, env, dir).requests_handled == p.requests_handled,
        !p.after_unload(env).loaded,
        p.after_unload(env).config == config_defaults(env),
        p.after_unload(env).state_dir is None,
        p.after_unload(env).scan_cache == Map::<Seq<char>, CachedView>::empty(),
        p.after_unload(env).requests_handled == p.requests_handled,
        p.after_load(table, env, dir).after_unload(env) == p.after_unload(env),
{
}

} // verus!
