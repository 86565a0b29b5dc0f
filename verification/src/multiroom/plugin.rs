//! The multi-room plugin: its life cycle and its requests.

use crate::error::{permanent, ErrorView, PluginError};
use crate::multiroom::config::{config_of, default_config, ConfigSeed, ConfigView, PluginConfig, Role, DEFAULT_LEADER_MS};
use crate::multiroom::device_card::{
    first_card, MultiroomDeviceCardEnvelope, StateBadge, DEVICE_CARD_SCHEME, DEVICE_CARD_SUBJECT_TYPE,
};
use crate::multiroom::engagement::{
    ending, engage_role, engaged, idle_engagement, initial_target, resolve_initial_engagement, step_views,
    EngagementView, RoleEngagement, RoleSetup, SetupView, Step, StepView, SubstrateReading,
};
use crate::multiroom::receiver::ReceiverCounters;
use crate::multiroom::trace::{record_views, FrameTraceRecord, RecordView};
use crate::number::{debug_text, decimal, quoted, to_decimal};
use crate::text::{cat, cat3, cat4, columns_come_apart, copy_opt, opt_text, owned, part, slices, split_n, splitn, text_eq, texts};
use std::time::SystemTime;
use vstd::prelude::*;

verus! {

/// The name of the plugin.
pub const PLUGIN_NAME: &'static str = "org.evoframework.multiroom.evo-native";

/// The version of what requests and answers hold.
pub const PAYLOAD_VERSION: u32 = 1;

/// The request for the plugin's status.
pub const REQUEST_GET_STATUS: &'static str = "multiroom.get_status";

/// The request that sets how far ahead of the sound the source sends.
pub const REQUEST_SET_LEADER_MS: &'static str = "multiroom.set_leader_ms";

/// The request for the records of frames.
pub const REQUEST_FRAME_TRACE: &'static str = "audio.multiroom.frame_trace.snapshot";

/// The least leader that can be set, in milliseconds.
pub const LEADER_MS_MIN: u64 = 20;

/// The greatest leader that can be set, in milliseconds.
pub const LEADER_MS_MAX: u64 = 2000;

/// What a JSON text says under a key: a whole number that is not negative, something
/// else or nothing; or how reading it complains.
pub uninterp spec fn json_whole_number(payload: Seq<u8>, key: Seq<char>) -> Result<Option<u64>, Seq<char>>;

/// The view of what a JSON text says.
pub open spec fn number_result(r: Result<Option<u64>, String>) -> Result<Option<u64>, Seq<char>> {
    match r {
        Ok(v) => Ok(v),
        Err(e) => Err(e@),
    }
}

/// `serde_json::from_slice` into a `serde_json::Value`, of which the member `key` is
/// taken as a `u64` where it is one. What comes of it depends on the text and the key
/// alone; an error comes as text.
#[verifier::external_body]
pub(crate) fn read_whole_number(payload: &Vec<u8>, key: &str) -> (r: Result<Option<u64>, String>)
    ensures
        number_result(r) == json_whole_number(payload@, key@),
{
    let value: serde_json::Value = serde_json::from_slice(payload).map_err(|e| e.to_string())?;
    Ok(value.get(key).and_then(|v| v.as_u64()))
}

/// The plugin's status.
#[derive(Debug, Clone)]
pub struct StatusBody {
    pub v: u32,
    pub role: Role,
    pub group_id: Option<String>,
    pub alsa_pcm: String,
    pub source_pcm: String,
    pub leader_ms: u64,
    pub leader_ms_min: u64,
    pub leader_ms_max: u64,
    pub frames_sent: u64,
    pub frames_received: u64,
    pub receiver_queue_depth: u64,
    pub receiver_underruns: u64,
}

/// The records of frames.
#[derive(Debug)]
pub struct FrameTraceBody {
    pub v: u32,
    pub group_id: Option<String>,
    pub window_size: usize,
    pub records: Vec<FrameTraceRecord>,
    pub last_update_at_ms: u64,
}

/// The answer to a request.
#[derive(Debug)]
pub enum MultiroomResponse {
    Status(StatusBody),
    LeaderMs { v: u32, leader_ms: u64 },
    FrameTrace(FrameTraceBody),
}

/// [`MultiroomResponse`] over mathematical values.
#[verifier::ext_equal]
pub enum ResponseView {
    Status {
        v: u32,
        role: Role,
        group_id: Option<Seq<char>>,
        alsa_pcm: Seq<char>,
        source_pcm: Seq<char>,
        leader_ms: u64,
        leader_ms_min: u64,
        leader_ms_max: u64,
        frames_sent: u64,
        counters: ReceiverCounters,
    },
    LeaderMs { v: u32, leader_ms: u64 },
    FrameTrace {
        v: u32,
        group_id: Option<Seq<char>>,
        window_size: usize,
        records: Seq<RecordView>,
        last_update_at_ms: u64,
    },
}

impl View for MultiroomResponse {
    type V = ResponseView;

    open spec fn view(&self) -> ResponseView {
        match self {
            MultiroomResponse::Status(b) => ResponseView::Status {
                v: b.v,
                role: b.role,
                group_id: opt_text(b.group_id),
                alsa_pcm: b.alsa_pcm@,
                source_pcm: b.source_pcm@,
                leader_ms: b.leader_ms,
                leader_ms_min: b.leader_ms_min,
                leader_ms_max: b.leader_ms_max,
                frames_sent: b.frames_sent,
                counters: ReceiverCounters {
                    frames_received: b.frames_received,
                    underruns: b.receiver_underruns,
                    queue_depth: b.receiver_queue_depth,
                },
            },
            MultiroomResponse::LeaderMs { v, leader_ms } => ResponseView::LeaderMs { v: *v, leader_ms: *leader_ms },
            MultiroomResponse::FrameTrace(b) => ResponseView::FrameTrace {
                v: b.v,
                group_id: opt_text(b.group_id),
                window_size: b.window_size,
                records: record_views(b.records@),
                last_update_at_ms: b.last_update_at_ms,
            },
        }
    }
}

/// The view of an answer or an error.
pub open spec fn response_result(r: Result<MultiroomResponse, PluginError>) -> Result<ResponseView, ErrorView> {
    match r {
        Ok(b) => Ok(b@),
        Err(e) => Err(e@),
    }
}

/// A card that is announced, with the address under which it is found.
#[derive(Debug)]
pub struct Announcement {
    pub subject_type: String,
    pub scheme: String,
    pub value: String,
    pub card: MultiroomDeviceCardEnvelope,
}

/// The badge of a role.
pub open spec fn badge_of(role: Role) -> StateBadge {
    match role {
        Role::Source => StateBadge::LeaderOfGroup,
        Role::Receiver => StateBadge::MemberOfGroup,
        Role::Auto => StateBadge::Solo,
    }
}

/// The name that is shown for a device: `evo-` and its identifier up to the first dash.
pub open spec fn display_name_of(device: Seq<char>) -> Seq<char> {
    "evo-"@ + part(split_n(device, 2, '-'), 0)
}

/// Whether a card is announced as that of a device in a role.
pub open spec fn announces(a: Announcement, role: Role, device: Seq<char>) -> bool {
    &&& a.subject_type@ == DEVICE_CARD_SUBJECT_TYPE@
    &&& a.scheme@ == DEVICE_CARD_SCHEME@
    &&& a.value@ == device
    &&& first_card(a.card, device, display_name_of(device), badge_of(role))
}

/// The card of a device in a role, at a given time.
pub fn card_announcement(role: Role, device: &String, at: SystemTime) -> (r: Announcement)
    ensures
        announces(r, role, device@),
        r.card.last_update_at == at,
{
    let badge = match role {
        Role::Source => StateBadge::LeaderOfGroup,
        Role::Receiver => StateBadge::MemberOfGroup,
        Role::Auto => StateBadge::Solo,
    };
    let parts = splitn(device.as_str(), 2, '-');
    let name = cat("evo-", crate::text::part_of(&parts, 0));
    Announcement {
        subject_type: DEVICE_CARD_SUBJECT_TYPE.to_owned(),
        scheme: DEVICE_CARD_SCHEME.to_owned(),
        value: device.clone(),
        card: MultiroomDeviceCardEnvelope::initial_at(device.clone(), name, badge, at),
    }
}

/// The multi-room plugin.
#[derive(Debug)]
pub struct MultiroomEvoNativePlugin {
    pub loaded: bool,
    pub config: PluginConfig,
    /// Whether there is a way to other devices.
    pub has_audio_plane: bool,
    pub role_engagement: RoleEngagement,
    /// Whether it listens for changes of roles and groups.
    pub subscribed: bool,
    pub frames_sent: u64,
    /// How far ahead of the sound the source sends, in milliseconds.
    pub leader_ms: u64,
    pub counters: ReceiverCounters,
    /// Whether cards can be announced.
    pub has_announcer: bool,
    pub local_device_id: Option<String>,
}

/// [`MultiroomEvoNativePlugin`] over mathematical values.
#[verifier::ext_equal]
pub struct PluginView {
    pub loaded: bool,
    pub config: ConfigView,
    pub has_audio_plane: bool,
    pub engagement: EngagementView,
    pub subscribed: bool,
    pub frames_sent: u64,
    pub leader_ms: u64,
    pub counters: ReceiverCounters,
    pub has_announcer: bool,
    pub local_device_id: Option<Seq<char>>,
}

impl View for MultiroomEvoNativePlugin {
    type V = PluginView;

    open spec fn view(&self) -> PluginView {
        PluginView {
            loaded: self.loaded,
            config: self.config@,
            has_audio_plane: self.has_audio_plane,
            engagement: self.role_engagement@,
            subscribed: self.subscribed,
            frames_sent: self.frames_sent,
            leader_ms: self.leader_ms,
            counters: self.counters,
            has_announcer: self.has_announcer,
            local_device_id: opt_text(self.local_device_id),
        }
    }
}

/// A plugin that was just made.
pub open spec fn fresh_plugin() -> PluginView {
    PluginView {
        loaded: false,
        config: default_config(),
        has_audio_plane: false,
        engagement: idle_engagement(),
        subscribed: false,
        frames_sent: 0,
        leader_ms: DEFAULT_LEADER_MS,
        counters: ReceiverCounters { frames_received: 0, underruns: 0, queue_depth: 0 },
        has_announcer: false,
        local_device_id: None,
    }
}

/// What the plugin is given when it is loaded: its settings, as read or with the
/// complaint about them, the device's identifier where there is a way to other
/// devices, and what the framework knows of the device.
#[derive(Debug)]
pub struct LoadContext {
    pub config: Result<ConfigSeed, String>,
    pub local_device_id: Option<String>,
    pub substrate: Option<SubstrateReading>,
    /// Whether there are sound devices at all.
    pub has_alsa: bool,
}

/// What is to be done once the plugin is loaded.
#[derive(Debug)]
pub struct LoadPlan {
    pub steps: Vec<Step>,
    /// Whether changes of roles and groups are to be listened for.
    pub subscribe: bool,
    pub announcement: Option<Announcement>,
}

/// Why the plugin is not loaded without a way to other devices.
pub open spec fn no_audio_plane() -> Seq<char> {
    "LoadContext.audio_plane = None; manifest must declare capabilities.audio_plane = true AND the steward must be configured with AdmissionEngine::with_audio_plane(...)"@
}

impl PluginView {
    /// With settings.
    pub open spec fn configured(self, seed: ConfigSeed) -> PluginView {
        PluginView { config: config_of(seed), leader_ms: config_of(seed).leader_ms, ..self }
    }

    /// What taking up a role depends on.
    pub open spec fn setup(self, has_alsa: bool) -> SetupView {
        SetupView { alsa_pcm: self.config.alsa_pcm, source_pcm: self.config.source_pcm, has_alsa }
    }

    /// The plugin after loading, and how loading fails.
    pub open spec fn after_load(self, ctx: LoadContext) -> (PluginView, Option<ErrorView>) {
        match ctx.config {
            Err(e) => (self, Some(ErrorView::Permanent("invalid plugin config: "@ + e@))),
            Ok(seed) => {
                let set = PluginView { has_announcer: true, ..self.configured(seed) };
                match ctx.local_device_id {
                    None => (set, Some(ErrorView::Permanent(no_audio_plane()))),
                    Some(device) => (
                        PluginView {
                            loaded: true,
                            has_audio_plane: true,
                            local_device_id: Some(device@),
                            engagement: engaged(
                                set.engagement,
                                set.setup(ctx.has_alsa),
                                initial_target(ctx.substrate, set.config),
                            ).0,
                            subscribed: ctx.substrate is Some || set.subscribed,
                            ..set
                        },
                        None,
                    ),
                }
            },
        }
    }

    /// The steps that follow loading.
    pub open spec fn load_steps(self, ctx: LoadContext) -> Seq<StepView> {
        match ctx.config {
            Ok(seed) => {
                let set = self.configured(seed);
                engaged(set.engagement, set.setup(ctx.has_alsa), initial_target(ctx.substrate, set.config)).1
            },
            Err(_) => seq![],
        }
    }

    /// The plugin after unloading. The records of frames stay, and so do its settings
    /// and what was counted.
    pub open spec fn after_unload(self) -> PluginView {
        PluginView {
            loaded: false,
            has_audio_plane: false,
            engagement: EngagementView { trace: self.engagement.trace, ..idle_engagement() },
            subscribed: false,
            has_announcer: false,
            local_device_id: None,
            ..self
        }
    }

    /// The plugin's status.
    pub open spec fn status(self) -> ResponseView {
        ResponseView::Status {
            v: PAYLOAD_VERSION,
            role: self.config.role,
            group_id: self.config.group_id,
            alsa_pcm: self.config.alsa_pcm,
            source_pcm: self.config.source_pcm,
            leader_ms: self.leader_ms,
            leader_ms_min: LEADER_MS_MIN,
            leader_ms_max: LEADER_MS_MAX,
            frames_sent: self.frames_sent,
            counters: self.counters,
        }
    }

    /// The records of frames.
    pub open spec fn frame_trace(self, now_ms: u64) -> ResponseView {
        ResponseView::FrameTrace {
            v: PAYLOAD_VERSION,
            group_id: self.config.group_id,
            window_size: match self.engagement.trace {
                Some(t) => t.window_size,
                None => 0,
            },
            records: match self.engagement.trace {
                Some(t) => t.window,
                None => seq![],
            },
            last_update_at_ms: now_ms,
        }
    }

    /// The plugin and the answer after setting a leader that was read.
    pub open spec fn leader_set(self, read: Result<Option<u64>, Seq<char>>) -> (PluginView, Result<ResponseView, ErrorView>) {
        match read {
            Err(e) => (self, Err(ErrorView::Permanent("multiroom.set_leader_ms: payload not JSON: "@ + e))),
            Ok(None) => (
                self,
                Err(ErrorView::Permanent("multiroom.set_leader_ms: payload must contain integer 'value' field"@)),
            ),
            Ok(Some(n)) => if LEADER_MS_MIN <= n <= LEADER_MS_MAX {
                (
                    PluginView { leader_ms: n, ..self },
                    Ok(ResponseView::LeaderMs { v: PAYLOAD_VERSION, leader_ms: n }),
                )
            } else {
                (self, Err(ErrorView::Permanent(out_of_range(n))))
            },
        }
    }

    /// The plugin and the answer after a request.
    pub open spec fn handled(self, kind: Seq<char>, payload: Seq<u8>, now_ms: u64) -> (
        PluginView,
        Result<ResponseView, ErrorView>,
    ) {
        if !self.loaded {
            (self, Err(ErrorView::Permanent("plugin not loaded"@)))
        } else if kind == REQUEST_GET_STATUS@ {
            (self, Ok(self.status()))
        } else if kind == REQUEST_SET_LEADER_MS@ {
            self.leader_set(json_whole_number(payload, "value"@))
        } else if kind == REQUEST_FRAME_TRACE@ {
            (self, Ok(self.frame_trace(now_ms)))
        } else {
            (
                self,
                Err(ErrorView::Permanent("request type "@ + debug_text(kind) + " declared but no handler wired"@)),
            )
        }
    }
}

/// Why a leader is not taken.
pub open spec fn out_of_range(n: u64) -> Seq<char> {
    "multiroom.set_leader_ms: value "@ + decimal(n as nat) + " out of range [20, 2000]"@
}

/// The view of what loading comes to.
pub open spec fn load_error(r: Result<LoadPlan, PluginError>) -> Option<ErrorView> {
    match r {
        Ok(_) => None,
        Err(e) => Some(e@),
    }
}

impl MultiroomEvoNativePlugin {
    /// Makes a plugin.
    pub fn new() -> (r: MultiroomEvoNativePlugin)
        ensures
            r@ == fresh_plugin(),
    {
        MultiroomEvoNativePlugin {
            loaded: false,
            config: PluginConfig::default(),
            has_audio_plane: false,
            role_engagement: RoleEngagement::idle(),
            subscribed: false,
            frames_sent: 0,
            leader_ms: DEFAULT_LEADER_MS,
            counters: ReceiverCounters { frames_received: 0, underruns: 0, queue_depth: 0 },
            has_announcer: false,
            local_device_id: None,
        }
    }

    /// The frames that came, from all sources.
    pub fn frames_received(&self) -> (r: u64)
        ensures
            r == self@.counters.frames_received,
    {
        self.counters.frames_received
    }

    /// The frames that were sent.
    pub fn frames_sent(&self) -> (r: u64)
        ensures
            r == self@.frames_sent,
    {
        self.frames_sent
    }

    /// The chunks of silence that filled a gap.
    pub fn receiver_underruns(&self) -> (r: u64)
        ensures
            r == self@.counters.underruns,
    {
        self.counters.underruns
    }

    /// The frames that waited when it was last looked.
    pub fn receiver_queue_depth(&self) -> (r: u64)
        ensures
            r == self@.counters.queue_depth,
    {
        self.counters.queue_depth
    }

    /// How far ahead of the sound the source sends, in milliseconds.
    pub fn leader_ms(&self) -> (r: u64)
        ensures
            r == self@.leader_ms,
    {
        self.leader_ms
    }

    /// The requests that the plugin answers.
    pub fn request_types(&self) -> (r: Vec<String>)
        ensures
            texts(r@) == seq![REQUEST_GET_STATUS@, REQUEST_SET_LEADER_MS@, REQUEST_FRAME_TRACE@],
    {
        let names = vec![REQUEST_GET_STATUS, REQUEST_SET_LEADER_MS, REQUEST_FRAME_TRACE];
        proof {
            assert(slices(names@) =~= seq![REQUEST_GET_STATUS@, REQUEST_SET_LEADER_MS@, REQUEST_FRAME_TRACE@]);
        }
        owned(names)
    }

    /// Takes settings that were read, or the complaint about them.
    pub fn apply_config(&mut self, read: Result<ConfigSeed, String>) -> (r: Result<(), PluginError>)
        ensures
            match read {
                Ok(seed) => r is Ok && final(self)@ == old(self)@.configured(seed),
                Err(e) => r matches Err(p) && p@ == ErrorView::Permanent("invalid plugin config: "@ + e@) && final(self)@
                    == old(self)@,
            },
    {
        match read {
            Ok(seed) => {
                let cfg = PluginConfig::from_seed(seed);
                self.leader_ms = cfg.leader_ms;
                self.config = cfg;
                Ok(())
            },
            Err(e) => Err(PluginError::Permanent(cat("invalid plugin config: ", e.as_str()))),
        }
    }

    /// The card of this device, where it can be announced.
    pub fn announce_local_device_card(&self) -> (r: Option<Announcement>)
        ensures
            match r {
                Some(a) => {
                    &&& self@.has_announcer
                    &&& self@.local_device_id is Some
                    &&& announces(a, self@.config.role, self@.local_device_id->0)
                },
                None => !self@.has_announcer || self@.local_device_id is None,
            },
    {
        if !self.has_announcer {
            return None;
        }
        match &self.local_device_id {
            Some(device) => Some(card_announcement(self.config.role, device, SystemTime::now())),
            None => None,
        }
    }

    /// Loads the plugin: it takes its settings, takes up its first role, and announces
    /// its card.
    pub fn load(&mut self, ctx: LoadContext) -> (r: Result<LoadPlan, PluginError>)
        ensures
            (final(self)@, load_error(r)) == old(self)@.after_load(ctx),
            r matches Ok(plan) ==> {
                &&& step_views(plan.steps@) == old(self)@.load_steps(ctx)
                &&& plan.subscribe == ctx.substrate is Some
                &&& plan.announcement is Some
                &&& announces(plan.announcement->0, final(self)@.config.role, final(self)@.local_device_id->0)
            },
    {
        self.apply_config(ctx.config)?;
        self.has_announcer = true;
        let device = match ctx.local_device_id {
            Some(d) => d,
            None => {
                return Err(
                    permanent(
                        "LoadContext.audio_plane = None; manifest must declare capabilities.audio_plane = true AND the steward must be configured with AdmissionEngine::with_audio_plane(...)",
                    ),
                );
            },
        };
        self.has_audio_plane = true;
        self.local_device_id = Some(device);
        let setup = RoleSetup {
            alsa_pcm: self.config.alsa_pcm.clone(),
            source_pcm: self.config.source_pcm.clone(),
            has_alsa: ctx.has_alsa,
        };
        let target = resolve_initial_engagement(&ctx.substrate, &self.config);
        let steps = engage_role(&mut self.role_engagement, &setup, &target);
        let subscribe = ctx.substrate.is_some();
        if subscribe {
            self.subscribed = true;
        }
        let announcement = self.announce_local_device_card();
        self.loaded = true;
        Ok(LoadPlan { steps, subscribe, announcement })
    }

    /// Unloads the plugin: it stops listening, and ends what runs.
    pub fn unload(&mut self) -> (r: Vec<Step>)
        ensures
            final(self)@ == old(self)@.after_unload(),
            step_views(r@) == ending(old(self)@.engagement),
    {
        self.subscribed = false;
        let steps = self.role_engagement.disengage();
        self.has_audio_plane = false;
        self.has_announcer = false;
        self.local_device_id = None;
        self.loaded = false;
        steps
    }

    /// What is said of the plugin's health, which is always good.
    pub fn health_check(&self) -> (r: String)
        ensures
            r@ == "role="@ + self@.config.role.name() + " frames_sent="@ + decimal(self@.frames_sent as nat)
                + " frames_received="@ + decimal(self@.counters.frames_received as nat),
    {
        let head = cat3("role=", self.config.role.as_wire_str(), " frames_sent=");
        cat4(
            head.as_str(),
            to_decimal(self.frames_sent).as_str(),
            " frames_received=",
            to_decimal(self.counters.frames_received).as_str(),
        )
    }

    /// Sets the leader that was read out of a request.
    pub fn set_leader_ms(&mut self, read: Result<Option<u64>, String>) -> (r: Result<MultiroomResponse, PluginError>)
        ensures
            (final(self)@, response_result(r)) == old(self)@.leader_set(number_result(read)),
    {
        let n: u64 = match read {
            Ok(Some(n)) => n,
            Ok(None) => {
                return Err(permanent("multiroom.set_leader_ms: payload must contain integer 'value' field"));
            },
            Err(e) => {
                return Err(PluginError::Permanent(cat("multiroom.set_leader_ms: payload not JSON: ", e.as_str())));
            },
        };
        if n < LEADER_MS_MIN || n > LEADER_MS_MAX {
            return Err(
                PluginError::Permanent(
                    cat3("multiroom.set_leader_ms: value ", to_decimal(n).as_str(), " out of range [20, 2000]"),
                ),
            );
        }
        self.leader_ms = n;
        Ok(MultiroomResponse::LeaderMs { v: PAYLOAD_VERSION, leader_ms: n })
    }

    fn status_body(&self) -> (r: MultiroomResponse)
        ensures
            r@ == self@.status(),
    {
        MultiroomResponse::Status(
            StatusBody {
                v: PAYLOAD_VERSION,
                role: self.config.role,
                group_id: copy_opt(&self.config.group_id),
                alsa_pcm: self.config.alsa_pcm.clone(),
                source_pcm: self.config.source_pcm.clone(),
                leader_ms: self.leader_ms,
                leader_ms_min: LEADER_MS_MIN,
                leader_ms_max: LEADER_MS_MAX,
                frames_sent: self.frames_sent,
                frames_received: self.counters.frames_received,
                receiver_queue_depth: self.counters.queue_depth,
                receiver_underruns: self.counters.underruns,
            },
        )
    }

    fn frame_trace_body(&self, now_ms: u64) -> (r: MultiroomResponse)
        ensures
            r@ == self@.frame_trace(now_ms),
    {
        let (records, window_size) = match &self.role_engagement.trace {
            Some(t) => (t.snapshot(), t.window_size),
            None => {
                let none: Vec<FrameTraceRecord> = Vec::new();
                proof {
                    assert(record_views(none@) =~= seq![]);
                }
                (none, 0)
            },
        };
        MultiroomResponse::FrameTrace(
            FrameTraceBody {
                v: PAYLOAD_VERSION,
                group_id: copy_opt(&self.config.group_id),
                window_size,
                records,
                last_update_at_ms: now_ms,
            },
        )
    }

    /// Answers a request.
    pub fn handle_request(&mut self, request_type: &str, payload: &Vec<u8>, now_ms: u64) -> (r: Result<
        MultiroomResponse,
        PluginError,
    >)
        ensures
            (final(self)@, response_result(r)) == old(self)@.handled(request_type@, payload@, now_ms),
    {
        if !self.loaded {
            return Err(permanent("plugin not loaded"));
        }
        if text_eq(request_type, REQUEST_GET_STATUS) {
            Ok(self.status_body())
        } else if text_eq(request_type, REQUEST_SET_LEADER_MS) {
            let read = read_whole_number(payload, "value");
            self.set_leader_ms(read)
        } else if text_eq(request_type, REQUEST_FRAME_TRACE) {
            Ok(self.frame_trace_body(now_ms))
        } else {
            Err(
                PluginError::Permanent(
                    cat3("request type ", quoted(request_type).as_str(), " declared but no handler wired"),
                ),
            )
        }
    }
}

/// Whatever is asked of it, the plugin keeps a leader within its bounds.
pub proof fn leader_stays_in_bounds(p: PluginView, kind: Seq<char>, payload: Seq<u8>, now_ms: u64)
    requires
        LEADER_MS_MIN <= p.leader_ms <= LEADER_MS_MAX,
    ensures
        LEADER_MS_MIN <= p.handled(kind, payload, now_ms).0.leader_ms <= LEADER_MS_MAX,
{
}

/// A request that is answered with an error changes nothing.
pub proof fn refused_requests_change_nothing(p: PluginView, kind: Seq<char>, payload: Seq<u8>, now_ms: u64)
    requires
        p.handled(kind, payload, now_ms).1 is Err,
    ensures
        p.handled(kind, payload, now_ms).0 == p,
{
}

/// Unloading a plugin that was just loaded leaves no role taken up, whatever it was
/// loaded with.
pub proof fn unloading_gives_the_role_up(p: PluginView, ctx: LoadContext)
    ensures
        ({
            let after = p.after_load(ctx).0.after_unload();
            &&& !after.loaded
            &&& after.engagement.role == Role::Auto
            &&& after.engagement.group_id is None
            &&& !after.engagement.source_running
            &&& !after.engagement.receiver_running
            &&& after.local_device_id is None
        }),
{
}

/// A leader between 20 and 2000 milliseconds is taken and told back, and no other is; it is
/// all that changes.
pub proof fn leaders_in_bounds_are_taken(p: PluginView, n: u64)
    ensures
        20 <= n <= 2000 ==> {
            let (after, answer) = p.leader_set(Ok(Some(n)));
            &&& after == (PluginView { leader_ms: n, ..p })
            &&& answer matches Ok(ResponseView::LeaderMs { leader_ms, .. }) && leader_ms == n
        },
        n < 20 || n > 2000 ==> p.leader_set(Ok(Some(n))).0 == p && p.leader_set(Ok(Some(n))).1 is Err,
        p.leader_set(Ok(None)).1 is Err,
{
}

/// The status tells what is: the configured role, group and devices, the leader with its
/// bounds, and what was counted.
pub proof fn status_tells_what_is(p: PluginView)
    ensures
        p.status() matches ResponseView::Status {
            role,
            group_id,
            alsa_pcm,
            source_pcm,
            leader_ms,
            leader_ms_min,
            leader_ms_max,
            frames_sent,
            counters,
            ..
        } && {
            &&& role == p.config.role
            &&& group_id == p.config.group_id
            &&& alsa_pcm == p.config.alsa_pcm
            &&& source_pcm == p.config.source_pcm
            &&& leader_ms == p.leader_ms
            &&& leader_ms_min == 20
            &&& leader_ms_max == 2000
            &&& frames_sent == p.frames_sent
            &&& counters == p.counters
        },
{
}

/// Each kind of request gets its own answer; a plugin that is not loaded gives none.
pub proof fn requests_get_their_answer(p: PluginView, payload: Seq<u8>, now_ms: u64)
    ensures
        p.loaded ==> p.handled("multiroom.get_status"@, payload, now_ms) == (p, Ok::<ResponseView, ErrorView>(p.status())),
        p.loaded ==> p.handled("multiroom.set_leader_ms"@, payload, now_ms) == p.leader_set(
            json_whole_number(payload, "value"@),
        ),
        p.loaded ==> (p.handled("audio.multiroom.frame_trace.snapshot"@, payload, now_ms).1 matches Ok(
            ResponseView::FrameTrace { records, last_update_at_ms, .. },
        ) && last_update_at_ms == now_ms && records == (match p.engagement.trace {
            Some(t) => t.window,
            None => seq![],
        })),
        !p.loaded ==> p.handled("multiroom.get_status"@, payload, now_ms).1 is Err,
{
    reveal_strlit("multiroom.get_status");
    reveal_strlit("multiroom.set_leader_ms");
    reveal_strlit("audio.multiroom.frame_trace.snapshot");
    assert("multiroom.get_status"@.len() == 20);
    assert("multiroom.set_leader_ms"@.len() == 23);
    assert("audio.multiroom.frame_trace.snapshot"@.len() == 36);
}

/// A device is shown as leader, member or alone by its role, under a name that starts its
/// identifier up to the first dash.
pub proof fn badges_tell_the_role(head: Seq<char>, rest: Seq<char>)
    requires
        !head.contains('-'),
    ensures
        badge_of(Role::Source) == StateBadge::LeaderOfGroup,
        badge_of(Role::Receiver) == StateBadge::MemberOfGroup,
        badge_of(Role::Auto) == StateBadge::Solo,
        display_name_of(head + seq!['-'] + rest) == "evo-"@ + head,
        display_name_of(head) == "evo-"@ + head,
{
    columns_come_apart(head, rest, 2, '-');
}

/// Loading takes the settings, with their leader, and the role that the framework or the
/// settings give; without settings, or without a way to other devices, it fails.
pub proof fn loading_takes_up_the_role(p: PluginView, ctx: LoadContext)
    ensures
        ctx.config is Err || ctx.local_device_id is None <==> p.after_load(ctx).1 is Some,
        p.after_load(ctx).1 is None ==> {
            let after = p.after_load(ctx).0;
            let set = config_of(ctx.config->Ok_0);
            &&& after.loaded
            &&& after.config == set
            &&& after.leader_ms == set.leader_ms
            &&& after.local_device_id == Some(ctx.local_device_id->0@)
            &&& after.engagement.role == initial_target(ctx.substrate, set).role
            &&& after.engagement.group_id == initial_target(ctx.substrate, set).group_id
        },
{
}

/// A device is announced under its own name, as what its role makes it.
pub proof fn devices_are_announced(a: Announcement, role: Role, device: Seq<char>)
    requires
        announces(a, role, device),
    ensures
        a.subject_type@ == "audio_multiroom_device_card"@,
        a.scheme@ == "evo.audio.multiroom.device_card"@,
        a.value@ == device,
        a.card.device_or_group_id@ == device,
        role == Role::Source ==> a.card.state_badge == StateBadge::LeaderOfGroup,
        role == Role::Receiver ==> a.card.state_badge == StateBadge::MemberOfGroup,
        role == Role::Auto ==> a.card.state_badge == StateBadge::Solo,
        a.card.transport_state is Idle,
        a.card.current_track is None,
{
}

/// Each field is seen under its own name, as it is.
pub proof fn fields_are_seen_under_their_names(multiroom_evo_native_plugin: MultiroomEvoNativePlugin)
    ensures
        multiroom_evo_native_plugin@.loaded == multiroom_evo_native_plugin.loaded,
        multiroom_evo_native_plugin@.config == multiroom_evo_native_plugin.config@,
        multiroom_evo_native_plugin@.has_audio_plane == multiroom_evo_native_plugin.has_audio_plane,
        multiroom_evo_native_plugin@.engagement == multiroom_evo_native_plugin.role_engagement@,
        multiroom_evo_native_plugin@.subscribed == multiroom_evo_native_plugin.subscribed,
        multiroom_evo_native_plugin@.frames_sent == multiroom_evo_native_plugin.frames_sent,
        multiroom_evo_native_plugin@.leader_ms == multiroom_evo_native_plugin.leader_ms,
        multiroom_evo_native_plugin@.counters == multiroom_evo_native_plugin.counters,
        multiroom_evo_native_plugin@.has_announcer == multiroom_evo_native_plugin.has_announcer,
        multiroom_evo_native_plugin@.local_device_id == opt_text(multiroom_evo_native_plugin.local_device_id),
{
}

} // verus!
