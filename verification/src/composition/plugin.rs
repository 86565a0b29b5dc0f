//! The composition plugin: its life cycle and its requests.

use crate::error::{permanent, transient, ErrorView, PluginError};
use crate::number::{debug_text, decimal, quoted, to_decimal};
use crate::request::{refuse_type, too_late, unknown_type, PluginRequest};
use crate::text::{cat, cat3, cat5, opt_text, owned, slices, text_eq, texts, trim, trimmed};
use vstd::prelude::*;

verus! {

/// The name of the plugin.
pub const PLUGIN_NAME: &'static str = "org.evoframework.composition.alsa";

/// The request that the plugin answers.
pub const REQUEST_COMPOSITION_SELECT_MODE: &'static str = "composition.select_mode";

/// The version of what requests and answers hold.
pub const PAYLOAD_VERSION: u32 = 1;

/// The mode in which bytes go through as they are: the only one there is.
pub const MODE_PASSTHROUGH: &'static str = "passthrough";

/// The request for a mode.
#[derive(Debug, Clone)]
pub struct SelectModeRequest {
    pub v: u32,
    pub mode: String,
}

/// The answer to the request for a mode.
#[derive(Debug, Clone)]
pub struct SelectModeResponse {
    pub v: u32,
    pub status: &'static str,
    pub active_mode: Option<String>,
    pub error: Option<String>,
}

/// [`SelectModeResponse`] over mathematical values.
#[verifier::ext_equal]
pub struct ResponseView {
    pub v: u32,
    pub status: Seq<char>,
    pub active_mode: Option<Seq<char>>,
    pub error: Option<Seq<char>>,
}

impl View for SelectModeResponse {
    type V = ResponseView;

    open spec fn view(&self) -> ResponseView {
        ResponseView {
            v: self.v,
            status: self.status@,
            active_mode: opt_text(self.active_mode),
            error: opt_text(self.error),
        }
    }
}

/// The answer where a mode is active.
pub open spec fn mode_active(mode: Seq<char>) -> ResponseView {
    ResponseView { v: PAYLOAD_VERSION, status: "ok"@, active_mode: Some(mode), error: None }
}

/// The answer where a request is refused.
pub open spec fn refused(error: Seq<char>) -> ResponseView {
    ResponseView { v: PAYLOAD_VERSION, status: "bad_request"@, active_mode: None, error: Some(error) }
}

impl SelectModeResponse {
    /// The answer where a mode is active.
    pub fn ok(active_mode: String) -> (r: SelectModeResponse)
        ensures
            r@ == mode_active(active_mode@),
    {
        SelectModeResponse { v: PAYLOAD_VERSION, status: "ok", active_mode: Some(active_mode), error: None }
    }

    /// The answer where a request is refused.
    pub fn bad_request(error: String) -> (r: SelectModeResponse)
        ensures
            r@ == refused(error@),
    {
        SelectModeResponse { v: PAYLOAD_VERSION, status: "bad_request", active_mode: None, error: Some(error) }
    }
}

/// What the framework says of the ends.
#[derive(Debug, Clone)]
pub enum RoutingProbe {
    /// They are set.
    Configured,
    /// They are not set yet.
    NotConfigured,
    /// Something went wrong.
    Failed(String),
}

/// The composition plugin.
#[derive(Debug)]
pub struct AlsaCompositionPlugin {
    pub loaded: bool,
    pub current_mode: String,
    /// Whether the framework says where the ends are.
    pub audio_routing: bool,
    pub requests_handled: u64,
}

/// [`AlsaCompositionPlugin`] over mathematical values.
#[verifier::ext_equal]
pub struct PluginView {
    pub loaded: bool,
    pub current_mode: Seq<char>,
    pub audio_routing: bool,
    pub requests_handled: u64,
}

impl View for AlsaCompositionPlugin {
    type V = PluginView;

    open spec fn view(&self) -> PluginView {
        PluginView {
            loaded: self.loaded,
            current_mode: self.current_mode@,
            audio_routing: self.audio_routing,
            requests_handled: self.requests_handled,
        }
    }
}

/// Why the plugin is not loaded without the framework's word on the ends.
pub open spec fn no_routing() -> Seq<char> {
    "composition plugin requires LoadContext::audio_routing; received None — manifest declares [capabilities.composition] but framework did not provision a handle. Indicates a manifest / trust / admission misconfiguration."@
}

/// The answer to the request for a mode that was read, or could not be.
pub open spec fn mode_answer(decoded: Result<SelectModeRequest, String>) -> ResponseView {
    match decoded {
        Err(e) => refused("invalid JSON payload: "@ + e@),
        Ok(req) => if req.v != PAYLOAD_VERSION {
            refused("unsupported payload version: "@ + decimal(req.v as nat) + "; expected 1"@)
        } else if trimmed(req.mode@).len() == 0 {
            refused("mode must not be empty"@)
        } else if trimmed(req.mode@) != MODE_PASSTHROUGH@ {
            refused(
                "unknown mode "@ + debug_text(trimmed(req.mode@)) + "; declared modes: ["@ + debug_text(
                    MODE_PASSTHROUGH@,
                ) + "]"@,
            )
        } else {
            mode_active(MODE_PASSTHROUGH@)
        },
    }
}

/// The plugin and the answer after a request. Only a request for a mode is counted.
pub open spec fn handled(p: PluginView, req: PluginRequest, decoded: Result<SelectModeRequest, String>) -> (
    PluginView,
    Result<ResponseView, ErrorView>,
) {
    if !p.loaded {
        (p, Err(ErrorView::Permanent("alsa composition plugin not loaded"@)))
    } else if req.past_deadline {
        (p, Err(too_late()))
    } else if req.request_type@ != REQUEST_COMPOSITION_SELECT_MODE@ {
        (p, Err(unknown_type(req.request_type@, REQUEST_COMPOSITION_SELECT_MODE@)))
    } else {
        let answer = mode_answer(decoded);
        (
            PluginView {
                requests_handled: (p.requests_handled + 1) as u64,
                current_mode: match answer.active_mode {
                    Some(m) => m,
                    None => p.current_mode,
                },
                ..p
            },
            Ok(answer),
        )
    }
}

/// The view of an answer or an error.
pub open spec fn response_result(r: Result<SelectModeResponse, PluginError>) -> Result<ResponseView, ErrorView> {
    match r {
        Ok(b) => Ok(b@),
        Err(e) => Err(e@),
    }
}

/// Answers the request for a mode.
pub fn answer_mode(decoded: &Result<SelectModeRequest, String>) -> (r: SelectModeResponse)
    ensures
        r@ == mode_answer(*decoded),
{
    let req = match decoded {
        Ok(r) => r,
        Err(e) => return SelectModeResponse::bad_request(cat("invalid JSON payload: ", e.as_str())),
    };
    if req.v != PAYLOAD_VERSION {
        return SelectModeResponse::bad_request(
            cat3("unsupported payload version: ", to_decimal(req.v as u64).as_str(), "; expected 1"),
        );
    }
    let mode = trim(req.mode.as_str());
    if mode.is_empty() {
        return SelectModeResponse::bad_request("mode must not be empty".to_owned());
    }
    if !text_eq(mode, MODE_PASSTHROUGH) {
        return SelectModeResponse::bad_request(
            cat5(
                "unknown mode ",
                quoted(mode).as_str(),
                "; declared modes: [",
                quoted(MODE_PASSTHROUGH).as_str(),
                "]",
            ),
        );
    }
    SelectModeResponse::ok(mode.to_owned())
}

impl PluginView {
    /// The plugin after loading, where the framework says where the ends are or does not.
    pub open spec fn after_load(self, routing: bool) -> PluginView {
        if routing {
            PluginView { loaded: true, current_mode: MODE_PASSTHROUGH@, audio_routing: true, ..self }
        } else {
            self
        }
    }

    /// The plugin after unloading.
    pub open spec fn after_unload(self) -> PluginView {
        PluginView { loaded: false, audio_routing: false, ..self }
    }
}

impl AlsaCompositionPlugin {
    /// Makes a plugin.
    pub fn new() -> (r: AlsaCompositionPlugin)
        ensures
            r@ == (PluginView {
                loaded: false,
                current_mode: MODE_PASSTHROUGH@,
                audio_routing: false,
                requests_handled: 0,
            }),
    {
        AlsaCompositionPlugin {
            loaded: false,
            current_mode: MODE_PASSTHROUGH.to_owned(),
            audio_routing: false,
            requests_handled: 0,
        }
    }

    /// The requests that were counted.
    pub fn requests_handled(&self) -> (r: u64)
        ensures
            r == self@.requests_handled,
    {
        self.requests_handled
    }

    /// The mode that is active.
    pub fn current_mode(&self) -> (r: &str)
        ensures
            r@ == self@.current_mode,
    {
        self.current_mode.as_str()
    }

    /// The modes that there are.
    pub fn declared_modes() -> (r: Vec<String>)
        ensures
            texts(r@) == seq![MODE_PASSTHROUGH@],
    {
        let names = vec![MODE_PASSTHROUGH];
        proof {
            assert(slices(names@) =~= seq![MODE_PASSTHROUGH@]);
        }
        owned(names)
    }

    /// The requests that the plugin answers.
    pub fn request_types(&self) -> (r: Vec<String>)
        ensures
            texts(r@) == seq![REQUEST_COMPOSITION_SELECT_MODE@],
    {
        let names = vec![REQUEST_COMPOSITION_SELECT_MODE];
        proof {
            assert(slices(names@) =~= seq![REQUEST_COMPOSITION_SELECT_MODE@]);
        }
        owned(names)
    }

    /// Loads the plugin, where the framework says where the ends are. It starts in the
    /// mode in which bytes go through as they are.
    pub fn install_routing(&mut self, routing: bool) -> (r: Result<(), PluginError>)
        ensures
            final(self)@ == old(self)@.after_load(routing),
            if routing {
                r is Ok && final(self)@ == (PluginView {
                    loaded: true,
                    current_mode: MODE_PASSTHROUGH@,
                    audio_routing: true,
                    ..old(self)@
                })
            } else {
                r matches Err(e) && e@ == ErrorView::Permanent(no_routing()) && final(self)@ == old(self)@
            },
    {
        if !routing {
            return Err(
                permanent(
                    "composition plugin requires LoadContext::audio_routing; received None — manifest declares [capabilities.composition] but framework did not provision a handle. Indicates a manifest / trust / admission misconfiguration.",
                ),
            );
        }
        self.audio_routing = true;
        self.current_mode = MODE_PASSTHROUGH.to_owned();
        self.loaded = true;
        Ok(())
    }

    /// Unloads the plugin.
    pub fn unload(&mut self)
        ensures
            final(self)@ == old(self)@.after_unload(),
            final(self)@ == (PluginView { loaded: false, audio_routing: false, ..old(self)@ }),
    {
        self.audio_routing = false;
        self.loaded = false;
    }

    /// What ails the plugin, where something does. That the ends are not set yet, is
    /// nothing of the kind.
    pub fn health_check(&self, probe: &RoutingProbe) -> (r: Option<String>)
        ensures
            opt_text(r) == if !self@.loaded {
                Some("alsa composition plugin not loaded"@)
            } else {
                match *probe {
                    RoutingProbe::Failed(e) => Some(
                        "audio routing surface returned an unexpected error: "@ + e@,
                    ),
                    _ => None,
                }
            },
    {
        if !self.loaded {
            return Some("alsa composition plugin not loaded".to_owned());
        }
        match probe {
            RoutingProbe::Failed(e) => Some(
                cat("audio routing surface returned an unexpected error: ", e.as_str()),
            ),
            _ => None,
        }
    }

    /// Handles a request whose payload was read as one for a mode, or could not be.
    pub fn handle_request(&mut self, req: &PluginRequest, decoded: &Result<SelectModeRequest, String>) -> (r: Result<
        SelectModeResponse,
        PluginError,
    >)
        requires
            old(self).loaded && !req.past_deadline && req.request_type@ == REQUEST_COMPOSITION_SELECT_MODE@
                ==> old(self).requests_handled < u64::MAX,
        ensures
            (final(self)@, response_result(r)) == handled(old(self)@, *req, *decoded),
    {
        if !self.loaded {
            return Err(permanent("alsa composition plugin not loaded"));
        }
        if req.past_deadline {
            return Err(transient("request deadline already expired"));
        }
        if !text_eq(req.request_type.as_str(), REQUEST_COMPOSITION_SELECT_MODE) {
            return Err(refuse_type(req.request_type.as_str(), REQUEST_COMPOSITION_SELECT_MODE));
        }
        self.requests_handled += 1;
        let answer = answer_mode(decoded);
        if let Some(mode) = &answer.active_mode {
            self.current_mode = mode.clone();
        }
        Ok(answer)
    }
}

/// Whatever is asked of it, a plugin that is in the mode in which bytes go through as
/// they are stays in it.
pub proof fn bytes_go_through_as_they_are(p: PluginView, req: PluginRequest, decoded: Result<SelectModeRequest, String>)
    requires
        p.current_mode == MODE_PASSTHROUGH@,
    ensures
        handled(p, req, decoded).0.current_mode == MODE_PASSTHROUGH@,
{
}

/// Only the declared mode can be asked for: a request of the right version that names it,
/// with or without white space at its ends, is answered with it, and any other request is
/// refused and says why.
pub proof fn only_declared_modes_are_active(req: SelectModeRequest, e: String)
    ensures
        req.v == 1 && trimmed(req.mode@) == "passthrough"@ ==> mode_answer(Ok(req)).active_mode == Some("passthrough"@)
            && mode_answer(Ok(req)).error is None,
        req.v != 1 || trimmed(req.mode@) != "passthrough"@ ==> mode_answer(Ok(req)).active_mode is None && mode_answer(
            Ok(req),
        ).error is Some,
        mode_answer(Err(e)).active_mode is None && mode_answer(Err(e)).error is Some,
{
    reveal_strlit("passthrough");
}

/// Requests for a mode are counted once each, and nothing else is; a plugin that is not
/// loaded, a request that comes too late and one of another type are refused.
pub proof fn mode_requests_are_counted(p: PluginView, req: PluginRequest, decoded: Result<SelectModeRequest, String>)
    requires
        p.requests_handled < u64::MAX,
    ensures
        p.loaded && !req.past_deadline && req.request_type@ == "composition.select_mode"@ ==> {
            let (after, answer) = handled(p, req, decoded);
            &&& after.requests_handled == p.requests_handled + 1
            &&& answer == Ok::<ResponseView, ErrorView>(mode_answer(decoded))
            &&& after.loaded
            &&& mode_answer(decoded).active_mode is None ==> after.current_mode == p.current_mode
        },
        !p.loaded || req.past_deadline || req.request_type@ != "composition.select_mode"@ ==> handled(p, req, decoded).0 == p
            && handled(p, req, decoded).1 is Err,
{
}

/// Each field is seen under its own name, as it is.
pub proof fn fields_are_seen_under_their_names(
    select_mode_response: SelectModeResponse,
    alsa_composition_plugin: AlsaCompositionPlugin,
)
    ensures
        select_mode_response@.v == select_mode_response.v,
        select_mode_response@.status == select_mode_response.status@,
        select_mode_response@.active_mode == opt_text(select_mode_response.active_mode),
        select_mode_response@.error == opt_text(select_mode_response.error),
        alsa_composition_plugin@.loaded == alsa_composition_plugin.loaded,
        alsa_composition_plugin@.current_mode == alsa_composition_plugin.current_mode@,
        alsa_composition_plugin@.audio_routing == alsa_composition_plugin.audio_routing,
        alsa_composition_plugin@.requests_handled == alsa_composition_plugin.requests_handled,
{
}

/// A plugin that is loaded starts in the mode in which bytes go through as they are, and
/// only where it can be told where the ends are; unloading keeps the mode and the count.
pub proof fn loading_starts_with_bytes_as_they_are(p: PluginView)
    ensures
        p.after_load(true).loaded,
        p.after_load(true).audio_routing,
        p.after_load(true).current_mode == "passthrough"@,
        p.after_load(true).requests_handled == p.requests_handled,
        p.after_load(false) == p,
        !p.after_unload().loaded,
        !p.after_unload().audio_routing,
        p.after_unload().current_mode == p.current_mode,
        p.after_unload().requests_handled == p.requests_handled,
{
}

} // verus!
