//! The metadata plugin: its life cycle and its requests.

use crate::config_value::ConfigTable;
use crate::error::{permanent, transient, ErrorView, PluginError};
use crate::metadata::config::{config_of, default_config, ConfigView, PluginConfig};
use crate::metadata::query::{answered, query_metadata, Answer, QueryAction, QueryActionView, QueryReply};
use crate::metadata::response::{MetadataQueryResponse, ResponseView};
use crate::number::debug_text;
use crate::request::{refuse_type, too_late, unknown_type, PluginRequest};
use crate::text::{cat, opt_slice, owned, slices, text_eq, texts};
use vstd::prelude::*;

verus! {

/// The name of the plugin.
pub const PLUGIN_NAME: &'static str = "org.evoframework.metadata.local";

/// The request that the plugin answers.
pub const REQUEST_METADATA_QUERY: &'static str = "metadata.query";

/// The metadata plugin.
#[derive(Debug)]
pub struct MetadataLocalPlugin {
    pub loaded: bool,
    pub config: PluginConfig,
    pub requests_handled: u64,
}

/// [`MetadataLocalPlugin`] over mathematical values.
#[verifier::ext_equal]
pub struct PluginView {
    pub loaded: bool,
    pub config: ConfigView,
    pub requests_handled: u64,
}

impl View for MetadataLocalPlugin {
    type V = PluginView;

    open spec fn view(&self) -> PluginView {
        PluginView { loaded: self.loaded, config: self.config@, requests_handled: self.requests_handled }
    }
}

/// What comes of a request: an action that is needed first, or the plugin as it then is
/// and the answer.
pub enum Outcome {
    Need(QueryActionView),
    Done(PluginView, Result<ResponseView, ErrorView>),
}

/// The view of what comes of a request.
pub open spec fn outcome(
    r: Result<Result<MetadataQueryResponse, PluginError>, QueryAction>,
    p: PluginView,
) -> Outcome {
    match r {
        Ok(Ok(b)) => Outcome::Done(p, Ok(b@)),
        Ok(Err(e)) => Outcome::Done(p, Err(e@)),
        Err(a) => Outcome::Need(a@),
    }
}

/// What comes of a request. A plugin that is not loaded and a request that comes too
/// late are refused and not counted; every other request is counted.
pub open spec fn handled(p: PluginView, req: PluginRequest, h: Seq<QueryReply>) -> Outcome {
    if !p.loaded {
        Outcome::Done(p, Err(ErrorView::Permanent("metadata local plugin not loaded"@)))
    } else if req.past_deadline {
        Outcome::Done(p, Err(too_late()))
    } else {
        let after = PluginView { requests_handled: (p.requests_handled + 1) as u64, ..p };
        if req.request_type@ != REQUEST_METADATA_QUERY@ {
            Outcome::Done(after, Err(unknown_type(req.request_type@, REQUEST_METADATA_QUERY@)))
        } else {
            match answered(p.config.metadata_profile, p.config.library_roots, req.payload@, h) {
                Answer::Ready(r) => Outcome::Done(after, Ok(r)),
                Answer::Need(a) => Outcome::Need(a),
            }
        }
    }
}

/// A plugin that is not loaded, and a request that comes too late, change nothing and
/// are refused; a query to a loaded plugin that comes in time is never refused, and is
/// counted once when it is answered.
pub proof fn queries_in_time_are_answered(p: PluginView, req: PluginRequest, h: Seq<QueryReply>)
    requires
        p.loaded && !req.past_deadline ==> p.requests_handled < u64::MAX,
        handled(p, req, h) is Done,
    ensures
        !p.loaded || req.past_deadline ==> {
            &&& handled(p, req, h)->Done_0 == p
            &&& handled(p, req, h)->Done_1 is Err
        },
        p.loaded && !req.past_deadline ==> {
            &&& handled(p, req, h)->Done_0.requests_handled == p.requests_handled + 1
            &&& handled(p, req, h)->Done_0.config == p.config
            &&& handled(p, req, h)->Done_1 is Ok <==> req.request_type@ == REQUEST_METADATA_QUERY@
        },
{
}

impl PluginView {
    /// The plugin after loading.
    pub open spec fn after_load(self, table: ConfigTable) -> PluginView {
        match config_of(table) {
            Ok(config) => PluginView { loaded: true, config, ..self },
            Err(_) => self,
        }
    }

    /// The plugin after unloading.
    pub open spec fn after_unload(self) -> PluginView {
        PluginView { loaded: false, config: default_config(), ..self }
    }
}

impl MetadataLocalPlugin {
    /// Makes a plugin.
    pub fn new() -> (r: MetadataLocalPlugin)
        ensures
            r@ == (PluginView { loaded: false, config: default_config(), requests_handled: 0 }),
    {
        MetadataLocalPlugin { loaded: false, config: PluginConfig::defaults(), requests_handled: 0 }
    }

    /// The requests that were counted.
    pub fn requests_handled(&self) -> (r: u64)
        ensures
            r == self@.requests_handled,
    {
        self.requests_handled
    }

    /// The requests that the plugin answers.
    pub fn request_types(&self) -> (r: Vec<String>)
        ensures
            texts(r@) == seq![REQUEST_METADATA_QUERY@],
    {
        let names = vec![REQUEST_METADATA_QUERY];
        proof {
            assert(slices(names@) =~= seq![REQUEST_METADATA_QUERY@]);
        }
        owned(names)
    }

    /// Loads the plugin with settings. Where there is a complaint about them, it stays as
    /// it is.
    pub fn load(&mut self, table: &ConfigTable) -> (r: Result<(), PluginError>)
        ensures
            final(self)@ == old(self)@.after_load(*table),
            match config_of(*table) {
                Ok(config) => r is Ok && final(self)@ == (PluginView { loaded: true, config, ..old(self)@ }),
                Err(e) => r matches Err(p) && p@ == ErrorView::Permanent("invalid plugin config: "@ + e.text())
                    && final(self)@ == old(self)@,
            },
    {
        match PluginConfig::from_toml_table(table) {
            Ok(config) => {
                self.config = config;
                self.loaded = true;
                Ok(())
            },
            Err(e) => Err(PluginError::Permanent(cat("invalid plugin config: ", e.to_text().as_str()))),
        }
    }

    /// Unloads the plugin: it forgets its settings.
    pub fn unload(&mut self)
        ensures
            final(self)@ == old(self)@.after_unload(),
            final(self)@ == (PluginView { loaded: false, config: default_config(), ..old(self)@ }),
    {
        self.loaded = false;
        self.config = PluginConfig::defaults();
    }

    /// What ails the plugin, where something does.
    pub fn health_check(&self) -> (r: Option<&'static str>)
        ensures
            opt_slice(r) == if self@.loaded {
                None
            } else {
                Some("metadata local plugin not loaded"@)
            },
    {
        if self.loaded {
            None
        } else {
            Some("metadata local plugin not loaded")
        }
    }

    /// Handles a request as far as the replies go: its answer, or the action whose reply
    /// comes next. As long as an action is asked for, the plugin does not change.
    pub fn handle_request(&mut self, req: &PluginRequest, replies: &Vec<QueryReply>) -> (r: Result<
        Result<MetadataQueryResponse, PluginError>,
        QueryAction,
    >)
        requires
            old(self).loaded && !req.past_deadline ==> old(self).requests_handled < u64::MAX,
        ensures
            outcome(r, final(self)@) == handled(old(self)@, *req, replies@),
            r is Err ==> final(self)@ == old(self)@,
    {
        if !self.loaded {
            return Ok(Err(permanent("metadata local plugin not loaded")));
        }
        if req.past_deadline {
            return Ok(Err(transient("request deadline already expired")));
        }
        if !text_eq(req.request_type.as_str(), REQUEST_METADATA_QUERY) {
            self.requests_handled += 1;
            return Ok(Err(refuse_type(req.request_type.as_str(), REQUEST_METADATA_QUERY)));
        }
        match query_metadata(self.config.metadata_profile, &self.config.library_roots, &req.payload, replies) {
            Ok(b) => {
                self.requests_handled += 1;
                Ok(Ok(b))
            },
            Err(a) => Err(a),
        }
    }
}

/// A query is answered with the plugin's own profile and roots; what is no query is
/// refused by its name, and a plugin that is not loaded, or that is asked too late, does
/// not answer.
pub proof fn queries_are_answered_by_the_settings(p: PluginView, req: PluginRequest, h: Seq<QueryReply>)
    ensures
        !p.loaded ==> handled(p, req, h) == Outcome::Done(
            p,
            Err(ErrorView::Permanent("metadata local plugin not loaded"@)),
        ),
        p.loaded && req.past_deadline ==> handled(p, req, h) == Outcome::Done(
            p,
            Err(ErrorView::Transient("request deadline already expired"@)),
        ),
        p.loaded && !req.past_deadline && req.request_type@ == "metadata.query"@ ==> match answered(
            p.config.metadata_profile,
            p.config.library_roots,
            req.payload@,
            h,
        ) {
            Answer::Ready(r) => handled(p, req, h) is Done && handled(p, req, h)->Done_1 == Ok::<ResponseView, ErrorView>(r),
            Answer::Need(a) => handled(p, req, h) == Outcome::Need(a),
        },
        p.loaded && !req.past_deadline && req.request_type@ != "metadata.query"@ ==> handled(p, req, h) is Done && handled(
            p,
            req,
            h,
        )->Done_1 == Err::<ResponseView, ErrorView>(
            ErrorView::Permanent(
                "unknown request type: "@ + debug_text(req.request_type@) + " (not one of: ["@ + debug_text(
                    "metadata.query"@,
                ) + "])"@,
            ),
        ),
{
}

/// Each field is seen under its own name, as it is.
pub proof fn fields_are_seen_under_their_names(metadata_local_plugin: MetadataLocalPlugin)
    ensures
        metadata_local_plugin@.loaded == metadata_local_plugin.loaded,
        metadata_local_plugin@.config == metadata_local_plugin.config@,
        metadata_local_plugin@.requests_handled == metadata_local_plugin.requests_handled,
{
}

/// Loading takes up the settings, or else changes nothing; unloading gives them up; and
/// neither forgets how many requests were handled.
pub proof fn unloading_gives_up_what_loading_took(p: PluginView, table: ConfigTable)
    ensures
        config_of(table) matches Ok(c) ==> p.after_load(table).loaded && p.after_load(table).config == c,
        config_of(table) is Err ==> p.after_load(table) == p,
        p.after_load(table).requests_handled == p.requests_handled,
        !p.after_unload().loaded,
        p.after_unload().config == default_config(),
        p.after_unload().requests_handled == p.requests_handled,
        p.after_load(table).after_unload() == p.after_unload(),
{
}

} // verus!
