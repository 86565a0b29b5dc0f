//! The artwork plugin: its life cycle and its requests.

use crate::artwork::config::PluginConfig;
use crate::config_value::ConfigTable;
use crate::error::{permanent, transient, ErrorView, PluginError};
use crate::library::roots::library_roots;
use crate::number::debug_text;
use crate::request::{refuse_type, too_late, unknown_type, PluginRequest};
use crate::text::{cat, opt_slice, opt_text, owned, slices, text_eq, texts};
use vstd::prelude::*;

verus! {

/// The name of the plugin.
pub const PLUGIN_NAME: &'static str = "org.evoframework.artwork.local";

/// The request that the plugin answers.
pub const REQUEST_ARTWORK_RESOLVE: &'static str = "artwork.resolve";

/// The artwork plugin.
#[derive(Debug)]
pub struct ArtworkLocalPlugin {
    pub loaded: bool,
    pub config: PluginConfig,
    /// Where covers are kept.
    pub state_dir: Option<String>,
    pub requests_handled: u64,
}

/// [`ArtworkLocalPlugin`] over mathematical values.
#[verifier::ext_equal]
pub struct PluginView {
    pub loaded: bool,
    pub library_roots: Seq<Seq<char>>,
    pub state_dir: Option<Seq<char>>,
    pub requests_handled: u64,
}

impl View for ArtworkLocalPlugin {
    type V = PluginView;

    open spec fn view(&self) -> PluginView {
        PluginView {
            loaded: self.loaded,
            library_roots: self.config@,
            state_dir: opt_text(self.state_dir),
            requests_handled: self.requests_handled,
        }
    }
}

/// The plugin and the refusal of a request, where it is refused. A plugin that is not
/// loaded and a request that comes too late are not counted; every other request is.
pub open spec fn admitted(p: PluginView, req: PluginRequest) -> (PluginView, Option<ErrorView>) {
    if !p.loaded {
        (p, Some(ErrorView::Permanent("artwork plugin not loaded"@)))
    } else if req.past_deadline {
        (p, Some(too_late()))
    } else {
        let after = PluginView { requests_handled: (p.requests_handled + 1) as u64, ..p };
        if req.request_type@ != REQUEST_ARTWORK_RESOLVE@ {
            (after, Some(unknown_type(req.request_type@, REQUEST_ARTWORK_RESOLVE@)))
        } else {
            (after, None)
        }
    }
}

/// The view of an admission.
pub open spec fn refusal(r: Result<(), PluginError>) -> Option<ErrorView> {
    match r {
        Ok(_) => None,
        Err(e) => Some(e@),
    }
}

impl PluginView {
    /// The plugin after loading.
    pub open spec fn after_load(self, table: ConfigTable, dir: Seq<char>) -> PluginView {
        match library_roots(table) {
            Ok(roots) => PluginView { loaded: true, library_roots: roots, state_dir: Some(dir), ..self },
            Err(_) => self,
        }
    }

    /// The plugin after unloading.
    pub open spec fn after_unload(self) -> PluginView {
        PluginView { loaded: false, library_roots: seq![], state_dir: None, ..self }
    }
}

impl ArtworkLocalPlugin {
    /// Makes a plugin.
    pub fn new() -> (r: ArtworkLocalPlugin)
        ensures
            r@ == (PluginView { loaded: false, library_roots: seq![], state_dir: None, requests_handled: 0 }),
    {
        ArtworkLocalPlugin { loaded: false, config: PluginConfig::defaults(), state_dir: None, requests_handled: 0 }
    }

    /// The requests that were counted.
    pub fn requests_handled(&self) -> (r: u64)
        ensures
            r == self@.requests_handled,
    {
        self.requests_handled
    }

    /// The requests that the plugin answers.
    pub fn request_types(&self) -> (r: Vec<String>)
        ensures
            texts(r@) == seq![REQUEST_ARTWORK_RESOLVE@],
    {
        let names = vec![REQUEST_ARTWORK_RESOLVE];
        proof {
            assert(slices(names@) =~= seq![REQUEST_ARTWORK_RESOLVE@]);
        }
        owned(names)
    }

    /// Loads the plugin with settings and a directory for what it keeps. Where there is a
    /// complaint about the settings, it stays as it is.
    pub fn load(&mut self, table: &ConfigTable, state_dir: &str) -> (r: Result<(), PluginError>)
        ensures
            final(self)@ == old(self)@.after_load(*table, state_dir@),
            match library_roots(*table) {
                Ok(roots) => r is Ok && final(self)@ == (PluginView {
                    loaded: true,
                    library_roots: roots,
                    state_dir: Some(state_dir@),
                    ..old(self)@
                }),
                Err(e) => r matches Err(p) && p@ == ErrorView::Permanent("invalid plugin config: "@ + e.text())
                    && final(self)@ == old(self)@,
            },
    {
        match PluginConfig::from_toml_table(table) {
            Ok(config) => {
                self.config = config;
                self.state_dir = Some(state_dir.to_owned());
                self.loaded = true;
                Ok(())
            },
            Err(e) => Err(PluginError::Permanent(cat("invalid plugin config: ", e.to_text().as_str()))),
        }
    }

    /// Unloads the plugin: it forgets its settings and its directory.
    pub fn unload(&mut self)
        ensures
            final(self)@ == old(self)@.after_unload(),
            final(self)@ == (PluginView { loaded: false, library_roots: seq![], state_dir: None, ..old(self)@ }),
    {
        self.loaded = false;
        self.config = PluginConfig::defaults();
        self.state_dir = None;
    }

    /// What ails the plugin, where something does.
    pub fn health_check(&self) -> (r: Option<&'static str>)
        ensures
            opt_slice(r) == if self@.loaded {
                None
            } else {
                Some("artwork plugin not loaded"@)
            },
    {
        if self.loaded {
            None
        } else {
            Some("artwork plugin not loaded")
        }
    }

    /// Counts a request and lets it pass, or refuses it.
    pub fn admit_request(&mut self, req: &PluginRequest) -> (r: Result<(), PluginError>)
        requires
            old(self).loaded && !req.past_deadline ==> old(self).requests_handled < u64::MAX,
        ensures
            (final(self)@, refusal(r)) == admitted(old(self)@, *req),
    {
        if !self.loaded {
            return Err(permanent("artwork plugin not loaded"));
        }
        if req.past_deadline {
            return Err(transient("request deadline already expired"));
        }
        self.requests_handled += 1;
        if !text_eq(req.request_type.as_str(), REQUEST_ARTWORK_RESOLVE) {
            return Err(refuse_type(req.request_type.as_str(), REQUEST_ARTWORK_RESOLVE));
        }
        Ok(())
    }
}

/// A request is let in where the plugin is loaded, the request is in time and of the one
/// known type. Every request that is in time is counted, let in or not; nothing else
/// changes.
pub proof fn requests_are_let_in(p: PluginView, req: PluginRequest)
    requires
        p.requests_handled < u64::MAX,
    ensures
        admitted(p, req).1 is None <==> p.loaded && !req.past_deadline && req.request_type@ == "artwork.resolve"@,
        admitted(p, req).0.requests_handled == p.requests_handled + (if p.loaded && !req.past_deadline {
            1int
        } else {
            0
        }),
        admitted(p, req).0.loaded == p.loaded,
        admitted(p, req).0.library_roots == p.library_roots,
        admitted(p, req).0.state_dir == p.state_dir,
        !p.loaded ==> admitted(p, req).1 == Some(ErrorView::Permanent("artwork plugin not loaded"@)),
        p.loaded && req.past_deadline ==> admitted(p, req).1 == Some(
            ErrorView::Transient("request deadline already expired"@),
        ),
        p.loaded && !req.past_deadline && req.request_type@ != "artwork.resolve"@ ==> admitted(p, req).1 == Some(
            ErrorView::Permanent(
                "unknown request type: "@ + debug_text(req.request_type@) + " (not one of: ["@ + debug_text(
                    "artwork.resolve"@,
                ) + "])"@,
            ),
        ),
{
}

/// Each field is seen under its own name, as it is.
pub proof fn fields_are_seen_under_their_names(artwork_local_plugin: ArtworkLocalPlugin)
    ensures
        artwork_local_plugin@.loaded == artwork_local_plugin.loaded,
        artwork_local_plugin@.library_roots == artwork_local_plugin.config@,
        artwork_local_plugin@.state_dir == opt_text(artwork_local_plugin.state_dir),
        artwork_local_plugin@.requests_handled == artwork_local_plugin.requests_handled,
{
}

/// Loading takes up the roots and the directory, or else changes nothing; unloading gives
/// both up; and neither forgets how many requests were handled.
pub proof fn unloading_gives_up_what_loading_took(p: PluginView, table: ConfigTable, dir: Seq<char>)
    ensures
        library_roots(table) matches Ok(roots) ==> {
            &&& p.after_load(table, dir).loaded
            &&& p.after_load(table, dir).library_roots == roots
            &&& p.after_load(table, dir).state_dir == Some(dir)
        },
        library_roots(table) is Err ==> p.after_load(table, dir) == p,
        p.after_load(table, dir).requests_handled == p.requests_handled,
        !p.after_unload().loaded,
        p.after_unload().library_roots.len() == 0,
        p.after_unload().state_dir is None,
        p.after_unload().requests_handled == p.requests_handled,
        p.after_load(table, dir).after_unload() == p.after_unload(),
{
}

} // verus!
