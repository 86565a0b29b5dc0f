//! The settings of the artwork plugin.

use crate::config_value::ConfigTable;
use crate::library::roots::{library_roots, library_roots_of, ConfigError, ConfigErrorView};
use crate::text::texts;
use vstd::prelude::*;

verus! {

/// The settings of the plugin.
#[derive(Debug, Clone)]
pub struct PluginConfig {
    /// The directories of the library.
    pub library_roots: Vec<String>,
}

impl View for PluginConfig {
    type V = Seq<Seq<char>>;

    open spec fn view(&self) -> Seq<Seq<char>> {
        texts(self.library_roots@)
    }
}

/// The view of settings or a complaint.
pub open spec fn config_result(r: Result<PluginConfig, ConfigError>) -> Result<Seq<Seq<char>>, ConfigErrorView> {
    match r {
        Ok(c) => Ok(c@),
        Err(e) => Err(e@),
    }
}

impl PluginConfig {
    /// The settings where nothing is set: no directories.
    pub fn defaults() -> (r: PluginConfig)
        ensures
            r@ == Seq::<Seq<char>>::empty(),
    {
        let r = PluginConfig { library_roots: Vec::new() };
        proof {
            assert(r@ =~= Seq::<Seq<char>>::empty());
        }
        r
    }

    /// Reads the settings out of a table.
    pub fn from_toml_table(table: &ConfigTable) -> (r: Result<PluginConfig, ConfigError>)
        ensures
            config_result(r) == library_roots(*table),
    {
        match library_roots_of(table) {
            Ok(library_roots) => Ok(PluginConfig { library_roots }),
            Err(e) => Err(e),
        }
    }
}

} // verus!
