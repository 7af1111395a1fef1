//! Configuration resolution and delegation planning for a markup formatter
//! plugin.
//!
//! The crate turns raw, untyped key/value configuration into a fully
//! populated, validated [`resolver::ResolvedConfig`] together with a list of
//! [`values::Diagnostic`]s, and derives the per-fragment configuration that
//! is handed to an external formatter when script or style code embedded in a
//! markup document is delegated.

use vstd::prelude::*;

pub mod custom_block;
pub mod delegation;
pub mod keys;
pub mod language;
pub mod laws;
pub mod options;
pub mod resolver;
pub mod text;
pub mod values;

use crate::resolver::GlobalDefaults;
use crate::resolver::RawConfig;
use crate::resolver::ResolveConfigurationResult;
use crate::resolver::diags_of;
use crate::resolver::resolve;
use crate::resolver::resolved_config_spec;

verus! {

/// Handler that owns configuration resolution for the plugin.
pub struct MarkupFmtPluginHandler;

impl MarkupFmtPluginHandler {
    /// Resolves raw configuration against the global defaults.  Total:
    /// every input yields a fully populated configuration, with one
    /// diagnostic per recognized key whose value fails validation.
    pub fn resolve_config(&self, config: RawConfig, global_config: &GlobalDefaults) -> (r:
        ResolveConfigurationResult)
        ensures
            r.config@ == resolved_config_spec(config@, *global_config),
            r.diagnostics.deep_view() == diags_of(config@),
    {
        resolve(&config, global_config)
    }
}

} // verus!
