use vstd::prelude::*;

use crate::json::JsonValue;

verus! {

/// What the host tells a plugin about itself and its settings.
pub struct PluginInfo {
    pub arch: String,
    pub os: String,
    pub configuration: Configuration,
}

/// The settings of a language plugin.
pub struct Configuration {
    pub language_id: String,
    pub lsp_exec: Option<String>,
    pub options: Option<JsonValue>,
}

} // verus!
