//! The plugin's configuration.

use vstd::prelude::*;

verus! {

/// What the plugin is configured with: the token that it presents to the
/// code-hosting service. It is read once, before the first request is served.
#[derive(Debug, PartialEq, Eq)]
pub struct PluginConfig {
    pub personal_access_token: String,
}

} // verus!
