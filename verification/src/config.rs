pub mod app;
pub mod krankerl;
pub mod reader;

use vstd::prelude::*;

verus! {

/// The tool's own stored configuration: the token used against the app
/// store. Loading and saving the file is the caller's I/O; the update
/// itself is decided here.
pub struct Config {
    pub appstore_token: Option<String>,
}

/// Records the app store token in the configuration.
pub fn set_appstore_token(config: &mut Config, token: &str)
    ensures
        final(config).appstore_token matches Some(t) && t@ == token@,
{
    config.appstore_token = Some(token.to_owned());
}

} // verus!
