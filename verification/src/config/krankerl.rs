use vstd::prelude::*;

verus! {

/// The tool's stored account configuration: tokens for the app store and
/// for the code-hosting service. Loading and saving the file is the
/// caller's I/O; the updates themselves are decided here.
pub struct Config {
    pub appstore_token: Option<String>,
    pub github_token: Option<String>,
}

/// Records the app store token; the other token is kept.
pub fn set_appstore_token(config: &mut Config, token: &str)
    ensures
        final(config).appstore_token matches Some(t) && t@ == token@,
        final(config).github_token == old(config).github_token,
{
    config.appstore_token = Some(token.to_owned());
}

/// Records the code-hosting token; the other token is kept.
pub fn set_github_token(config: &mut Config, token: &str)
    ensures
        final(config).github_token matches Some(t) && t@ == token@,
        final(config).appstore_token == old(config).appstore_token,
{
    config.github_token = Some(token.to_owned());
}

} // verus!
