//! What the server is launched with: the site and the class whose feed it
//! serves, set once, before the first request.

use vstd::prelude::*;

verus! {

/// What the server holds to identify itself.
#[derive(Debug, Clone, PartialEq, Eq)]
pub struct AuthData {
    pub lib_access_token: String,
}

/// What the server is set up with.
#[derive(Debug, Clone, PartialEq, Eq)]
pub struct ConfigData {
    /// The site of the provider that is asked.
    pub edu_subdomain: String,
    /// The class whose lessons make the feed.
    pub edu_class_id: String,
    pub lib_secret: String,
    /// The seconds after which a call to the provider is given up.
    pub request_timeout: u32,
}

/// The state of the server, shared by all requests and changed by none.
#[derive(Debug, Clone, PartialEq, Eq)]
pub struct AppData {
    pub auth: AuthData,
    pub config: ConfigData,
}

/// The state with which the server is launched: the configuration as it was
/// given, and no access token yet.
pub fn rocket(config: ConfigData) -> (state: AppData)
    ensures
        state.config == config,
        state.auth.lib_access_token@ == Seq::<char>::empty(),
{
    AppData { auth: AuthData { lib_access_token: String::new() }, config }
}

} // verus!
