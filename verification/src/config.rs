//! Per-run configuration: the account whose stars are collected, the
//! optional bearer token, and the fixed request headers every fetch uses.

use vstd::prelude::*;

verus! {

use vstd::string::StringExecFns;

/// The account to query and the optional authentication token.
///
/// A missing token is valid: the run proceeds anonymously under the lower
/// anonymous quota.
pub struct Config {
    pub username: String,
    pub token: Option<String>,
}

/// The prefix of the initial request locator, up to the account name.
pub open spec fn url_prefix() -> Seq<char> {
    "https://api.github.com/users/"@
}

/// The suffix of the initial request locator, after the account name.
pub open spec fn url_suffix() -> Seq<char> {
    "/starred"@
}

impl Config {
    pub fn new(username: String, token: Option<String>) -> (c: Config)
        ensures
            c.username == username,
            c.token == token,
    {
        Config { username, token }
    }

    /// The initial request locator for this account's starred items.
    pub fn url(self) -> (r: Option<String>)
        ensures
            r is Some,
            r->0@ == url_prefix() + self.username@ + url_suffix(),
    {
        let mut s = String::from_str("https://api.github.com/users/");
        s.append(self.username.as_str());
        s.append("/starred");
        Some(s)
    }
}

/// The fixed request headers sent with every fetch: the versioned
/// star-feed media type and the identifying user agent.
pub struct ClientConfig {
    pub accept: String,
    pub user_agent: String,
}

/// The media type that selects the star feed with timestamps.
pub open spec fn accept_value() -> Seq<char> {
    "application/vnd.github.v3.star+json"@
}

/// The fixed identifying user-agent string.
pub open spec fn user_agent_value() -> Seq<char> {
    "supernova/0.1.0"@
}

impl ClientConfig {
    pub fn new() -> (c: ClientConfig)
        ensures
            c.accept@ == accept_value(),
            c.user_agent@ == user_agent_value(),
    {
        ClientConfig {
            accept: String::from_str("application/vnd.github.v3.star+json"),
            user_agent: String::from_str("supernova/0.1.0"),
        }
    }
}

} // verus!
