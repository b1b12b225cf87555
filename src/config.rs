//! Settings shared by every call: where the service is, how to authenticate, how long to wait.
use vstd::prelude::*;
use vstd::string::*;
use crate::error::Error;

verus! {

/// Relies on `Duration::from_secs`: it builds a duration of whole seconds and does not panic.
pub assume_specification[ core::time::Duration::from_secs ](secs: u64) -> core::time::Duration;

/// Relies on `Duration`'s `Clone`: `Duration` is `Copy`, so a clone is the same value.
pub assume_specification[ <core::time::Duration as Clone>::clone ](d: &core::time::Duration) -> (r:
    core::time::Duration)
    ensures
        r == *d,
;

/// Whether `url::Url::parse` accepts the text as an absolute URL.
pub uninterp spec fn parses_as_url(s: Seq<char>) -> bool;

/// Relies on `url::Url::parse`: it succeeds exactly on the texts that are absolute URLs, and
/// what it decides depends on the text alone.
#[verifier::external_body]
fn is_absolute_url(s: &str) -> (r: bool)
    ensures
        r == parses_as_url(s@),
{
    url::Url::parse(s).is_ok()
}

/// Seconds that a request may take unless configured otherwise.
pub const DEFAULT_TIMEOUT_SECS: u64 = 30;

/// Static client settings, fixed when the client is built.
#[derive(Debug, Clone)]
pub struct Config {
    pub base_url: String,
    pub timeout: core::time::Duration,
    pub bearer_access_token: Option<String>,
    pub basic_auth: Option<(String, Option<String>)>,
    pub user_agent: Option<String>,
}

impl Config {
    /// Settings for a base URL: no credentials, no user agent, the default timeout.
    pub fn new(base_url: &str) -> (r: Self)
        ensures
            r.base_url@ == base_url@,
            r.bearer_access_token is None,
            r.basic_auth is None,
            r.user_agent is None,
    {
        Config {
            base_url: String::from_str(base_url),
            timeout: core::time::Duration::from_secs(DEFAULT_TIMEOUT_SECS),
            bearer_access_token: None,
            basic_auth: None,
            user_agent: None,
        }
    }

    /// Settings for a base URL that must be an absolute URL; any other text is refused.
    pub fn parse(base_url: &str) -> (r: Result<Self, Error>)
        ensures
            parses_as_url(base_url@) ==> (r matches Ok(c) && c.base_url@ == base_url@
                && c.bearer_access_token is None && c.basic_auth is None && c.user_agent is None),
            !parses_as_url(base_url@) ==> r matches Err(Error::InvalidInput(_)),
    {
        if is_absolute_url(base_url) {
            Ok(Config::new(base_url))
        } else {
            Err(Error::InvalidInput(String::from_str("base URL is not an absolute URL")))
        }
    }

    pub fn with_timeout(self, timeout: core::time::Duration) -> (r: Self)
        ensures
            r == (Config { timeout, ..self }),
    {
        Config { timeout, ..self }
    }

    pub fn with_bearer_token(self, token: &str) -> (r: Self)
        ensures
            r.bearer_access_token matches Some(t) && t@ == token@,
            r.base_url == self.base_url,
            r.timeout == self.timeout,
            r.basic_auth == self.basic_auth,
            r.user_agent == self.user_agent,
    {
        Config { bearer_access_token: Some(String::from_str(token)), ..self }
    }

    pub fn with_basic_auth(self, username: &str, password: Option<String>) -> (r: Self)
        ensures
            r.basic_auth matches Some(p) && p.0@ == username@ && p.1 == password,
            r.base_url == self.base_url,
            r.timeout == self.timeout,
            r.bearer_access_token == self.bearer_access_token,
            r.user_agent == self.user_agent,
    {
        Config { basic_auth: Some((String::from_str(username), password)), ..self }
    }

    pub fn with_user_agent(self, user_agent: &str) -> (r: Self)
        ensures
            r.user_agent matches Some(a) && a@ == user_agent@,
            r.base_url == self.base_url,
            r.timeout == self.timeout,
            r.bearer_access_token == self.bearer_access_token,
            r.basic_auth == self.basic_auth,
    {
        Config { user_agent: Some(String::from_str(user_agent)), ..self }
    }
}

} // verus!
