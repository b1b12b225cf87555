//! Building one outgoing request: method, full URL, headers and body.
use vstd::prelude::*;
use vstd::string::*;
use crate::config::Config;
use crate::query::{pairs_view, params_view, query_suffix, with_query, Param};

verus! {

#[derive(Clone, Copy, Debug, PartialEq, Eq, Structural)]
pub enum Method {
    Get,
    Post,
    Put,
    Patch,
    Delete,
}

/// A request ready to be sent by an HTTP transport.
#[derive(Clone, Debug)]
pub struct Request {
    pub method: Method,
    pub url: String,
    pub headers: Vec<(String, String)>,
    pub body: Option<String>,
}

/// Path of the unauthenticated health probe.
pub open spec fn health_path() -> Seq<char> {
    "/health"@
}

/// The value of the `Authorization` header for a bearer token.
pub open spec fn bearer_value(token: Seq<char>) -> Seq<char> {
    "Bearer "@ + token
}

pub open spec fn auth_headers(token: Option<String>) -> Seq<(Seq<char>, Seq<char>)> {
    match token {
        Some(t) => seq![("Authorization"@, bearer_value(t@))],
        None => Seq::empty(),
    }
}

pub open spec fn content_headers(has_body: bool) -> Seq<(Seq<char>, Seq<char>)> {
    if has_body {
        seq![("Content-Type"@, "application/json"@)]
    } else {
        Seq::empty()
    }
}

pub open spec fn agent_headers(agent: Option<String>) -> Seq<(Seq<char>, Seq<char>)> {
    match agent {
        Some(a) => seq![("User-Agent"@, a@)],
        None => Seq::empty(),
    }
}

/// The headers of a request: the bearer token if there is one, the content type if there is a
/// body, the user agent if one is configured, in that order.
pub open spec fn request_headers(token: Option<String>, has_body: bool, agent: Option<String>) -> Seq<
    (Seq<char>, Seq<char>),
> {
    auth_headers(token) + content_headers(has_body) + agent_headers(agent)
}

/// Whether some header has this name.
pub open spec fn has_header(hs: Seq<(Seq<char>, Seq<char>)>, name: Seq<char>) -> bool {
    exists|i: int| 0 <= i < hs.len() && (#[trigger] hs[i]).0 == name
}

fn push_header(headers: &mut Vec<(String, String)>, name: &str, value: String)
    ensures
        pairs_view(final(headers)@) == pairs_view(old(headers)@).push((name@, value@)),
{
    headers.push((String::from_str(name), value));
    proof {
        assert(pairs_view(final(headers)@) =~= pairs_view(old(headers)@).push((name@, value@)));
    }
}

fn header_list(token: &Option<String>, has_body: bool, agent: &Option<String>) -> (r: Vec<
    (String, String),
>)
    ensures
        pairs_view(r@) == request_headers(*token, has_body, *agent),
{
    let mut headers: Vec<(String, String)> = Vec::new();
    proof {
        assert(pairs_view(headers@) =~= Seq::empty());
    }
    match token {
        Some(t) => {
            let value = String::from_str("Bearer ").concat(t.as_str());
            push_header(&mut headers, "Authorization", value);
        },
        None => {},
    }
    assert(pairs_view(headers@) =~= auth_headers(*token));
    if has_body {
        push_header(&mut headers, "Content-Type", String::from_str("application/json"));
    }
    assert(pairs_view(headers@) =~= auth_headers(*token) + content_headers(has_body));
    match agent {
        Some(a) => {
            push_header(&mut headers, "User-Agent", a.clone());
        },
        None => {},
    }
    assert(pairs_view(headers@) =~= request_headers(*token, has_body, *agent));
    headers
}

/// A request to `path` under the configured base URL, with the query parameters, the body, and the
/// headers that the configuration and the body call for.
pub fn build_request(
    config: &Config,
    method: Method,
    path: &str,
    query: &Vec<Param>,
    body: Option<String>,
) -> (r: Request)
    ensures
        r.method == method,
        r.url@ == config.base_url@ + path@ + query_suffix(params_view(query@)),
        r.body == body,
        pairs_view(r.headers@) == request_headers(
            config.bearer_access_token,
            body is Some,
            config.user_agent,
        ),
{
    let target = with_query(path, query);
    let url = config.base_url.clone().concat(target.as_str());
    let headers = header_list(&config.bearer_access_token, body.is_some(), &config.user_agent);
    proof {
        assert(url@ =~= config.base_url@ + path@ + query_suffix(params_view(query@)));
    }
    Request { method, url, headers, body }
}

/// The health probe: a GET of `/health` under the base URL, sent without credentials.
pub fn health_request(config: &Config) -> (r: Request)
    ensures
        r.method == Method::Get,
        r.url@ == config.base_url@ + health_path(),
        r.body is None,
        pairs_view(r.headers@) == request_headers(None, false, config.user_agent),
{
    let url = config.base_url.clone().concat("/health");
    let headers = header_list(&None, false, &config.user_agent);
    Request { method: Method::Get, url, headers, body: None }
}

/// A request carries an `Authorization` header exactly when a bearer token is configured, and
/// then its value is `Bearer ` followed by the token as given.
pub proof fn lemma_authorization_only_with_token(
    token: Option<String>,
    has_body: bool,
    agent: Option<String>,
)
    ensures
        has_header(request_headers(token, has_body, agent), "Authorization"@) <==> token is Some,
        token matches Some(t) ==> request_headers(token, has_body, agent).contains(
            ("Authorization"@, "Bearer "@ + t@),
        ),
{
    reveal_strlit("Authorization");
    reveal_strlit("Content-Type");
    reveal_strlit("User-Agent");
    let hs = request_headers(token, has_body, agent);
    if token is None {
        assert forall|i: int| 0 <= i < hs.len() implies (#[trigger] hs[i]).0 != "Authorization"@ by {
            assert(hs[i].0.len() != "Authorization"@.len());
        }
    } else {
        assert(hs[0] == ("Authorization"@, bearer_value(token->Some_0@)));
    }
}

} // verus!
