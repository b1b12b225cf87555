use supermq_sdk::config::Config;
use supermq_sdk::query::ValueEncoding;
use supermq_sdk::request::{build_request, health_request, Method};

fn header<'a>(headers: &'a [(String, String)], name: &str) -> Option<&'a str> {
    headers.iter().find(|(n, _)| n == name).map(|(_, v)| v.as_str())
}

#[test]
fn no_token_no_authorization_header() {
    let config = Config::new("http://localhost:9000");
    let req = build_request(&config, Method::Get, "/users", &Vec::new(), None);
    assert_eq!(header(&req.headers, "Authorization"), None);
    assert_eq!(req.url, "http://localhost:9000/users");
    assert!(req.headers.is_empty());
}

#[test]
fn token_gives_bearer_header_verbatim() {
    let config = Config::new("http://localhost:9000").with_bearer_token("abc.DEF-123");
    let req = build_request(&config, Method::Post, "/users", &Vec::new(), Some("{}".to_string()));
    assert_eq!(header(&req.headers, "Authorization"), Some("Bearer abc.DEF-123"));
    assert_eq!(header(&req.headers, "Content-Type"), Some("application/json"));
    assert_eq!(req.method, Method::Post);
    assert_eq!(req.body, Some("{}".to_string()));
}

#[test]
fn user_agent_and_query() {
    let config = Config::new("http://h").with_user_agent("sdk/1");
    let query = vec![
        ("limit".to_string(), "10".to_string(), ValueEncoding::Percent),
        ("name".to_string(), "a b&c".to_string(), ValueEncoding::Percent),
        ("q".to_string(), "a b&c".to_string(), ValueEncoding::Form),
        ("raw".to_string(), "a b".to_string(), ValueEncoding::Raw),
    ];
    let req = build_request(&config, Method::Get, "/things", &query, None);
    assert_eq!(req.url, "http://h/things?limit=10&name=a%20b%26c&q=a+b%26c&raw=a b");
    assert_eq!(header(&req.headers, "User-Agent"), Some("sdk/1"));
    assert_eq!(header(&req.headers, "Content-Type"), None);
}

#[test]
fn health_probe_is_unauthenticated() {
    let config = Config::new("http://localhost:9002").with_bearer_token("secret");
    let req = health_request(&config);
    assert_eq!(req.url, "http://localhost:9002/health");
    assert_eq!(req.method, Method::Get);
    assert_eq!(header(&req.headers, "Authorization"), None);
}

#[test]
fn config_builders() {
    let config = Config::new("http://x")
        .with_timeout(std::time::Duration::from_secs(5))
        .with_basic_auth("admin", Some("pw".to_string()));
    assert_eq!(config.timeout, std::time::Duration::from_secs(5));
    assert_eq!(config.basic_auth, Some(("admin".to_string(), Some("pw".to_string()))));
    assert_eq!(Config::new("http://x").timeout, std::time::Duration::from_secs(30));
}

#[test]
fn base_url_must_be_absolute() {
    let ok = Config::parse("http://localhost:9005");
    assert!(ok.is_ok());
    assert_eq!(ok.unwrap().base_url, "http://localhost:9005");
    assert!(matches!(
        Config::parse("not a url"),
        Err(supermq_sdk::error::Error::InvalidInput(_))
    ));
    assert!(Config::parse("").is_err());
}
