use std::collections::HashMap;
use supermq_sdk::domains::ListDomainsParams;
use supermq_sdk::error::{dispatch, Error, ErrorKind};
use supermq_sdk::groups::ListGroupsParams;
use supermq_sdk::query::with_query;
use supermq_sdk::twins::{created_location, twin_exists, StatesQuery, TwinsQuery};

#[test]
fn twin_exists_maps_fetch_results() {
    assert!(matches!(twin_exists::<u8>(Ok(1)), Ok(true)));
    let missing = dispatch(404, "no twin".to_string()).map(|_| 0u8);
    assert!(matches!(twin_exists(missing), Ok(false)));
    let denied = dispatch(401, "".to_string()).map(|_| 0u8);
    match twin_exists(denied) {
        Err(Error::Status(e)) => assert_eq!(e.kind, ErrorKind::Unauthorized),
        other => panic!("unexpected {:?}", other),
    }
    assert!(matches!(
        twin_exists::<u8>(Err(Error::Http("down".to_string()))),
        Err(Error::Http(_))
    ));
}

#[test]
fn created_location_reads_header_or_maps_status() {
    assert_eq!(created_location(201, Some("/twins/7".to_string()), String::new()).unwrap(), "/twins/7");
    assert_eq!(created_location(201, None, String::new()).unwrap(), "");
    match created_location(415, Some("x".to_string()), "bad type".to_string()) {
        Err(Error::Status(e)) => {
            assert_eq!(e.kind, ErrorKind::UnsupportedMediaType);
            assert_eq!(e.body, "bad type");
        }
        other => panic!("unexpected {:?}", other),
    }
}

#[test]
fn twins_listing_is_percent_encoded() {
    let query = TwinsQuery::new().limit(500).name("my twin");
    let params = query.query().unwrap();
    assert_eq!(with_query("/twins", &params), "/twins?limit=100&name=my%20twin");
    let states = StatesQuery::new().limit(25).offset(5).query();
    assert_eq!(with_query("/states/t1", &states), "/states/t1?limit=25&offset=5");
}

#[test]
fn twins_metadata_is_sent_as_json() {
    let mut metadata = HashMap::new();
    metadata.insert("type".to_string(), serde_json::Value::String("sensor".to_string()));
    let params = TwinsQuery::new().metadata(metadata).to_query_params().unwrap();
    assert_eq!(params, vec![("metadata".to_string(), r#"{"type":"sensor"}"#.to_string())]);
}

#[test]
fn domains_listing_is_form_encoded() {
    let mut metadata = HashMap::new();
    metadata.insert("a".to_string(), serde_json::Value::Bool(true));
    let params = ListDomainsParams {
        limit: Some(10),
        offset: None,
        name: Some("my domain".to_string()),
        status: None,
        permission: None,
        metadata: Some(metadata),
    };
    assert_eq!(
        with_query("/domains", &params.query().unwrap()),
        "/domains?limit=10&name=my+domain&metadata=%7B%22a%22%3Atrue%7D"
    );
}

#[test]
fn groups_listing_is_form_encoded() {
    let params = ListGroupsParams::new().limit(50).tree(true).name("x y*");
    assert_eq!(
        with_query("/d/groups", &params.query()),
        "/d/groups?limit=50&tree=true&name=x+y*"
    );
}
