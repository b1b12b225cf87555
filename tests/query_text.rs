use supermq_sdk::certs::{entity_query, list_query};
use supermq_sdk::clients::ClientListParams;
use supermq_sdk::query::{query_string, tag_all, with_query, ValueEncoding};
use supermq_sdk::text::{bool_string, i64_text, u64_text};
use supermq_sdk::users::{UserListParams, UserSearchParams};

#[test]
fn decimal_text() {
    assert_eq!(u64_text(0), "0");
    assert_eq!(u64_text(1234567890), "1234567890");
    assert_eq!(u64_text(u64::MAX), "18446744073709551615");
    assert_eq!(i64_text(-42), "-42");
    assert_eq!(i64_text(i64::MIN), "-9223372036854775808");
    assert_eq!(i64_text(7), "7");
    assert_eq!(bool_string(true), "true");
    assert_eq!(bool_string(false), "false");
}

#[test]
fn values_are_percent_encoded() {
    let pairs = vec![("metadata".to_string(), r#"{"k":"v"}"#.to_string())];
    assert_eq!(
        query_string(&tag_all(&pairs, ValueEncoding::Percent)),
        "metadata=%7B%22k%22%3A%22v%22%7D"
    );
    assert_eq!(
        query_string(&tag_all(&pairs, ValueEncoding::Form)),
        "metadata=%7B%22k%22%3A%22v%22%7D"
    );
    assert_eq!(query_string(&tag_all(&pairs, ValueEncoding::Raw)), r#"metadata={"k":"v"}"#);
}

#[test]
fn empty_query_adds_nothing() {
    assert_eq!(with_query("/users", &Vec::new()), "/users");
    assert_eq!(query_string(&Vec::new()), "");
}

#[test]
fn tags_repeat_in_client_listing() {
    let params = ClientListParams::new()
        .with_limit(5)
        .with_tags(vec!["t1".to_string(), "t 2".to_string()]);
    assert_eq!(with_query("/d/clients", &params.query()), "/d/clients?limit=5&tags=t1&tags=t%202");
}

#[test]
fn user_search_uses_user_id_key() {
    let params = UserSearchParams {
        limit: None,
        offset: Some(3),
        username: None,
        first_name: None,
        last_name: None,
        email: None,
        user_id: Some("u1".to_string()),
    };
    assert_eq!(query_string(&params.query()), "offset=3&userID=u1");
}

#[test]
fn certificate_listing_queries() {
    assert_eq!(query_string(&list_query(Some(0), Some(100))), "offset=0&limit=100");
    assert_eq!(query_string(&entity_query("e1", None, Some(2))), "entity_id=e1&limit=2");
}

#[test]
fn client_listing_status_is_raw_name_is_encoded() {
    let params = ClientListParams::new()
        .with_limit(50)
        .with_status("a b".to_string())
        .with_name("a b".to_string())
        .with_metadata_filter(r#"{"k":1}"#.to_string());
    assert_eq!(
        with_query("/d/clients", &params.query()),
        "/d/clients?limit=50&metadata=%7B%22k%22%3A1%7D&status=a b&name=a%20b"
    );
}

#[test]
fn user_listing_values_are_raw() {
    let mut params = UserListParams::page(0, 50);
    params.status = Some("enabled".to_string());
    params.first_name = Some("Ann Lee".to_string());
    let mut metadata = std::collections::HashMap::new();
    metadata.insert("k".to_string(), serde_json::Value::Bool(true));
    params.metadata = Some(metadata);
    assert_eq!(
        with_query("/users", &params.query()),
        "/users?limit=50&offset=0&status=enabled&first_name=Ann Lee"
    );
}
