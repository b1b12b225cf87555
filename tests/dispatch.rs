use supermq_sdk::error::{dispatch, error_kind, is_success, Error, ErrorKind};

fn status_error(status: u16, body: &str) -> (ErrorKind, u16, String) {
    match dispatch(status, body.to_string()) {
        Err(Error::Status(e)) => (e.kind, e.status, e.body),
        other => panic!("expected a status error, got {:?}", other),
    }
}

#[test]
fn conflict_keeps_duplicate_name_message() {
    let (kind, status, body) = status_error(409, r#"{"error":"duplicate name"}"#);
    assert_eq!(kind, ErrorKind::Conflict);
    assert_eq!(status, 409);
    assert!(body.contains("duplicate name"));
}

#[test]
fn each_listed_status_maps_to_its_kind_and_keeps_body() {
    let table = [
        (400, ErrorKind::BadRequest),
        (401, ErrorKind::Unauthorized),
        (403, ErrorKind::Forbidden),
        (404, ErrorKind::NotFound),
        (409, ErrorKind::Conflict),
        (415, ErrorKind::UnsupportedMediaType),
        (422, ErrorKind::UnprocessableEntity),
        (500, ErrorKind::ServerError),
        (503, ErrorKind::ServerError),
        (599, ErrorKind::ServerError),
    ];
    for (status, expected) in table {
        let (kind, got_status, body) = status_error(status, "raw body text");
        assert_eq!(kind, expected);
        assert_eq!(got_status, status);
        assert_eq!(body, "raw body text");
    }
}

#[test]
fn other_statuses_are_unknown() {
    for status in [100u16, 302, 402, 418, 499, 600, 0] {
        let (kind, got_status, body) = status_error(status, "x");
        assert_eq!(kind, ErrorKind::Unknown);
        assert_eq!(got_status, status);
        assert_eq!(body, "x");
    }
    assert_eq!(error_kind(600), ErrorKind::Unknown);
}

#[test]
fn success_hands_body_through() {
    let body = r#"{"id":"42","name":"thing"}"#;
    match dispatch(200, body.to_string()) {
        Ok(Some(b)) => assert_eq!(b, body),
        other => panic!("unexpected {:?}", other),
    }
    match dispatch(201, "{}".to_string()) {
        Ok(Some(b)) => assert_eq!(b, "{}"),
        other => panic!("unexpected {:?}", other),
    }
}

#[test]
fn no_content_yields_no_value() {
    assert!(matches!(dispatch(204, "ignored".to_string()), Ok(None)));
}

#[test]
fn success_range_is_2xx() {
    assert!(is_success(200));
    assert!(is_success(299));
    assert!(!is_success(199));
    assert!(!is_success(300));
}

#[test]
fn error_kind_accessor() {
    let e = dispatch(404, "gone".to_string()).unwrap_err();
    assert_eq!(e.kind(), Some(ErrorKind::NotFound));
    assert_eq!(Error::Http("down".to_string()).kind(), None);
}
