use std::collections::HashMap;
use supermq_sdk::channels::ChannelCreateRequest;
use supermq_sdk::clients::ClientRequest;
use supermq_sdk::domains::CreateDomainRequest;
use supermq_sdk::groups::{CreateGroupRequest, GroupStatus};
use supermq_sdk::users::{Credentials, UserReqObj, UserRole};

#[test]
fn test_channel_create_request_builder() {
    let mut metadata = HashMap::new();
    metadata.insert(
        "location".to_string(),
        serde_json::Value::String("test".to_string()),
    );

    let request = ChannelCreateRequest::new("test-channel".to_string())
        .with_parent_id("parent-123".to_string())
        .with_route("test-route".to_string())
        .with_metadata(metadata)
        .with_status("enabled".to_string());

    assert_eq!(request.name, "test-channel");
    assert_eq!(request.parent_id, Some("parent-123".to_string()));
    assert_eq!(request.route, Some("test-route".to_string()));
    assert_eq!(request.status, Some("enabled".to_string()));
    assert!(request.metadata.is_some());
}

#[test]
fn test_create_domain_request_builder() {
    let req = CreateDomainRequest::new("test-domain", "test-route")
        .with_tags(vec!["tag1".to_string(), "tag2".to_string()]);

    assert_eq!(req.name, "test-domain");
    assert_eq!(req.route, "test-route");
    assert_eq!(req.tags, vec!["tag1", "tag2"]);
}

#[test]
fn test_create_group_request_builder() {
    let request = CreateGroupRequest::new("test-group")
        .description("A test group")
        .status(GroupStatus::Enabled);

    assert_eq!(request.name, "test-group");
    assert_eq!(request.description, Some("A test group".to_string()));
    assert_eq!(request.status, Some(GroupStatus::Enabled));
}

#[test]
fn test_user_creation_struct() {
    let user = UserReqObj {
        first_name: "John".to_string(),
        last_name: "Doe".to_string(),
        email: "john@example.com".to_string(),
        tags: Some(vec!["test".to_string()]),
        credentials: Credentials {
            username: "john_doe".to_string(),
            secret: Some("password123".to_string()),
        },
        metadata: None,
        profile_picture: None,
        status: None,
    };

    assert_eq!(user.email, "john@example.com");
    assert_eq!(user.credentials.username, "john_doe");
}

#[test]
fn client_request_builder() {
    let client_request =
        ClientRequest::new("test@example.com".to_string(), "test-secret".to_string())
            .with_name("Test Client".to_string())
            .with_tags(vec!["test".to_string(), "example".to_string()]);

    assert_eq!(client_request.credentials.identity, "test@example.com");
    assert_eq!(client_request.name, Some("Test Client".to_string()));
    assert!(client_request.metadata.is_empty());
}

#[test]
fn simple_user_and_roles() {
    let user = UserReqObj::simple("John", "Doe", "john@example.com", "john_doe", "password123");
    assert_eq!(user.credentials.secret, Some("password123".to_string()));
    assert!(user.tags.is_none());
    assert_eq!(UserRole::admin().role, "admin");
    assert_eq!(UserRole::user().role, "user");
}
