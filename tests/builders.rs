use std::collections::HashMap;
use supermq_sdk::channels::ListChannelsParams;
use supermq_sdk::clients::ClientListParams;
use supermq_sdk::groups::{ClientConfig, GroupStatus, ListGroupsParams};
use supermq_sdk::journal::{EntityType, JournalQuery, SortDirection};
use supermq_sdk::twins::{Attribute, StatesQuery, TwinsQuery};

#[test]
fn test_list_channels_params_builder() {
    let params = ListChannelsParams::new()
        .with_limit(50)
        .with_offset(10)
        .with_name("test".to_string())
        .with_metadata(r#"{"location": "test"}"#.to_string());

    assert_eq!(params.limit, Some(50));
    assert_eq!(params.offset, Some(10));
    assert_eq!(params.name, Some("test".to_string()));
    assert!(params.metadata.is_some());
}

#[test]
fn test_client_list_params_builder() {
    let params = ClientListParams::new()
        .with_limit(50)
        .with_offset(10)
        .with_status("enabled".to_string())
        .with_name("test".to_string())
        .with_tags(vec!["tag1".to_string(), "tag2".to_string()]);

    assert_eq!(params.limit, Some(50));
    assert_eq!(params.offset, Some(10));
    assert_eq!(params.status, Some("enabled".to_string()));
    assert_eq!(params.name, Some("test".to_string()));
    assert_eq!(params.tags, Some(vec!["tag1".to_string(), "tag2".to_string()]));
}

#[test]
fn test_list_groups_params_builder() {
    let params = ListGroupsParams::new()
        .limit(50)
        .offset(10)
        .tree(true)
        .name("test");

    assert_eq!(params.limit, Some(50));
    assert_eq!(params.offset, Some(10));
    assert_eq!(params.tree, Some(true));
    assert_eq!(params.name, Some("test".to_string()));
}

#[test]
fn test_client_config_default() {
    let config = ClientConfig::default();
    assert_eq!(config.base_url, "http://localhost:9004");
    assert!(config.token.is_empty());
    assert!(config.timeout.is_some());
}

#[test]
fn test_group_status_serialization() {
    assert_eq!(GroupStatus::Enabled.to_json(), "\"enabled\"");
    assert_eq!(GroupStatus::Disabled.to_json(), "\"disabled\"");
}

#[test]
fn test_group_status_default() {
    assert_eq!(GroupStatus::default(), GroupStatus::Enabled);
}

#[test]
fn test_journal_query_builder() {
    let query = JournalQuery::new()
        .offset(10)
        .limit(5)
        .operation("user.create")
        .with_attributes(true)
        .sort_direction(SortDirection::Desc);

    let params = query.to_query_params();
    assert_eq!(params.len(), 5);

    let param_map: HashMap<String, String> = params.into_iter().collect();
    assert_eq!(param_map.get("offset").unwrap(), "10");
    assert_eq!(param_map.get("limit").unwrap(), "5");
    assert_eq!(param_map.get("operation").unwrap(), "user.create");
    assert_eq!(param_map.get("with_attributes").unwrap(), "true");
    assert_eq!(param_map.get("dir").unwrap(), "desc");
}

#[test]
fn test_entity_type_display() {
    assert_eq!(EntityType::Group.to_string(), "group");
    assert_eq!(EntityType::Client.to_string(), "client");
    assert_eq!(EntityType::Channel.to_string(), "channel");
}

#[test]
fn test_sort_direction_display() {
    assert_eq!(SortDirection::Asc.to_string(), "asc");
    assert_eq!(SortDirection::Desc.to_string(), "desc");
}

#[test]
fn test_twins_query_builder() {
    let mut metadata = HashMap::new();
    metadata.insert(
        "type".to_string(),
        serde_json::Value::String("sensor".to_string()),
    );

    let query = TwinsQuery::new()
        .limit(50)
        .offset(10)
        .name("test")
        .metadata(metadata);

    let params = query.to_query_params().unwrap();
    assert_eq!(params.len(), 4);

    let param_map: HashMap<String, String> = params.into_iter().collect();
    assert_eq!(param_map.get("limit").unwrap(), "50");
    assert_eq!(param_map.get("offset").unwrap(), "10");
    assert_eq!(param_map.get("name").unwrap(), "test");
    assert!(param_map.contains_key("metadata"));
}

#[test]
fn test_states_query_builder() {
    let query = StatesQuery::new().limit(25).offset(5);

    let params = query.to_query_params();
    assert_eq!(params.len(), 2);

    let param_map: HashMap<String, String> = params.into_iter().collect();
    assert_eq!(param_map.get("limit").unwrap(), "25");
    assert_eq!(param_map.get("offset").unwrap(), "5");
}

#[test]
fn test_attribute_creation() {
    let attr = Attribute::new("temperature", "temp_channel", "sensors/temp", true);
    assert_eq!(attr.name, "temperature");
    assert_eq!(attr.channel, "temp_channel");
    assert_eq!(attr.subtopic, "sensors/temp");
    assert!(attr.persist_state);
}
