//! The channels service: message channels and their connections to clients.
use vstd::prelude::*;
use vstd::string::*;
use crate::query::{params_view, tag_all, tagged, Param, ValueEncoding, int_field, of_i32, pairs_view, push_i32, push_text, text_field};
use std::collections::HashMap;

verus! {

/// The fields of a new channel; absent ones are left to the server.
#[derive(Debug, Clone)]
pub struct ChannelCreateRequest {
    pub name: String,
    pub parent_id: Option<String>,
    pub route: Option<String>,
    pub metadata: Option<HashMap<String, serde_json::Value>>,
    pub status: Option<String>,
}

impl ChannelCreateRequest {
    pub fn new(name: String) -> (r: Self)
        ensures
            r.name == name,
            r.parent_id is None && r.route is None && r.metadata is None && r.status is None,
    {
        ChannelCreateRequest { name, parent_id: None, route: None, metadata: None, status: None }
    }

    pub fn with_parent_id(self, parent_id: String) -> (r: Self)
        ensures
            r == (ChannelCreateRequest { parent_id: Some(parent_id), ..self }),
    {
        ChannelCreateRequest { parent_id: Some(parent_id), ..self }
    }

    pub fn with_route(self, route: String) -> (r: Self)
        ensures
            r == (ChannelCreateRequest { route: Some(route), ..self }),
    {
        ChannelCreateRequest { route: Some(route), ..self }
    }

    pub fn with_metadata(self, metadata: HashMap<String, serde_json::Value>) -> (r: Self)
        ensures
            r == (ChannelCreateRequest { metadata: Some(metadata), ..self }),
    {
        ChannelCreateRequest { metadata: Some(metadata), ..self }
    }

    pub fn with_status(self, status: String) -> (r: Self)
        ensures
            r == (ChannelCreateRequest { status: Some(status), ..self }),
    {
        ChannelCreateRequest { status: Some(status), ..self }
    }
}

/// A channel's new name and metadata.
#[derive(Debug, Clone)]
pub struct ChannelUpdateRequest {
    pub name: String,
    pub metadata: HashMap<String, serde_json::Value>,
}

impl ChannelUpdateRequest {
    pub fn new(name: String, metadata: HashMap<String, serde_json::Value>) -> (r: Self)
        ensures
            r == (ChannelUpdateRequest { name, metadata }),
    {
        ChannelUpdateRequest { name, metadata }
    }
}

/// The group that becomes an entity's parent.
#[derive(Debug, Clone)]
pub struct ParentGroupRequest {
    pub parent_group_id: String,
}

impl ParentGroupRequest {
    pub fn new(parent_group_id: String) -> (r: Self)
        ensures
            r.parent_group_id == parent_group_id,
    {
        ParentGroupRequest { parent_group_id }
    }
}

#[derive(Debug, Clone)]
pub struct ChannelUpdateTagsRequest {
    pub tags: Vec<String>,
}

impl ChannelUpdateTagsRequest {
    pub fn new(tags: Vec<String>) -> (r: Self)
        ensures
            r.tags == tags,
    {
        ChannelUpdateTagsRequest { tags }
    }
}

/// Connects every listed client to every listed channel.
#[derive(Debug, Clone)]
pub struct ConnectionRequest {
    pub channel_ids: Vec<String>,
    pub client_ids: Vec<String>,
    pub types: Option<Vec<String>>,
}

impl ConnectionRequest {
    pub fn new(channel_ids: Vec<String>, client_ids: Vec<String>) -> (r: Self)
        ensures
            r.channel_ids == channel_ids,
            r.client_ids == client_ids,
            r.types is None,
    {
        ConnectionRequest { channel_ids, client_ids, types: None }
    }

    pub fn with_types(self, types: Vec<String>) -> (r: Self)
        ensures
            r == (ConnectionRequest { types: Some(types), ..self }),
    {
        ConnectionRequest { types: Some(types), ..self }
    }
}

/// Connects the listed clients to one channel.
#[derive(Debug, Clone)]
pub struct ChannelConnectionRequest {
    pub client_ids: Vec<String>,
    pub types: Option<Vec<String>>,
}

impl ChannelConnectionRequest {
    pub fn new(client_ids: Vec<String>) -> (r: Self)
        ensures
            r.client_ids == client_ids,
            r.types is None,
    {
        ChannelConnectionRequest { client_ids, types: None }
    }

    pub fn with_types(self, types: Vec<String>) -> (r: Self)
        ensures
            r == (ChannelConnectionRequest { types: Some(types), ..self }),
    {
        ChannelConnectionRequest { types: Some(types), ..self }
    }
}

#[derive(Debug, Clone)]
pub struct HealthResponse {
    pub status: String,
    pub version: Option<String>,
    pub commit: Option<String>,
    pub description: Option<String>,
    pub build_time: Option<String>,
}

/// Filters and paging of a channel listing; an absent field is left to the server.
#[derive(Debug, Clone)]
pub struct ListChannelsParams {
    pub limit: Option<i32>,
    pub offset: Option<i32>,
    pub metadata: Option<String>,
    pub name: Option<String>,
}

pub open spec fn list_channels_pairs(p: ListChannelsParams) -> Seq<(Seq<char>, Seq<char>)> {
    int_field("limit"@, of_i32(p.limit)) + int_field("offset"@, of_i32(p.offset)) + text_field(
        "metadata"@,
        p.metadata,
    ) + text_field("name"@, p.name)
}

impl ListChannelsParams {
    pub fn new() -> (r: Self)
        ensures
            r.limit is None && r.offset is None && r.metadata is None && r.name is None,
    {
        ListChannelsParams { limit: None, offset: None, metadata: None, name: None }
    }

    pub fn with_limit(self, limit: i32) -> (r: Self)
        ensures
            r == (ListChannelsParams { limit: Some(limit), ..self }),
    {
        ListChannelsParams { limit: Some(limit), ..self }
    }

    pub fn with_offset(self, offset: i32) -> (r: Self)
        ensures
            r == (ListChannelsParams { offset: Some(offset), ..self }),
    {
        ListChannelsParams { offset: Some(offset), ..self }
    }

    pub fn with_metadata(self, metadata: String) -> (r: Self)
        ensures
            r == (ListChannelsParams { metadata: Some(metadata), ..self }),
    {
        ListChannelsParams { metadata: Some(metadata), ..self }
    }

    pub fn with_name(self, name: String) -> (r: Self)
        ensures
            r == (ListChannelsParams { name: Some(name), ..self }),
    {
        ListChannelsParams { name: Some(name), ..self }
    }

    pub fn to_query_params(&self) -> (r: Vec<(String, String)>)
        ensures
            pairs_view(r@) == list_channels_pairs(*self),
    {
        let mut params: Vec<(String, String)> = Vec::new();
        assert(pairs_view(params@) =~= Seq::empty());
        push_i32(&mut params, "limit", self.limit);
        push_i32(&mut params, "offset", self.offset);
        push_text(&mut params, "metadata", &self.metadata);
        push_text(&mut params, "name", &self.name);
        assert(pairs_view(params@) =~= list_channels_pairs(*self));
        params
    }

    /// The query parameters: the pairs above, values form-encoded.
    pub fn query(&self) -> (r: Vec<Param>)
        ensures
            params_view(r@) == tagged(list_channels_pairs(*self), ValueEncoding::Form),
    {
        let pairs = self.to_query_params();
        tag_all(&pairs, ValueEncoding::Form)
    }
}

/// Path of the channels of a domain.
pub fn channels_path(domain_id: &str) -> (r: String)
    ensures
        r@ == "/"@ + domain_id@ + "/channels"@,
{
    String::from_str("/").concat(domain_id).concat("/channels")
}

/// Path of one channel of a domain, followed by `rest` (empty, or an action such as `/enable`).
pub fn channel_path(domain_id: &str, channel_id: &str, rest: &str) -> (r: String)
    ensures
        r@ == "/"@ + domain_id@ + "/channels/"@ + channel_id@ + rest@,
{
    String::from_str("/").concat(domain_id).concat("/channels/").concat(channel_id).concat(rest)
}

} // verus!
