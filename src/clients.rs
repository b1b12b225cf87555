//! The clients service: devices and applications that connect to channels.
use vstd::prelude::*;
use vstd::string::*;
use crate::query::{append_tagged, params_view, tagged, Param, ValueEncoding, int_field, list_field, of_u64, pairs_view, push_list, push_text, push_u64, text_field};
use std::collections::HashMap;

verus! {

#[derive(Debug, Clone)]
pub struct Credentials {
    pub identity: String,
    pub secret: Option<String>,
}

/// A new client: its credentials, and a name, tags, metadata and status that may be absent or
/// empty.
#[derive(Debug, Clone)]
pub struct ClientRequest {
    pub name: Option<String>,
    pub tags: Vec<String>,
    pub credentials: Credentials,
    pub metadata: HashMap<String, serde_json::Value>,
    pub status: Option<String>,
}

impl ClientRequest {
    pub fn new(identity: String, secret: String) -> (r: Self)
        ensures
            r.name is None,
            r.tags@.len() == 0,
            r.credentials == (Credentials { identity, secret: Some(secret) }),
            r.metadata@ == Map::<String, serde_json::Value>::empty(),
            r.status is None,
    {
        ClientRequest {
            name: None,
            tags: Vec::new(),
            credentials: Credentials { identity, secret: Some(secret) },
            metadata: HashMap::new(),
            status: None,
        }
    }

    pub fn with_name(self, name: String) -> (r: Self)
        ensures
            r == (ClientRequest { name: Some(name), ..self }),
    {
        ClientRequest { name: Some(name), ..self }
    }

    pub fn with_tags(self, tags: Vec<String>) -> (r: Self)
        ensures
            r == (ClientRequest { tags, ..self }),
    {
        ClientRequest { tags, ..self }
    }

    pub fn with_metadata(self, metadata: HashMap<String, serde_json::Value>) -> (r: Self)
        ensures
            r == (ClientRequest { metadata, ..self }),
    {
        ClientRequest { metadata, ..self }
    }

    pub fn with_status(self, status: String) -> (r: Self)
        ensures
            r == (ClientRequest { status: Some(status), ..self }),
    {
        ClientRequest { status: Some(status), ..self }
    }
}

#[derive(Debug, Clone)]
pub struct ClientTags {
    pub tags: Vec<String>,
}

#[derive(Debug, Clone)]
pub struct ClientSecret {
    pub secret: String,
}

#[derive(Debug, Clone)]
pub struct HealthResponse {
    pub status: String,
    pub version: String,
    pub commit: String,
    pub description: String,
    pub build_time: String,
}

#[derive(Debug, Clone)]
pub struct CreateRoleRequest {
    pub name: String,
    pub description: Option<String>,
    pub actions: Vec<String>,
}

#[derive(Debug, Clone)]
pub struct UpdateRoleRequest {
    pub name: String,
    pub description: Option<String>,
}

#[derive(Debug, Clone)]
pub struct RoleActionsRequest {
    pub actions: Vec<String>,
}

#[derive(Debug, Clone)]
pub struct RoleMembersRequest {
    pub members: Vec<String>,
}

#[derive(Debug, Clone)]
pub struct AvailableActionsResponse {
    pub actions: Vec<String>,
}

#[derive(Debug, Clone)]
pub struct EntityMembers {
    pub members: Vec<String>,
}

/// Filters and paging of a client listing; an absent field is left to the server.
#[derive(Debug, Clone)]
pub struct ClientListParams {
    pub limit: Option<u64>,
    pub offset: Option<u64>,
    pub metadata: Option<String>,
    pub status: Option<String>,
    pub name: Option<String>,
    pub tags: Option<Vec<String>>,
}

/// The query pairs of a client listing; each tag is a pair of its own.
pub open spec fn client_list_pairs(p: ClientListParams) -> Seq<(Seq<char>, Seq<char>)> {
    int_field("limit"@, of_u64(p.limit)) + int_field("offset"@, of_u64(p.offset)) + text_field(
        "metadata"@,
        p.metadata,
    ) + text_field("status"@, p.status) + text_field("name"@, p.name) + list_field(
        "tags"@,
        p.tags,
    )
}

/// The query parameters of a client listing: limit, offset and status are written as they
/// are; metadata, name and each tag are percent-encoded.
pub open spec fn client_list_params(p: ClientListParams) -> Seq<(Seq<char>, Seq<char>, ValueEncoding)> {
    tagged(int_field("limit"@, of_u64(p.limit)) + int_field("offset"@, of_u64(p.offset)), ValueEncoding::Raw)
        + tagged(text_field("metadata"@, p.metadata), ValueEncoding::Percent) + tagged(
        text_field("status"@, p.status),
        ValueEncoding::Raw,
    ) + tagged(text_field("name"@, p.name) + list_field("tags"@, p.tags), ValueEncoding::Percent)
}

impl ClientListParams {
    pub fn new() -> (r: Self)
        ensures
            r.limit is None && r.offset is None && r.metadata is None && r.status is None
                && r.name is None && r.tags is None,
    {
        ClientListParams { limit: None, offset: None, metadata: None, status: None, name: None, tags: None }
    }

    pub fn with_limit(self, limit: u64) -> (r: Self)
        ensures
            r == (ClientListParams { limit: Some(limit), ..self }),
    {
        ClientListParams { limit: Some(limit), ..self }
    }

    pub fn with_offset(self, offset: u64) -> (r: Self)
        ensures
            r == (ClientListParams { offset: Some(offset), ..self }),
    {
        ClientListParams { offset: Some(offset), ..self }
    }

    pub fn with_status(self, status: String) -> (r: Self)
        ensures
            r == (ClientListParams { status: Some(status), ..self }),
    {
        ClientListParams { status: Some(status), ..self }
    }

    pub fn with_name(self, name: String) -> (r: Self)
        ensures
            r == (ClientListParams { name: Some(name), ..self }),
    {
        ClientListParams { name: Some(name), ..self }
    }

    pub fn with_tags(self, tags: Vec<String>) -> (r: Self)
        ensures
            r == (ClientListParams { tags: Some(tags), ..self }),
    {
        ClientListParams { tags: Some(tags), ..self }
    }

    pub fn with_metadata_filter(self, metadata: String) -> (r: Self)
        ensures
            r == (ClientListParams { metadata: Some(metadata), ..self }),
    {
        ClientListParams { metadata: Some(metadata), ..self }
    }

    pub fn to_query_params(&self) -> (r: Vec<(String, String)>)
        ensures
            pairs_view(r@) == client_list_pairs(*self),
    {
        let mut params: Vec<(String, String)> = Vec::new();
        assert(pairs_view(params@) =~= Seq::empty());
        push_u64(&mut params, "limit", self.limit);
        push_u64(&mut params, "offset", self.offset);
        push_text(&mut params, "metadata", &self.metadata);
        push_text(&mut params, "status", &self.status);
        push_text(&mut params, "name", &self.name);
        push_list(&mut params, "tags", &self.tags);
        assert(pairs_view(params@) =~= client_list_pairs(*self));
        params
    }

    /// The query parameters, each value under the encoding of its key.
    pub fn query(&self) -> (r: Vec<Param>)
        ensures
            params_view(r@) == client_list_params(*self),
    {
        let mut out: Vec<Param> = Vec::new();
        assert(params_view(out@) =~= Seq::empty());
        let mut paging: Vec<(String, String)> = Vec::new();
        assert(pairs_view(paging@) =~= Seq::empty());
        push_u64(&mut paging, "limit", self.limit);
        push_u64(&mut paging, "offset", self.offset);
        append_tagged(&mut out, &paging, ValueEncoding::Raw);
        let mut metadata: Vec<(String, String)> = Vec::new();
        assert(pairs_view(metadata@) =~= Seq::empty());
        push_text(&mut metadata, "metadata", &self.metadata);
        append_tagged(&mut out, &metadata, ValueEncoding::Percent);
        let mut status: Vec<(String, String)> = Vec::new();
        assert(pairs_view(status@) =~= Seq::empty());
        push_text(&mut status, "status", &self.status);
        append_tagged(&mut out, &status, ValueEncoding::Raw);
        let mut names: Vec<(String, String)> = Vec::new();
        assert(pairs_view(names@) =~= Seq::empty());
        push_text(&mut names, "name", &self.name);
        push_list(&mut names, "tags", &self.tags);
        append_tagged(&mut out, &names, ValueEncoding::Percent);
        assert(params_view(out@) =~= client_list_params(*self));
        out
    }
}

/// Path of the clients of a domain.
pub fn clients_path(domain_id: &str) -> (r: String)
    ensures
        r@ == "/"@ + domain_id@ + "/clients"@,
{
    String::from_str("/").concat(domain_id).concat("/clients")
}

/// Path of one client of a domain, followed by `rest` (empty, or an action such as `/enable`).
pub fn client_path(domain_id: &str, client_id: &str, rest: &str) -> (r: String)
    ensures
        r@ == "/"@ + domain_id@ + "/clients/"@ + client_id@ + rest@,
{
    String::from_str("/").concat(domain_id).concat("/clients/").concat(client_id).concat(rest)
}

} // verus!
