//! The domains service: tenants, and invitations to join them.
use vstd::prelude::*;
use vstd::string::*;
use crate::query::{params_view, tag_all, tagged, Param, ValueEncoding, int_field, of_u64, pairs_view, push_text, push_u64, text_field};
use std::collections::HashMap;
use crate::error::Error;
use crate::types::metadata_json;

verus! {

/// The `error` field of a failed response's body.
#[derive(Debug, Clone)]
pub struct ApiError {
    pub error: String,
}

#[derive(Debug, Clone)]
pub struct HealthInfo {
    pub status: String,
    pub version: String,
    pub commit: String,
    pub description: String,
    pub build_time: String,
}

/// A new domain: its name, its route, and tags and metadata that may be empty.
#[derive(Debug, Clone)]
pub struct CreateDomainRequest {
    pub name: String,
    pub route: String,
    pub tags: Vec<String>,
    pub metadata: HashMap<String, serde_json::Value>,
}

impl CreateDomainRequest {
    pub fn new(name: &str, route: &str) -> (r: Self)
        ensures
            r.name@ == name@,
            r.route@ == route@,
            r.tags@.len() == 0,
            r.metadata@ == Map::<String, serde_json::Value>::empty(),
    {
        CreateDomainRequest {
            name: String::from_str(name),
            route: String::from_str(route),
            tags: Vec::new(),
            metadata: HashMap::new(),
        }
    }

    pub fn with_tags(self, tags: Vec<String>) -> (r: Self)
        ensures
            r == (CreateDomainRequest { tags, ..self }),
    {
        CreateDomainRequest { tags, ..self }
    }

    pub fn with_metadata(self, metadata: HashMap<String, serde_json::Value>) -> (r: Self)
        ensures
            r == (CreateDomainRequest { metadata, ..self }),
    {
        CreateDomainRequest { metadata, ..self }
    }
}

/// The fields of a domain to change; absent ones stay as they are.
#[derive(Debug, Clone)]
pub struct UpdateDomainRequest {
    pub name: Option<String>,
    pub tags: Option<Vec<String>>,
    pub metadata: Option<HashMap<String, serde_json::Value>>,
}

impl UpdateDomainRequest {
    pub fn new() -> (r: Self)
        ensures
            r.name is None && r.tags is None && r.metadata is None,
    {
        UpdateDomainRequest { name: None, tags: None, metadata: None }
    }

    pub fn with_name(self, name: &str) -> (r: Self)
        ensures
            r.name matches Some(n) && n@ == name@,
            r == (UpdateDomainRequest { name: r.name, ..self }),
    {
        UpdateDomainRequest { name: Some(String::from_str(name)), ..self }
    }

    pub fn with_tags(self, tags: Vec<String>) -> (r: Self)
        ensures
            r == (UpdateDomainRequest { tags: Some(tags), ..self }),
    {
        UpdateDomainRequest { tags: Some(tags), ..self }
    }

    pub fn with_metadata(self, metadata: HashMap<String, serde_json::Value>) -> (r: Self)
        ensures
            r == (UpdateDomainRequest { metadata: Some(metadata), ..self }),
    {
        UpdateDomainRequest { metadata: Some(metadata), ..self }
    }
}

/// An invitation of a user to a role of a domain; both are named by their identifiers' text.
#[derive(Debug, Clone)]
pub struct SendInvitationRequest {
    pub invitee_user_id: String,
    pub role_id: String,
}

impl SendInvitationRequest {
    pub fn new(invitee_user_id: String, role_id: String) -> (r: Self)
        ensures
            r == (SendInvitationRequest { invitee_user_id, role_id }),
    {
        SendInvitationRequest { invitee_user_id, role_id }
    }
}

/// Filters and paging of a domain listing.
#[derive(Debug, Clone)]
pub struct ListDomainsParams {
    pub limit: Option<u64>,
    pub offset: Option<u64>,
    pub name: Option<String>,
    pub status: Option<String>,
    pub permission: Option<String>,
    pub metadata: Option<HashMap<String, serde_json::Value>>,
}

/// The query pairs of a domain listing, with the metadata filter given as JSON text.
pub open spec fn list_domains_pairs(p: ListDomainsParams, metadata_json: Option<String>) -> Seq<
    (Seq<char>, Seq<char>),
> {
    int_field("limit"@, of_u64(p.limit)) + int_field("offset"@, of_u64(p.offset)) + text_field(
        "name"@,
        p.name,
    ) + text_field("status"@, p.status) + text_field("permission"@, p.permission) + text_field(
        "metadata"@,
        metadata_json,
    )
}

impl ListDomainsParams {
    /// The pairs of the fields that are set, with the metadata filter already written as JSON
    /// text.
    pub fn query_pairs_with(&self, metadata_json: &Option<String>) -> (r: Vec<(String, String)>)
        ensures
            pairs_view(r@) == list_domains_pairs(*self, *metadata_json),
    {
        let mut params: Vec<(String, String)> = Vec::new();
        assert(pairs_view(params@) =~= Seq::empty());
        push_u64(&mut params, "limit", self.limit);
        push_u64(&mut params, "offset", self.offset);
        push_text(&mut params, "name", &self.name);
        push_text(&mut params, "status", &self.status);
        push_text(&mut params, "permission", &self.permission);
        push_text(&mut params, "metadata", metadata_json);
        assert(pairs_view(params@) =~= list_domains_pairs(*self, *metadata_json));
        params
    }

    /// The pairs of the fields that are set; the metadata filter is written as JSON, in an
    /// order of entries that the map decides.
    pub fn to_query_params(&self) -> (r: Result<Vec<(String, String)>, Error>)
        ensures
            self.metadata is None ==> (r matches Ok(v) && pairs_view(v@) == list_domains_pairs(
                *self,
                None,
            )),
            self.metadata is Some ==> (r matches Ok(v) ==> exists|t: String|
                pairs_view(v@) == #[trigger] list_domains_pairs(*self, Some(t))),
            r matches Err(e) ==> e is Serialization,
    {
        match &self.metadata {
            None => Ok(self.query_pairs_with(&None)),
            Some(m) => match metadata_json(m) {
                Ok(text) => {
                    let json = Some(text);
                    let v = self.query_pairs_with(&json);
                    Ok(v)
                },
                Err(message) => Err(Error::Serialization(message)),
            },
        }
    }

    /// The query parameters: the pairs above, values form-encoded.
    pub fn query(&self) -> (r: Result<Vec<Param>, Error>)
        ensures
            self.metadata is None ==> (r matches Ok(v) && params_view(v@) == tagged(
                list_domains_pairs(*self, None),
                ValueEncoding::Form,
            )),
            self.metadata is Some ==> (r matches Ok(v) ==> exists|t: String|
                params_view(v@) == tagged(
                    #[trigger] list_domains_pairs(*self, Some(t)),
                    ValueEncoding::Form,
                )),
            r matches Err(e) ==> e is Serialization,
    {
        match self.to_query_params() {
            Ok(pairs) => Ok(tag_all(&pairs, ValueEncoding::Form)),
            Err(e) => Err(e),
        }
    }
}

/// Filters and paging of an invitation listing; user identifiers are given as text.
#[derive(Debug, Clone)]
pub struct ListInvitationsParams {
    pub limit: Option<u64>,
    pub offset: Option<u64>,
    pub user_id: Option<String>,
    pub invited_by: Option<String>,
    pub state: Option<String>,
}

pub open spec fn invitations_pairs(p: ListInvitationsParams) -> Seq<(Seq<char>, Seq<char>)> {
    int_field("limit"@, of_u64(p.limit)) + int_field("offset"@, of_u64(p.offset)) + text_field(
        "user_id"@,
        p.user_id,
    ) + text_field("invited_by"@, p.invited_by) + text_field("state"@, p.state)
}

impl ListInvitationsParams {
    pub fn to_query_params(&self) -> (r: Vec<(String, String)>)
        ensures
            pairs_view(r@) == invitations_pairs(*self),
    {
        let mut params: Vec<(String, String)> = Vec::new();
        assert(pairs_view(params@) =~= Seq::empty());
        push_u64(&mut params, "limit", self.limit);
        push_u64(&mut params, "offset", self.offset);
        push_text(&mut params, "user_id", &self.user_id);
        push_text(&mut params, "invited_by", &self.invited_by);
        push_text(&mut params, "state", &self.state);
        assert(pairs_view(params@) =~= invitations_pairs(*self));
        params
    }

    /// The query parameters: the pairs above, values form-encoded.
    pub fn query(&self) -> (r: Vec<Param>)
        ensures
            params_view(r@) == tagged(invitations_pairs(*self), ValueEncoding::Form),
    {
        let pairs = self.to_query_params();
        tag_all(&pairs, ValueEncoding::Form)
    }
}

/// Path of one domain, followed by `rest` (empty, or an action such as `/enable`).
pub fn domain_path(domain_id: &str, rest: &str) -> (r: String)
    ensures
        r@ == "/domains/"@ + domain_id@ + rest@,
{
    String::from_str("/domains/").concat(domain_id).concat(rest)
}

} // verus!
