//! The groups service: a hierarchy of groups, their roles and members.
use vstd::prelude::*;
use vstd::string::*;
use crate::query::{params_view, tag_all, tagged, Param, ValueEncoding, 
    bool_field, int_field, of_i32, of_u32, pairs_view, push_bool, push_i32, push_text, push_u32,
    text_field,
};
use std::collections::HashMap;

verus! {

/// The `error` field of a failed response's body.
#[derive(Debug, Clone)]
pub struct ApiError {
    pub error: String,
}

#[derive(Debug, Clone, Copy, PartialEq, Eq, Structural)]
pub enum GroupStatus {
    Enabled,
    Disabled,
}

impl Default for GroupStatus {
    /// A new group is enabled.
    fn default() -> (r: Self)
        ensures
            r == GroupStatus::Enabled,
    {
        GroupStatus::Enabled
    }
}

impl GroupStatus {
    /// The status as a JSON string: its name in double quotes.
    pub fn to_json(&self) -> (r: String)
        ensures
            r@ == seq!['"'] + self.text() + seq!['"'],
    {
        let name = self.as_text();
        let r = String::from_str("\"").concat(name.as_str()).concat("\"");
        proof {
            reveal_strlit("\"");
        }
        assert(r@ =~= seq!['"'] + self.text() + seq!['"']);
        r
    }

    pub open spec fn text(self) -> Seq<char> {
        match self {
            GroupStatus::Enabled => "enabled"@,
            GroupStatus::Disabled => "disabled"@,
        }
    }

    /// The lower-case name that the service uses.
    pub fn as_text(&self) -> (r: String)
        ensures
            r@ == self.text(),
    {
        match self {
            GroupStatus::Enabled => String::from_str("enabled"),
            GroupStatus::Disabled => String::from_str("disabled"),
        }
    }
}

/// The fields of a new group; absent ones are left to the server. The parent is named by its
/// identifier's text.
#[derive(Debug, Clone)]
pub struct CreateGroupRequest {
    pub name: String,
    pub description: Option<String>,
    pub parent_id: Option<String>,
    pub metadata: Option<HashMap<String, serde_json::Value>>,
    pub status: Option<GroupStatus>,
}

impl CreateGroupRequest {
    pub fn new(name: &str) -> (r: Self)
        ensures
            r.name@ == name@,
            r.description is None && r.parent_id is None && r.metadata is None && r.status is None,
    {
        CreateGroupRequest {
            name: String::from_str(name),
            description: None,
            parent_id: None,
            metadata: None,
            status: None,
        }
    }

    pub fn description(self, description: &str) -> (r: Self)
        ensures
            r.description matches Some(d) && d@ == description@,
            r == (CreateGroupRequest { description: r.description, ..self }),
    {
        CreateGroupRequest { description: Some(String::from_str(description)), ..self }
    }

    pub fn parent_id(self, parent_id: String) -> (r: Self)
        ensures
            r == (CreateGroupRequest { parent_id: Some(parent_id), ..self }),
    {
        CreateGroupRequest { parent_id: Some(parent_id), ..self }
    }

    pub fn metadata(self, metadata: HashMap<String, serde_json::Value>) -> (r: Self)
        ensures
            r == (CreateGroupRequest { metadata: Some(metadata), ..self }),
    {
        CreateGroupRequest { metadata: Some(metadata), ..self }
    }

    pub fn status(self, status: GroupStatus) -> (r: Self)
        ensures
            r == (CreateGroupRequest { status: Some(status), ..self }),
    {
        CreateGroupRequest { status: Some(status), ..self }
    }
}

/// A group's new name, description and metadata.
#[derive(Debug, Clone)]
pub struct UpdateGroupRequest {
    pub name: String,
    pub description: String,
    pub metadata: HashMap<String, serde_json::Value>,
}

impl UpdateGroupRequest {
    pub fn new(name: &str, description: &str, metadata: HashMap<String, serde_json::Value>) -> (r:
        Self)
        ensures
            r.name@ == name@,
            r.description@ == description@,
            r.metadata == metadata,
    {
        UpdateGroupRequest {
            name: String::from_str(name),
            description: String::from_str(description),
            metadata,
        }
    }
}

#[derive(Debug, Clone)]
pub struct UpdateGroupTagsRequest {
    pub tags: Vec<String>,
}

#[derive(Debug, Clone)]
pub struct CreateRoleRequest {
    pub name: String,
    pub description: Option<String>,
    pub actions: Vec<String>,
}

#[derive(Debug, Clone)]
pub struct UpdateRoleRequest {
    pub name: String,
    pub description: Option<String>,
}

#[derive(Debug, Clone)]
pub struct AddRoleActionsRequest {
    pub actions: Vec<String>,
}

#[derive(Debug, Clone)]
pub struct AddRoleMembersRequest {
    pub members: Vec<String>,
}

#[derive(Debug, Clone)]
pub struct AvailableActionsResponse {
    pub actions: Vec<String>,
}

#[derive(Debug, Clone)]
pub struct HealthResponse {
    pub status: String,
    pub version: String,
    pub commit: String,
    pub description: String,
    pub build_time: String,
}

/// Filters and paging of a group listing; an absent field is left to the server.
#[derive(Debug, Clone)]
pub struct ListGroupsParams {
    pub limit: Option<u32>,
    pub offset: Option<u32>,
    pub level: Option<u32>,
    pub tree: Option<bool>,
    pub metadata: Option<String>,
    pub name: Option<String>,
    pub root_group: Option<bool>,
}

pub open spec fn list_groups_pairs(p: ListGroupsParams) -> Seq<(Seq<char>, Seq<char>)> {
    int_field("limit"@, of_u32(p.limit)) + int_field("offset"@, of_u32(p.offset)) + int_field(
        "level"@,
        of_u32(p.level),
    ) + bool_field("tree"@, p.tree) + text_field("metadata"@, p.metadata) + text_field(
        "name"@,
        p.name,
    ) + bool_field("root_group"@, p.root_group)
}

impl ListGroupsParams {
    pub fn new() -> (r: Self)
        ensures
            r.limit is None && r.offset is None && r.level is None && r.tree is None
                && r.metadata is None && r.name is None && r.root_group is None,
    {
        ListGroupsParams {
            limit: None,
            offset: None,
            level: None,
            tree: None,
            metadata: None,
            name: None,
            root_group: None,
        }
    }

    pub fn limit(self, limit: u32) -> (r: Self)
        ensures
            r == (ListGroupsParams { limit: Some(limit), ..self }),
    {
        ListGroupsParams { limit: Some(limit), ..self }
    }

    pub fn offset(self, offset: u32) -> (r: Self)
        ensures
            r == (ListGroupsParams { offset: Some(offset), ..self }),
    {
        ListGroupsParams { offset: Some(offset), ..self }
    }

    pub fn level(self, level: u32) -> (r: Self)
        ensures
            r == (ListGroupsParams { level: Some(level), ..self }),
    {
        ListGroupsParams { level: Some(level), ..self }
    }

    pub fn tree(self, tree: bool) -> (r: Self)
        ensures
            r == (ListGroupsParams { tree: Some(tree), ..self }),
    {
        ListGroupsParams { tree: Some(tree), ..self }
    }

    pub fn metadata(self, metadata: &str) -> (r: Self)
        ensures
            r.metadata matches Some(m) && m@ == metadata@,
            r == (ListGroupsParams { metadata: r.metadata, ..self }),
    {
        ListGroupsParams { metadata: Some(String::from_str(metadata)), ..self }
    }

    pub fn name(self, name: &str) -> (r: Self)
        ensures
            r.name matches Some(n) && n@ == name@,
            r == (ListGroupsParams { name: r.name, ..self }),
    {
        ListGroupsParams { name: Some(String::from_str(name)), ..self }
    }

    pub fn root_group(self, root_group: bool) -> (r: Self)
        ensures
            r == (ListGroupsParams { root_group: Some(root_group), ..self }),
    {
        ListGroupsParams { root_group: Some(root_group), ..self }
    }

    pub fn to_query_params(&self) -> (r: Vec<(String, String)>)
        ensures
            pairs_view(r@) == list_groups_pairs(*self),
    {
        let mut params: Vec<(String, String)> = Vec::new();
        assert(pairs_view(params@) =~= Seq::empty());
        push_u32(&mut params, "limit", self.limit);
        push_u32(&mut params, "offset", self.offset);
        push_u32(&mut params, "level", self.level);
        push_bool(&mut params, "tree", self.tree);
        push_text(&mut params, "metadata", &self.metadata);
        push_text(&mut params, "name", &self.name);
        push_bool(&mut params, "root_group", self.root_group);
        assert(pairs_view(params@) =~= list_groups_pairs(*self));
        params
    }

    /// The query parameters: the pairs above, values form-encoded.
    pub fn query(&self) -> (r: Vec<Param>)
        ensures
            params_view(r@) == tagged(list_groups_pairs(*self), ValueEncoding::Form),
    {
        let pairs = self.to_query_params();
        tag_all(&pairs, ValueEncoding::Form)
    }
}

/// Filters and paging of a listing of a group's children.
#[derive(Debug, Clone)]
pub struct ListChildrenGroupsParams {
    pub limit: Option<u32>,
    pub offset: Option<u32>,
    pub start_level: Option<u32>,
    pub end_level: Option<u32>,
    pub tree: Option<bool>,
    pub metadata: Option<String>,
    pub name: Option<String>,
}

pub open spec fn children_pairs(p: ListChildrenGroupsParams) -> Seq<(Seq<char>, Seq<char>)> {
    int_field("limit"@, of_u32(p.limit)) + int_field("offset"@, of_u32(p.offset)) + int_field(
        "start_level"@,
        of_u32(p.start_level),
    ) + int_field("end_level"@, of_u32(p.end_level)) + bool_field("tree"@, p.tree) + text_field(
        "metadata"@,
        p.metadata,
    ) + text_field("name"@, p.name)
}

impl ListChildrenGroupsParams {
    pub fn to_query_params(&self) -> (r: Vec<(String, String)>)
        ensures
            pairs_view(r@) == children_pairs(*self),
    {
        let mut params: Vec<(String, String)> = Vec::new();
        assert(pairs_view(params@) =~= Seq::empty());
        push_u32(&mut params, "limit", self.limit);
        push_u32(&mut params, "offset", self.offset);
        push_u32(&mut params, "start_level", self.start_level);
        push_u32(&mut params, "end_level", self.end_level);
        push_bool(&mut params, "tree", self.tree);
        push_text(&mut params, "metadata", &self.metadata);
        push_text(&mut params, "name", &self.name);
        assert(pairs_view(params@) =~= children_pairs(*self));
        params
    }

    /// The query parameters: the pairs above, values form-encoded.
    pub fn query(&self) -> (r: Vec<Param>)
        ensures
            params_view(r@) == tagged(children_pairs(*self), ValueEncoding::Form),
    {
        let pairs = self.to_query_params();
        tag_all(&pairs, ValueEncoding::Form)
    }
}

/// How much of a group's hierarchy to list, and in which direction.
#[derive(Debug, Clone)]
pub struct GroupHierarchyParams {
    pub level: Option<u32>,
    pub tree: Option<bool>,
    pub direction: Option<i32>,
}

pub open spec fn hierarchy_pairs(p: GroupHierarchyParams) -> Seq<(Seq<char>, Seq<char>)> {
    int_field("level"@, of_u32(p.level)) + bool_field("tree"@, p.tree) + int_field(
        "direction"@,
        of_i32(p.direction),
    )
}

impl GroupHierarchyParams {
    pub fn to_query_params(&self) -> (r: Vec<(String, String)>)
        ensures
            pairs_view(r@) == hierarchy_pairs(*self),
    {
        let mut params: Vec<(String, String)> = Vec::new();
        assert(pairs_view(params@) =~= Seq::empty());
        push_u32(&mut params, "level", self.level);
        push_bool(&mut params, "tree", self.tree);
        push_i32(&mut params, "direction", self.direction);
        assert(pairs_view(params@) =~= hierarchy_pairs(*self));
        params
    }

    /// The query parameters: the pairs above, values form-encoded.
    pub fn query(&self) -> (r: Vec<Param>)
        ensures
            params_view(r@) == tagged(hierarchy_pairs(*self), ValueEncoding::Form),
    {
        let pairs = self.to_query_params();
        tag_all(&pairs, ValueEncoding::Form)
    }
}

#[derive(Debug, Clone)]
pub struct PaginationParams {
    pub limit: Option<u32>,
    pub offset: Option<u32>,
}

pub open spec fn pagination_pairs(p: PaginationParams) -> Seq<(Seq<char>, Seq<char>)> {
    int_field("limit"@, of_u32(p.limit)) + int_field("offset"@, of_u32(p.offset))
}

impl PaginationParams {
    pub fn to_query_params(&self) -> (r: Vec<(String, String)>)
        ensures
            pairs_view(r@) == pagination_pairs(*self),
    {
        let mut params: Vec<(String, String)> = Vec::new();
        assert(pairs_view(params@) =~= Seq::empty());
        push_u32(&mut params, "limit", self.limit);
        push_u32(&mut params, "offset", self.offset);
        assert(pairs_view(params@) =~= pagination_pairs(*self));
        params
    }

    /// The query parameters: the pairs above, values form-encoded.
    pub fn query(&self) -> (r: Vec<Param>)
        ensures
            params_view(r@) == tagged(pagination_pairs(*self), ValueEncoding::Form),
    {
        let pairs = self.to_query_params();
        tag_all(&pairs, ValueEncoding::Form)
    }
}

/// Settings of a groups client.
#[derive(Debug, Clone)]
pub struct ClientConfig {
    pub base_url: String,
    pub token: String,
    pub timeout: Option<core::time::Duration>,
}

impl Default for ClientConfig {
    /// The local service, no token, a timeout of thirty seconds.
    fn default() -> (r: Self)
        ensures
            r.base_url@ == "http://localhost:9004"@,
            r.token@ == Seq::<char>::empty(),
            r.timeout is Some,
    {
        ClientConfig {
            base_url: String::from_str("http://localhost:9004"),
            token: String::new(),
            timeout: Some(core::time::Duration::from_secs(30)),
        }
    }
}

/// Path of a resource under a domain: `/{domain_id}` followed by the rest.
pub fn domain_path(domain_id: &str, rest: &str) -> (r: String)
    ensures
        r@ == "/"@ + domain_id@ + rest@,
{
    String::from_str("/").concat(domain_id).concat(rest)
}

} // verus!
