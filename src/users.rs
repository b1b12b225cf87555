//! The users service: accounts, credentials and tokens.
use vstd::prelude::*;
use vstd::string::*;
use crate::query::{params_view, tag_all, tagged, Param, ValueEncoding, int_field, of_u64, pairs_view, push_text, push_u64, text_field};
use std::collections::HashMap;

verus! {

#[derive(Debug, Clone)]
pub struct Credentials {
    pub username: String,
    pub secret: Option<String>,
}

/// A new user account.
#[derive(Debug, Clone)]
pub struct UserReqObj {
    pub first_name: String,
    pub last_name: String,
    pub email: String,
    pub tags: Option<Vec<String>>,
    pub credentials: Credentials,
    pub metadata: Option<HashMap<String, serde_json::Value>>,
    pub profile_picture: Option<String>,
    pub status: Option<String>,
}

impl UserReqObj {
    /// An account with names, email and password only; everything else is left to the server.
    pub fn simple(first_name: &str, last_name: &str, email: &str, username: &str, password: &str) -> (r:
        Self)
        ensures
            r.first_name@ == first_name@,
            r.last_name@ == last_name@,
            r.email@ == email@,
            r.credentials.username@ == username@,
            r.credentials.secret matches Some(p) && p@ == password@,
            r.tags is None && r.metadata is None && r.profile_picture is None && r.status is None,
    {
        UserReqObj {
            first_name: String::from_str(first_name),
            last_name: String::from_str(last_name),
            email: String::from_str(email),
            tags: None,
            credentials: Credentials {
                username: String::from_str(username),
                secret: Some(String::from_str(password)),
            },
            metadata: None,
            profile_picture: None,
            status: None,
        }
    }
}

/// The role a user is given.
#[derive(Debug, Clone)]
pub struct UserRole {
    pub role: String,
}

impl UserRole {
    /// The administrator role.
    pub fn admin() -> (r: Self)
        ensures
            r.role@ == "admin"@,
    {
        UserRole { role: String::from_str("admin") }
    }

    /// The ordinary user role.
    pub fn user() -> (r: Self)
        ensures
            r.role@ == "user"@,
    {
        UserRole { role: String::from_str("user") }
    }
}

#[derive(Debug, Clone)]
pub struct UserTags {
    pub tags: Vec<String>,
}

#[derive(Debug, Clone)]
pub struct UserProfilePicture {
    pub profile_picture: String,
}

#[derive(Debug, Clone)]
pub struct Email {
    pub email: String,
}

#[derive(Debug, Clone)]
pub struct UserSecret {
    pub old_secret: String,
    pub new_secret: String,
}

#[derive(Debug, Clone)]
pub struct Username {
    pub username: String,
}

#[derive(Debug, Clone)]
pub struct IssueToken {
    pub username: String,
    pub password: String,
}

impl IssueToken {
    pub fn new(username: &str, password: &str) -> (r: Self)
        ensures
            r.username@ == username@,
            r.password@ == password@,
    {
        IssueToken { username: String::from_str(username), password: String::from_str(password) }
    }
}

#[derive(Debug, Clone)]
pub struct TokenRes {
    pub access_token: String,
    pub refresh_token: String,
    pub access_type: String,
}

#[derive(Debug, Clone)]
pub struct RequestPasswordReset {
    pub email: String,
}

#[derive(Debug, Clone)]
pub struct PasswordReset {
    pub password: String,
    pub confirm_password: String,
    pub token: String,
}

#[derive(Debug, Clone)]
pub struct HealthRes {
    pub status: String,
    pub version: String,
    pub commit: String,
    pub description: String,
    pub build_time: String,
}

/// Filters and paging of a user listing. The metadata filter is not sent as a query parameter.
#[derive(Debug, Clone)]
pub struct UserListParams {
    pub limit: Option<u64>,
    pub offset: Option<u64>,
    pub metadata: Option<HashMap<String, serde_json::Value>>,
    pub status: Option<String>,
    pub first_name: Option<String>,
    pub last_name: Option<String>,
    pub username: Option<String>,
    pub email: Option<String>,
    pub tag: Option<String>,
}

pub open spec fn user_list_pairs(p: UserListParams) -> Seq<(Seq<char>, Seq<char>)> {
    int_field("limit"@, of_u64(p.limit)) + int_field("offset"@, of_u64(p.offset)) + text_field(
        "status"@,
        p.status,
    ) + text_field("first_name"@, p.first_name) + text_field("last_name"@, p.last_name)
        + text_field("username"@, p.username) + text_field("email"@, p.email) + text_field(
        "tag"@,
        p.tag,
    )
}

impl UserListParams {
    /// Only paging: one page of `limit` users from `offset`.
    pub fn page(offset: u64, limit: u64) -> (r: Self)
        ensures
            r.offset == Some(offset) && r.limit == Some(limit),
            r.metadata is None && r.status is None && r.first_name is None && r.last_name is None
                && r.username is None && r.email is None && r.tag is None,
    {
        UserListParams {
            limit: Some(limit),
            offset: Some(offset),
            metadata: None,
            status: None,
            first_name: None,
            last_name: None,
            username: None,
            email: None,
            tag: None,
        }
    }

    pub fn to_query_params(&self) -> (r: Vec<(String, String)>)
        ensures
            pairs_view(r@) == user_list_pairs(*self),
    {
        let mut params: Vec<(String, String)> = Vec::new();
        assert(pairs_view(params@) =~= Seq::empty());
        push_u64(&mut params, "limit", self.limit);
        push_u64(&mut params, "offset", self.offset);
        push_text(&mut params, "status", &self.status);
        push_text(&mut params, "first_name", &self.first_name);
        push_text(&mut params, "last_name", &self.last_name);
        push_text(&mut params, "username", &self.username);
        push_text(&mut params, "email", &self.email);
        push_text(&mut params, "tag", &self.tag);
        assert(pairs_view(params@) =~= user_list_pairs(*self));
        params
    }

    /// The query parameters: the pairs above, values written as they are.
    pub fn query(&self) -> (r: Vec<Param>)
        ensures
            params_view(r@) == tagged(user_list_pairs(*self), ValueEncoding::Raw),
    {
        let pairs = self.to_query_params();
        tag_all(&pairs, ValueEncoding::Raw)
    }
}

/// Filters and paging of a user search.
#[derive(Debug, Clone)]
pub struct UserSearchParams {
    pub limit: Option<u64>,
    pub offset: Option<u64>,
    pub username: Option<String>,
    pub first_name: Option<String>,
    pub last_name: Option<String>,
    pub email: Option<String>,
    pub user_id: Option<String>,
}

pub open spec fn user_search_pairs(p: UserSearchParams) -> Seq<(Seq<char>, Seq<char>)> {
    int_field("limit"@, of_u64(p.limit)) + int_field("offset"@, of_u64(p.offset)) + text_field(
        "username"@,
        p.username,
    ) + text_field("first_name"@, p.first_name) + text_field("last_name"@, p.last_name)
        + text_field("email"@, p.email) + text_field("userID"@, p.user_id)
}

impl UserSearchParams {
    pub fn to_query_params(&self) -> (r: Vec<(String, String)>)
        ensures
            pairs_view(r@) == user_search_pairs(*self),
    {
        let mut params: Vec<(String, String)> = Vec::new();
        assert(pairs_view(params@) =~= Seq::empty());
        push_u64(&mut params, "limit", self.limit);
        push_u64(&mut params, "offset", self.offset);
        push_text(&mut params, "username", &self.username);
        push_text(&mut params, "first_name", &self.first_name);
        push_text(&mut params, "last_name", &self.last_name);
        push_text(&mut params, "email", &self.email);
        push_text(&mut params, "userID", &self.user_id);
        assert(pairs_view(params@) =~= user_search_pairs(*self));
        params
    }

    /// The query parameters: the pairs above, values written as they are.
    pub fn query(&self) -> (r: Vec<Param>)
        ensures
            params_view(r@) == tagged(user_search_pairs(*self), ValueEncoding::Raw),
    {
        let pairs = self.to_query_params();
        tag_all(&pairs, ValueEncoding::Raw)
    }
}

/// Settings of a users client.
#[derive(Debug, Clone)]
pub struct UsersConfig {
    pub base_url: String,
    pub token: Option<String>,
    pub timeout: core::time::Duration,
}

impl Default for UsersConfig {
    /// The local service, no token, a timeout of thirty seconds.
    fn default() -> (r: Self)
        ensures
            r.base_url@ == "http://localhost:9002"@,
            r.token is None,
    {
        UsersConfig {
            base_url: String::from_str("http://localhost:9002"),
            token: None,
            timeout: core::time::Duration::from_secs(30),
        }
    }
}

/// Path of one user, followed by `rest` (empty, or an action such as `/enable`).
pub fn user_path(user_id: &str, rest: &str) -> (r: String)
    ensures
        r@ == "/users/"@ + user_id@ + rest@,
{
    String::from_str("/users/").concat(user_id).concat(rest)
}

} // verus!
