//! Records of the auth and identity schemas.
use vstd::prelude::*;

verus! {

/// Kinds of entity that a personal access token's scope can name.
#[derive(Debug, Clone, Copy, PartialEq, Eq, Structural)]
pub enum EntityType {
    Groups,
    Channels,
    Clients,
    Domains,
    Users,
    Dashboards,
    Messages,
}

/// Operations that a scope can allow.
#[derive(Debug, Clone, Copy, PartialEq, Eq, Structural)]
pub enum Operation {
    Create,
    Read,
    List,
    Update,
    Delete,
    Share,
    Unshare,
    Publish,
    Subscribe,
}

#[derive(Debug, Clone)]
pub struct HealthInfo {
    pub status: String,
    pub version: String,
    pub commit: String,
    pub description: String,
    pub build_time: String,
}

/// One page of a listing, with its counters.
#[derive(Debug, Clone)]
pub struct Page<T> {
    pub items: Vec<T>,
    pub total: i32,
    pub offset: i32,
    pub limit: i32,
}

#[derive(Debug, Clone)]
pub struct UserCredentials {
    pub username: String,
    pub secret: Option<String>,
}

#[derive(Debug, Clone)]
pub struct UserProfilePicture {
    pub profile_picture: String,
}

#[derive(Debug, Clone)]
pub struct UserTags {
    pub tags: Vec<String>,
}

} // verus!
