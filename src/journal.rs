//! The journal service: audit records of users and entities.
use vstd::prelude::*;
use vstd::string::*;
use crate::query::{params_view, tag_all, tagged, Param, ValueEncoding, 
    bool_field, int_field, of_i64, of_u64, pairs_view, push_bool, push_i64, push_text, push_u64,
    text_field,
};

verus! {

/// Largest page the journal service hands out.
pub const MAX_JOURNAL_LIMIT: u64 = 10;

/// Kinds of entity that keep a journal.
#[derive(Debug, Clone, Copy, PartialEq, Eq, Structural)]
pub enum EntityType {
    Group,
    Client,
    Channel,
}

impl EntityType {
    pub open spec fn text(self) -> Seq<char> {
        match self {
            EntityType::Group => "group"@,
            EntityType::Client => "client"@,
            EntityType::Channel => "channel"@,
        }
    }

    /// The lower-case name, as it appears in paths.
    pub fn to_string(&self) -> (r: String)
        ensures
            r@ == self.text(),
    {
        match self {
            EntityType::Group => String::from_str("group"),
            EntityType::Client => String::from_str("client"),
            EntityType::Channel => String::from_str("channel"),
        }
    }
}

/// Order of the records by time.
#[derive(Debug, Clone, Copy, PartialEq, Eq, Structural)]
pub enum SortDirection {
    Asc,
    Desc,
}

impl SortDirection {
    pub open spec fn text(self) -> Seq<char> {
        match self {
            SortDirection::Asc => "asc"@,
            SortDirection::Desc => "desc"@,
        }
    }

    /// `asc` or `desc`.
    pub fn to_string(&self) -> (r: String)
        ensures
            r@ == self.text(),
    {
        match self {
            SortDirection::Asc => String::from_str("asc"),
            SortDirection::Desc => String::from_str("desc"),
        }
    }
}

/// Filters and paging of a journal listing; an absent field is left to the server.
#[derive(Debug, Clone)]
pub struct JournalQuery {
    pub offset: Option<u64>,
    pub limit: Option<u64>,
    pub operation: Option<String>,
    pub with_attributes: Option<bool>,
    pub with_metadata: Option<bool>,
    pub from: Option<i64>,
    pub to: Option<i64>,
    pub dir: Option<SortDirection>,
}

pub open spec fn dir_field(dir: Option<SortDirection>) -> Seq<(Seq<char>, Seq<char>)> {
    match dir {
        Some(d) => seq![("dir"@, d.text())],
        None => Seq::empty(),
    }
}

/// The query pairs of a journal listing, in a fixed order of keys.
pub open spec fn journal_query_pairs(q: JournalQuery) -> Seq<(Seq<char>, Seq<char>)> {
    int_field("offset"@, of_u64(q.offset)) + int_field("limit"@, of_u64(q.limit)) + text_field(
        "operation"@,
        q.operation,
    ) + bool_field("with_attributes"@, q.with_attributes) + bool_field(
        "with_metadata"@,
        q.with_metadata,
    ) + int_field("from"@, of_i64(q.from)) + int_field("to"@, of_i64(q.to)) + dir_field(q.dir)
}

impl JournalQuery {
    /// A query with no field set.
    pub fn new() -> (r: Self)
        ensures
            r.offset is None && r.limit is None && r.operation is None && r.with_attributes is None
                && r.with_metadata is None && r.from is None && r.to is None && r.dir is None,
    {
        JournalQuery {
            offset: None,
            limit: None,
            operation: None,
            with_attributes: None,
            with_metadata: None,
            from: None,
            to: None,
            dir: None,
        }
    }

    pub fn offset(self, offset: u64) -> (r: Self)
        ensures
            r == (JournalQuery { offset: Some(offset), ..self }),
    {
        JournalQuery { offset: Some(offset), ..self }
    }

    /// Sets the page size, capped at what the service allows.
    pub fn limit(self, limit: u64) -> (r: Self)
        ensures
            r == (JournalQuery {
                limit: Some(if limit < MAX_JOURNAL_LIMIT {
                    limit
                } else {
                    MAX_JOURNAL_LIMIT
                }),
                ..self
            }),
    {
        let capped = if limit < MAX_JOURNAL_LIMIT {
            limit
        } else {
            MAX_JOURNAL_LIMIT
        };
        JournalQuery { limit: Some(capped), ..self }
    }

    pub fn operation(self, operation: &str) -> (r: Self)
        ensures
            r.operation matches Some(o) && o@ == operation@,
            r == (JournalQuery { operation: r.operation, ..self }),
    {
        JournalQuery { operation: Some(String::from_str(operation)), ..self }
    }

    pub fn with_attributes(self, with_attributes: bool) -> (r: Self)
        ensures
            r == (JournalQuery { with_attributes: Some(with_attributes), ..self }),
    {
        JournalQuery { with_attributes: Some(with_attributes), ..self }
    }

    pub fn with_metadata(self, with_metadata: bool) -> (r: Self)
        ensures
            r == (JournalQuery { with_metadata: Some(with_metadata), ..self }),
    {
        JournalQuery { with_metadata: Some(with_metadata), ..self }
    }

    pub fn from_timestamp(self, from: i64) -> (r: Self)
        ensures
            r == (JournalQuery { from: Some(from), ..self }),
    {
        JournalQuery { from: Some(from), ..self }
    }

    pub fn to_timestamp(self, to: i64) -> (r: Self)
        ensures
            r == (JournalQuery { to: Some(to), ..self }),
    {
        JournalQuery { to: Some(to), ..self }
    }

    pub fn sort_direction(self, dir: SortDirection) -> (r: Self)
        ensures
            r == (JournalQuery { dir: Some(dir), ..self }),
    {
        JournalQuery { dir: Some(dir), ..self }
    }

    /// The `key=value` pairs of the fields that are set.
    pub fn to_query_params(&self) -> (r: Vec<(String, String)>)
        ensures
            pairs_view(r@) == journal_query_pairs(*self),
    {
        let mut params: Vec<(String, String)> = Vec::new();
        assert(pairs_view(params@) =~= Seq::empty());
        push_u64(&mut params, "offset", self.offset);
        push_u64(&mut params, "limit", self.limit);
        push_text(&mut params, "operation", &self.operation);
        push_bool(&mut params, "with_attributes", self.with_attributes);
        push_bool(&mut params, "with_metadata", self.with_metadata);
        push_i64(&mut params, "from", self.from);
        push_i64(&mut params, "to", self.to);
        let ghost before_dir = pairs_view(params@);
        match self.dir {
            Some(d) => {
                let text = d.to_string();
                params.push((String::from_str("dir"), text));
            },
            None => {},
        }
        assert(pairs_view(params@) =~= before_dir + dir_field(self.dir));
        assert(pairs_view(params@) =~= journal_query_pairs(*self));
        params
    }

    /// The query parameters: the pairs above, values written as they are.
    pub fn query(&self) -> (r: Vec<Param>)
        ensures
            params_view(r@) == tagged(journal_query_pairs(*self), ValueEncoding::Raw),
    {
        let pairs = self.to_query_params();
        tag_all(&pairs, ValueEncoding::Raw)
    }
}

/// Path of a user's journal.
pub fn user_journal_path(user_id: &str) -> (r: String)
    ensures
        r@ == "/journal/user/"@ + user_id@,
{
    String::from_str("/journal/user/").concat(user_id)
}

/// Path of an entity's journal within a domain.
pub fn entity_journal_path(domain_id: &str, entity_type: EntityType, entity_id: &str) -> (r: String)
    ensures
        r@ == "/"@ + domain_id@ + "/journal/"@ + entity_type.text() + "/"@ + entity_id@,
{
    let kind = entity_type.to_string();
    String::from_str("/").concat(domain_id).concat("/journal/").concat(kind.as_str()).concat(
        "/",
    ).concat(entity_id)
}

/// Path of a client's telemetry within a domain.
pub fn client_telemetry_path(domain_id: &str, client_id: &str) -> (r: String)
    ensures
        r@ == "/"@ + domain_id@ + "/journal/client/"@ + client_id@ + "/telemetry"@,
{
    String::from_str("/").concat(domain_id).concat("/journal/client/").concat(client_id).concat(
        "/telemetry",
    )
}

} // verus!
