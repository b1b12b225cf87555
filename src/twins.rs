//! The twins service: digital twins and the states they record.
use vstd::prelude::*;
use vstd::string::*;
use crate::error::{error_kind, is_success, is_success_status, status_error, Error, ErrorKind, StatusError};
use crate::types::metadata_json;
use std::collections::HashMap;
use crate::query::{params_view, tag_all, tagged, Param, ValueEncoding, int_field, of_u64, pairs_view, push_text, push_u64, text_field};

verus! {

/// Largest page the twins service hands out.
pub const MAX_TWINS_LIMIT: u64 = 100;

pub open spec fn capped(limit: u64) -> u64 {
    if limit < MAX_TWINS_LIMIT {
        limit
    } else {
        MAX_TWINS_LIMIT
    }
}

fn cap_limit(limit: u64) -> (r: u64)
    ensures
        r == capped(limit),
{
    if limit < MAX_TWINS_LIMIT {
        limit
    } else {
        MAX_TWINS_LIMIT
    }
}

/// A channel attribute that a twin follows.
#[derive(Debug, Clone)]
pub struct Attribute {
    pub name: String,
    pub channel: String,
    pub subtopic: String,
    pub persist_state: bool,
}

impl Attribute {
    pub fn new(name: &str, channel: &str, subtopic: &str, persist_state: bool) -> (r: Self)
        ensures
            r.name@ == name@,
            r.channel@ == channel@,
            r.subtopic@ == subtopic@,
            r.persist_state == persist_state,
    {
        Attribute {
            name: String::from_str(name),
            channel: String::from_str(channel),
            subtopic: String::from_str(subtopic),
            persist_state,
        }
    }
}

/// Paging of a twin's states.
#[derive(Debug, Clone)]
pub struct StatesQuery {
    pub limit: Option<u64>,
    pub offset: Option<u64>,
}

pub open spec fn states_query_pairs(q: StatesQuery) -> Seq<(Seq<char>, Seq<char>)> {
    int_field("limit"@, of_u64(q.limit)) + int_field("offset"@, of_u64(q.offset))
}

impl StatesQuery {
    pub fn new() -> (r: Self)
        ensures
            r.limit is None && r.offset is None,
    {
        StatesQuery { limit: None, offset: None }
    }

    /// Sets the page size, capped at what the service allows.
    pub fn limit(self, limit: u64) -> (r: Self)
        ensures
            r == (StatesQuery { limit: Some(capped(limit)), ..self }),
    {
        StatesQuery { limit: Some(cap_limit(limit)), ..self }
    }

    pub fn offset(self, offset: u64) -> (r: Self)
        ensures
            r == (StatesQuery { offset: Some(offset), ..self }),
    {
        StatesQuery { offset: Some(offset), ..self }
    }

    pub fn to_query_params(&self) -> (r: Vec<(String, String)>)
        ensures
            pairs_view(r@) == states_query_pairs(*self),
    {
        let mut params: Vec<(String, String)> = Vec::new();
        assert(pairs_view(params@) =~= Seq::empty());
        push_u64(&mut params, "limit", self.limit);
        push_u64(&mut params, "offset", self.offset);
        assert(pairs_view(params@) =~= states_query_pairs(*self));
        params
    }

    /// The query parameters: the pairs above, values percent-encoded.
    pub fn query(&self) -> (r: Vec<Param>)
        ensures
            params_view(r@) == tagged(states_query_pairs(*self), ValueEncoding::Percent),
    {
        let pairs = self.to_query_params();
        tag_all(&pairs, ValueEncoding::Percent)
    }
}

/// Filters and paging of a twin listing.
#[derive(Debug, Clone)]
pub struct TwinsQuery {
    pub limit: Option<u64>,
    pub offset: Option<u64>,
    pub name: Option<String>,
    pub metadata: Option<HashMap<String, serde_json::Value>>,
}

/// The query pairs of a twin listing, with the metadata filter given as JSON text.
pub open spec fn twins_query_pairs(q: TwinsQuery, metadata_json: Option<String>) -> Seq<
    (Seq<char>, Seq<char>),
> {
    int_field("limit"@, of_u64(q.limit)) + int_field("offset"@, of_u64(q.offset)) + text_field(
        "name"@,
        q.name,
    ) + text_field("metadata"@, metadata_json)
}

impl TwinsQuery {
    pub fn new() -> (r: Self)
        ensures
            r.limit is None && r.offset is None && r.name is None && r.metadata is None,
    {
        TwinsQuery { limit: None, offset: None, name: None, metadata: None }
    }

    /// Sets the page size, capped at what the service allows.
    pub fn limit(self, limit: u64) -> (r: Self)
        ensures
            r == (TwinsQuery { limit: Some(capped(limit)), ..self }),
    {
        TwinsQuery { limit: Some(cap_limit(limit)), ..self }
    }

    pub fn offset(self, offset: u64) -> (r: Self)
        ensures
            r == (TwinsQuery { offset: Some(offset), ..self }),
    {
        TwinsQuery { offset: Some(offset), ..self }
    }

    pub fn name(self, name: &str) -> (r: Self)
        ensures
            r.name matches Some(n) && n@ == name@,
            r == (TwinsQuery { name: r.name, ..self }),
    {
        TwinsQuery { name: Some(String::from_str(name)), ..self }
    }

    pub fn metadata(self, metadata: HashMap<String, serde_json::Value>) -> (r: Self)
        ensures
            r == (TwinsQuery { metadata: Some(metadata), ..self }),
    {
        TwinsQuery { metadata: Some(metadata), ..self }
    }

    /// The pairs of the fields that are set, with the metadata filter already written as JSON
    /// text.
    pub fn query_pairs_with(&self, metadata_json: &Option<String>) -> (r: Vec<(String, String)>)
        ensures
            pairs_view(r@) == twins_query_pairs(*self, *metadata_json),
    {
        let mut params: Vec<(String, String)> = Vec::new();
        assert(pairs_view(params@) =~= Seq::empty());
        push_u64(&mut params, "limit", self.limit);
        push_u64(&mut params, "offset", self.offset);
        push_text(&mut params, "name", &self.name);
        push_text(&mut params, "metadata", metadata_json);
        assert(pairs_view(params@) =~= twins_query_pairs(*self, *metadata_json));
        params
    }

    /// The pairs of the fields that are set; the metadata filter is written as JSON, in an
    /// order of entries that the map decides.
    pub fn to_query_params(&self) -> (r: Result<Vec<(String, String)>, Error>)
        ensures
            self.metadata is None ==> (r matches Ok(v) && pairs_view(v@) == twins_query_pairs(
                *self,
                None,
            )),
            self.metadata is Some ==> (r matches Ok(v) ==> exists|t: String|
                pairs_view(v@) == #[trigger] twins_query_pairs(*self, Some(t))),
            r matches Err(e) ==> e is Serialization,
    {
        match &self.metadata {
            None => Ok(self.query_pairs_with(&None)),
            Some(m) => match metadata_json(m) {
                Ok(text) => {
                    let json = Some(text);
                    let v = self.query_pairs_with(&json);
                    Ok(v)
                },
                Err(message) => Err(Error::Serialization(message)),
            },
        }
    }

    /// The query parameters: the pairs above, values percent-encoded.
    pub fn query(&self) -> (r: Result<Vec<Param>, Error>)
        ensures
            self.metadata is None ==> (r matches Ok(v) && params_view(v@) == tagged(
                twins_query_pairs(*self, None),
                ValueEncoding::Percent,
            )),
            self.metadata is Some ==> (r matches Ok(v) ==> exists|t: String|
                params_view(v@) == tagged(
                    #[trigger] twins_query_pairs(*self, Some(t)),
                    ValueEncoding::Percent,
                )),
            r matches Err(e) ==> e is Serialization,
    {
        match self.to_query_params() {
            Ok(pairs) => Ok(tag_all(&pairs, ValueEncoding::Percent)),
            Err(e) => Err(e),
        }
    }
}

/// What a twin creation answers: on a 2xx status the `Location` header, which names the new
/// twin (empty when the header is missing); otherwise the mapped error with the body.
pub fn created_location(status: u16, location: Option<String>, body: String) -> (r: Result<
    String,
    Error,
>)
    ensures
        is_success_status(status) ==> (r matches Ok(l) && l@ == match location {
            Some(h) => h@,
            None => Seq::<char>::empty(),
        }),
        !is_success_status(status) ==> r == Err::<String, Error>(status_error(status, body)),
{
    if is_success(status) {
        match location {
            Some(h) => Ok(h),
            None => Ok(String::new()),
        }
    } else {
        Err(Error::Status(StatusError { kind: error_kind(status), status, body }))
    }
}

/// Whether a twin exists, from the answer to fetching it: a twin that came back exists, a
/// not-found status says it does not, and any other failure is passed on.
pub fn twin_exists<T>(fetched: Result<T, Error>) -> (r: Result<bool, Error>)
    ensures
        r == match fetched {
            Ok(_) => Ok::<bool, Error>(true),
            Err(e) => if e matches Error::Status(se) && se.kind == ErrorKind::NotFound {
                Ok::<bool, Error>(false)
            } else {
                Err::<bool, Error>(e)
            },
        },
{
    match fetched {
        Ok(_) => Ok(true),
        Err(e) => {
            let not_found = match &e {
                Error::Status(se) => se.kind == ErrorKind::NotFound,
                _ => false,
            };
            if not_found {
                Ok(false)
            } else {
                Err(e)
            }
        },
    }
}

/// Path of one twin.
pub fn twin_path(twin_id: &str) -> (r: String)
    ensures
        r@ == "/twins/"@ + twin_id@,
{
    String::from_str("/twins/").concat(twin_id)
}

/// Path of a twin's states.
pub fn states_path(twin_id: &str) -> (r: String)
    ensures
        r@ == "/states/"@ + twin_id@,
{
    String::from_str("/states/").concat(twin_id)
}

} // verus!
