//! Errors of the client, and the table that turns an HTTP status into one.
use vstd::prelude::*;

verus! {

/// The kind of failure that an HTTP status reports.
#[derive(Clone, Copy, Debug, PartialEq, Eq, Structural)]
pub enum ErrorKind {
    BadRequest,
    Unauthorized,
    Forbidden,
    NotFound,
    Conflict,
    UnsupportedMediaType,
    UnprocessableEntity,
    ServerError,
    Unknown,
}

/// A status in the 2xx range.
pub open spec fn is_success_status(status: u16) -> bool {
    200 <= status && status <= 299
}

/// The fixed table from a non-success status to its kind.
pub open spec fn kind_of_status(status: u16) -> ErrorKind {
    if status == 400 {
        ErrorKind::BadRequest
    } else if status == 401 {
        ErrorKind::Unauthorized
    } else if status == 403 {
        ErrorKind::Forbidden
    } else if status == 404 {
        ErrorKind::NotFound
    } else if status == 409 {
        ErrorKind::Conflict
    } else if status == 415 {
        ErrorKind::UnsupportedMediaType
    } else if status == 422 {
        ErrorKind::UnprocessableEntity
    } else if 500 <= status && status <= 599 {
        ErrorKind::ServerError
    } else {
        ErrorKind::Unknown
    }
}

/// A response whose status was not a success, with the body as the server sent it.
#[derive(Clone, Debug)]
pub struct StatusError {
    pub kind: ErrorKind,
    pub status: u16,
    pub body: String,
}

/// Everything a call can fail with.
#[derive(Clone, Debug)]
pub enum Error {
    /// The request could not be sent or the response not read (connection, DNS, TLS).
    Http(String),
    /// A body could not be encoded, or decoded into the expected shape.
    Serialization(String),
    /// An argument that cannot be put into a request.
    InvalidInput(String),
    /// The server answered with a status outside the 2xx range.
    Status(StatusError),
}

/// The error that a non-success response maps to.
pub open spec fn status_error(status: u16, body: String) -> Error {
    Error::Status(StatusError { kind: kind_of_status(status), status, body })
}

/// What a response with this status and body comes to: the body for a 2xx status but 204, no
/// value for 204, and the mapped error otherwise.
pub open spec fn dispatch_spec(status: u16, body: String) -> Result<Option<String>, Error> {
    if status == 204 {
        Ok(None)
    } else if is_success_status(status) {
        Ok(Some(body))
    } else {
        Err(status_error(status, body))
    }
}

/// Whether the status is in the 2xx range.
pub fn is_success(status: u16) -> (r: bool)
    ensures
        r == is_success_status(status),
{
    200 <= status && status <= 299
}

/// The kind of error that a status maps to.
pub fn error_kind(status: u16) -> (k: ErrorKind)
    ensures
        k == kind_of_status(status),
{
    if status == 400 {
        ErrorKind::BadRequest
    } else if status == 401 {
        ErrorKind::Unauthorized
    } else if status == 403 {
        ErrorKind::Forbidden
    } else if status == 404 {
        ErrorKind::NotFound
    } else if status == 409 {
        ErrorKind::Conflict
    } else if status == 415 {
        ErrorKind::UnsupportedMediaType
    } else if status == 422 {
        ErrorKind::UnprocessableEntity
    } else if 500 <= status && status <= 599 {
        ErrorKind::ServerError
    } else {
        ErrorKind::Unknown
    }
}

/// Turns a response into the body to decode, or the typed error.
pub fn dispatch(status: u16, body: String) -> (r: Result<Option<String>, Error>)
    ensures
        r == dispatch_spec(status, body),
{
    if status == 204 {
        Ok(None)
    } else if is_success(status) {
        Ok(Some(body))
    } else {
        Err(Error::Status(StatusError { kind: error_kind(status), status, body }))
    }
}

impl StatusError {
    /// The body of the failed response.
    pub fn body(&self) -> (r: &String)
        ensures
            r == &self.body,
    {
        &self.body
    }
}

impl Error {
    /// The kind of a status error; `None` for the other failures.
    pub fn kind(&self) -> (r: Option<ErrorKind>)
        ensures
            r == match self {
                Error::Status(e) => Some(e.kind),
                _ => None::<ErrorKind>,
            },
    {
        match self {
            Error::Status(e) => Some(e.kind),
            _ => None,
        }
    }
}

/// Every status of the error table gives an error of its kind that carries the response body
/// unchanged.
pub proof fn lemma_error_statuses_keep_body(status: u16, body: String)
    requires
        status == 400 || status == 401 || status == 403 || status == 404 || status == 409
            || status == 415 || status == 422 || (500 <= status && status <= 599),
    ensures
        dispatch_spec(status, body) == Err::<Option<String>, Error>(
            Error::Status(StatusError { kind: kind_of_status(status), status, body }),
        ),
        kind_of_status(status) != ErrorKind::Unknown,
        status == 400 ==> kind_of_status(status) == ErrorKind::BadRequest,
        status == 401 ==> kind_of_status(status) == ErrorKind::Unauthorized,
        status == 403 ==> kind_of_status(status) == ErrorKind::Forbidden,
        status == 404 ==> kind_of_status(status) == ErrorKind::NotFound,
        status == 409 ==> kind_of_status(status) == ErrorKind::Conflict,
        status == 415 ==> kind_of_status(status) == ErrorKind::UnsupportedMediaType,
        status == 422 ==> kind_of_status(status) == ErrorKind::UnprocessableEntity,
        500 <= status <= 599 ==> kind_of_status(status) == ErrorKind::ServerError,
{
}

/// A success response other than 204 yields its body as it came, for the caller to decode; a
/// 204 yields no value.
pub proof fn lemma_success_passes_body(status: u16, body: String)
    requires
        is_success_status(status),
    ensures
        status != 204 ==> dispatch_spec(status, body) == Ok::<Option<String>, Error>(Some(body)),
        status == 204 ==> dispatch_spec(status, body) == Ok::<Option<String>, Error>(None),
{
}

} // verus!
