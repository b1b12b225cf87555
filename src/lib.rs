//! Client core for the SuperMQ REST services.
//!
//! The library decides everything about a call except the I/O: it builds the request (full URL,
//! query string, bearer token and content-type headers), maps the response status to a typed
//! result, and steers the walk over a paginated listing. Each service module holds that
//! service's records, query parameters and paths.

pub mod certs;
pub mod channels;
pub mod clients;
pub mod config;
pub mod domains;
pub mod error;
pub mod groups;
pub mod journal;
pub mod models;
pub mod paginate;
pub mod query;
pub mod request;
pub mod text;
pub mod twins;
pub mod types;
pub mod users;
