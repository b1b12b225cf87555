//! The certs service: certificates issued to clients.
use vstd::prelude::*;
use vstd::string::*;
use crate::query::{int_field, of_u64, pairs_view, params_view, push_u64, tag_all, tagged, Param, ValueEncoding};

verus! {

/// Page size that the certificate walk uses.
pub const CERTS_PAGE_SIZE: u64 = 100;

#[derive(Debug, Clone)]
pub struct Certificate {
    pub serial: String,
    pub certificate: String,
    pub key: Option<String>,
    pub revoked: bool,
    pub expires_at: String,
    pub entity_id: String,
    pub created_at: String,
}

#[derive(Debug, Clone)]
pub struct IssueCertificateRequest {
    pub entity_id: String,
    pub ttl: String,
    pub key_type: Option<String>,
    pub key_bits: Option<u32>,
}

impl IssueCertificateRequest {
    /// A request with the default lifetime of one year and the server's key settings.
    pub fn with_default_ttl(entity_id: &str) -> (r: Self)
        ensures
            r.entity_id@ == entity_id@,
            r.ttl@ == "8760h"@,
            r.key_type is None,
            r.key_bits is None,
    {
        IssueCertificateRequest {
            entity_id: String::from_str(entity_id),
            ttl: String::from_str("8760h"),
            key_type: None,
            key_bits: None,
        }
    }
}

#[derive(Debug, Clone)]
pub struct CertificatesPage {
    pub certificates: Vec<Certificate>,
    pub total: u64,
    pub offset: u64,
    pub limit: u64,
}

#[derive(Debug, Clone)]
pub struct PageMetadata {
    pub total: u64,
    pub offset: u64,
    pub limit: u64,
}

/// Settings of a certs client.
#[derive(Debug, Clone)]
pub struct CertsConfig {
    pub base_url: String,
    pub token: Option<String>,
    pub timeout: core::time::Duration,
}

impl Default for CertsConfig {
    /// The local service, no token, a timeout of thirty seconds.
    fn default() -> (r: Self)
        ensures
            r.base_url@ == "http://localhost:9019"@,
            r.token is None,
    {
        CertsConfig {
            base_url: String::from_str("http://localhost:9019"),
            token: None,
            timeout: core::time::Duration::from_secs(30),
        }
    }
}

pub open spec fn list_pairs(offset: Option<u64>, limit: Option<u64>) -> Seq<(Seq<char>, Seq<char>)> {
    int_field("offset"@, of_u64(offset)) + int_field("limit"@, of_u64(limit))
}

/// Query parameters of a certificate listing, written as they are.
pub fn list_query(offset: Option<u64>, limit: Option<u64>) -> (r: Vec<Param>)
    ensures
        params_view(r@) == tagged(list_pairs(offset, limit), ValueEncoding::Raw),
{
    let mut params: Vec<(String, String)> = Vec::new();
    assert(pairs_view(params@) =~= Seq::empty());
    push_u64(&mut params, "offset", offset);
    push_u64(&mut params, "limit", limit);
    assert(pairs_view(params@) =~= list_pairs(offset, limit));
    tag_all(&params, ValueEncoding::Raw)
}

/// Query parameters of the listing of an entity's certificates, written as they are.
pub fn entity_query(entity_id: &str, offset: Option<u64>, limit: Option<u64>) -> (r: Vec<Param>)
    ensures
        params_view(r@) == tagged(
            seq![("entity_id"@, entity_id@)] + list_pairs(offset, limit),
            ValueEncoding::Raw,
        ),
{
    let mut params: Vec<(String, String)> = Vec::new();
    params.push((String::from_str("entity_id"), String::from_str(entity_id)));
    assert(pairs_view(params@) =~= seq![("entity_id"@, entity_id@)]);
    push_u64(&mut params, "offset", offset);
    push_u64(&mut params, "limit", limit);
    assert(pairs_view(params@) =~= seq![("entity_id"@, entity_id@)] + list_pairs(offset, limit));
    tag_all(&params, ValueEncoding::Raw)
}

/// Path of one certificate, followed by `rest` (empty, or `/revoke`).
pub fn cert_path(serial: &str, rest: &str) -> (r: String)
    ensures
        r@ == "/certs/"@ + serial@ + rest@,
{
    String::from_str("/certs/").concat(serial).concat(rest)
}

} // verus!
