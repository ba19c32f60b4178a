use crate::json_doc::extract_ip;
use crate::json_doc::extracted_ip;
use vstd::prelude::*;
use vstd::string::StringExecFns;

verus! {

/// Body of an inbound lookup call: an explicit IP to resolve, or nothing,
/// which asks for the process's own public address.
pub struct LookupRequest {
    pub ip: Option<String>,
}

/// What a lookup request asks the outside world to do: fetch the provider
/// document at a URL, or discover the process's own public address.
#[derive(Debug, PartialEq)]
pub enum LookupPlan {
    QueryProvider { url: String },
    SelfLookup,
}

/// The failures a lookup can end in.
#[derive(Clone, Copy, Debug, PartialEq, Eq, Structural)]
pub enum LookupError {
    /// The upstream provider could not be reached or answered with a body
    /// that is not JSON.
    Gateway,
    /// The self-lookup helper failed.
    Internal,
}

/// The HTTP status each failure is surfaced as.
pub open spec fn status_code_spec(e: LookupError) -> u16 {
    match e {
        LookupError::Gateway => 502,
        LookupError::Internal => 500,
    }
}

impl LookupError {
    /// A gateway-class failure becomes 502, an internal one 500.
    pub fn status_code(&self) -> (c: u16)
        ensures
            c == status_code_spec(*self),
    {
        match self {
            LookupError::Gateway => 502,
            LookupError::Internal => 500,
        }
    }
}

/// The provider URL for an explicit IP, asking for the expanded field set.
pub open spec fn provider_url_spec(ip: Seq<char>) -> Seq<char> {
    "http://ip-api.com/json/"@ + ip + "?fields=66846719"@
}

/// Builds the upstream query URL for an explicit IP.
pub fn provider_url(ip: &str) -> (r: String)
    ensures
        r@ == provider_url_spec(ip@),
{
    let prefix = "http://ip-api.com/json/".to_owned();
    let with_ip = prefix.concat(ip);
    let r = with_ip.concat("?fields=66846719");
    proof {
        assert(r@ =~= provider_url_spec(ip@));
    }
    r
}

/// Turns an inbound lookup request into the outside work it calls for: an
/// explicit IP becomes a provider query at the URL built for it, an absent
/// one becomes a self-lookup.
pub fn plan_lookup(req: LookupRequest) -> (p: LookupPlan)
    ensures
        req.ip matches Some(ip) ==> (p matches LookupPlan::QueryProvider { url } && url@
            == provider_url_spec(ip@)),
        req.ip is None ==> p is SelfLookup,
{
    match req.ip {
        Some(ip) => LookupPlan::QueryProvider { url: provider_url(ip.as_str()) },
        None => LookupPlan::SelfLookup,
    }
}

/// The error reqwest hands back when the outbound GET or the read of its
/// body fails. The library never looks inside it: every such failure is
/// classified the same way.
#[verifier::external_type_specification]
#[verifier::external_body]
pub struct ExReqwestError(reqwest::Error);

/// Every failure of the outbound provider request, whether the GET itself
/// or reading its body as JSON, is a gateway-class error, whatever the
/// error says.
pub fn classify_fetch_error(_e: &reqwest::Error) -> (r: LookupError)
    ensures
        r is Gateway,
{
    LookupError::Gateway
}

/// Body of a successful lookup reply.
pub struct LookupResponse {
    pub ip: String,
    pub raw: serde_json::Value,
    pub latency_ms: u128,
    pub request_id: String,
}

/// Finishes a lookup once the outside work is done. A fetched document is
/// answered with its normalized IP, the document itself, the measured
/// latency and the correlation id; a failed fetch is answered with that
/// failure and never with a success.
pub fn lookup_reply(
    fetched: Result<serde_json::Value, LookupError>,
    latency_ms: u128,
    request_id: String,
) -> (r: Result<LookupResponse, LookupError>)
    ensures
        fetched matches Ok(doc) ==> (r matches Ok(resp) && resp.ip@ == extracted_ip(doc)
            && resp.raw == doc && resp.latency_ms == latency_ms && resp.request_id == request_id),
        fetched matches Err(e) ==> r matches Err(out) && out == e,
{
    match fetched {
        Ok(doc) => {
            let ip = extract_ip(&doc);
            Ok(LookupResponse { ip, raw: doc, latency_ms, request_id })
        },
        Err(e) => Err(e),
    }
}

} // verus!
