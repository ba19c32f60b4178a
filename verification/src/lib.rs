//! Verified core of a small IP-intelligence HTTP service.
//!
//! The library decides everything the service's handlers decide: how a
//! lookup request is turned into an upstream query, how the upstream
//! document is normalized into a reply, how request ids are chosen, and
//! what health and metrics report. The surrounding HTTP server, which
//! only moves bytes, lives outside the library.

mod json_doc;
mod lookup;
mod request_id;
mod status;

pub use json_doc::as_text;
pub use json_doc::extract_ip;
pub use json_doc::extracted_ip;
pub use json_doc::lemma_ip_member_echoed;
pub use json_doc::lemma_query_member_echoed;
pub use json_doc::text_fields;
pub use json_doc::unknown_text;
pub use lookup::LookupError;
pub use lookup::LookupPlan;
pub use lookup::LookupRequest;
pub use lookup::LookupResponse;
pub use lookup::classify_fetch_error;
pub use lookup::lookup_reply;
pub use lookup::plan_lookup;
pub use lookup::provider_url;
pub use lookup::provider_url_spec;
pub use lookup::status_code_spec;
pub use request_id::is_hex_digit_char;
pub use request_id::is_uuid_seq;
pub use request_id::is_uuid_string;
pub use request_id::resolve_request_id;
pub use request_id::uuid_char_ok;
pub use status::AppState;
pub use status::HealthResponse;
pub use status::MetricsResponse;
pub use status::health_reply;
pub use status::metrics_reply;
pub use status::lemma_uptime_monotonic;
pub use status::uptime_secs;
