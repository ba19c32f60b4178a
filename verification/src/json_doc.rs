use vstd::prelude::*;

verus! {

/// The upstream provider answers with an arbitrary JSON document, held as
/// serde_json::Value. The library carries it through opaquely and reads
/// only its top-level text members, which the two names below model.
#[verifier::external_type_specification]
#[verifier::external_body]
pub struct ExValue(serde_json::Value);

/// The top-level members of a JSON document, as far as the library reads
/// them: the domain holds the keys of the document when it is an object
/// (and is empty otherwise), and each key maps to Some of the member's
/// text when that member is a JSON string, else to None.
pub uninterp spec fn text_fields(v: serde_json::Value) -> Map<Seq<char>, Option<Seq<char>>>;

/// The text of a JSON value: Some of its characters when the value is a
/// JSON string, None otherwise.
pub uninterp spec fn as_text(v: serde_json::Value) -> Option<Seq<char>>;

/// Relies on serde_json::Value::get with a string index: on an object it
/// returns the member stored under the key, on anything else None.
#[verifier::external_body]
fn json_get<'a>(v: &'a serde_json::Value, key: &str) -> (r: Option<&'a serde_json::Value>)
    ensures
        r matches Some(member) ==> text_fields(*v).dom().contains(key@) && text_fields(*v)[key@]
            == as_text(*member),
        r is None ==> !text_fields(*v).dom().contains(key@),
{
    v.get(key)
}

/// Relies on serde_json::Value::as_str: Some of the text for a JSON
/// string, None for every other kind of value.
#[verifier::external_body]
fn json_as_text(v: &serde_json::Value) -> (r: Option<String>)
    ensures
        r matches Some(s) ==> as_text(*v) == Some(s@),
        r is None ==> as_text(*v) is None,
{
    v.as_str().map(|s| s.to_owned())
}

/// The stand-in reported when the upstream document names no IP.
pub open spec fn unknown_text() -> Seq<char> {
    "unknown"@
}

/// The normalized IP of an upstream document: the text of its "query"
/// member when the document has one, else the text of its "ip" member;
/// "unknown" when the chosen member is missing or is not a JSON string.
pub open spec fn extracted_ip(v: serde_json::Value) -> Seq<char> {
    let m = text_fields(v);
    let chosen = if m.dom().contains("query"@) {
        m["query"@]
    } else if m.dom().contains("ip"@) {
        m["ip"@]
    } else {
        None
    };
    match chosen {
        Some(t) => t,
        None => unknown_text(),
    }
}

/// When the upstream document reports the queried IP as the text of its
/// "query" member, the normalized IP is exactly that text.
pub proof fn lemma_query_member_echoed(doc: serde_json::Value, ip: Seq<char>)
    requires
        text_fields(doc).dom().contains("query"@),
        text_fields(doc)["query"@] == Some(ip),
    ensures
        extracted_ip(doc) == ip,
{
}

/// When the upstream document has no "query" member but reports the IP as
/// the text of its "ip" member, the normalized IP is exactly that text.
pub proof fn lemma_ip_member_echoed(doc: serde_json::Value, ip: Seq<char>)
    requires
        !text_fields(doc).dom().contains("query"@),
        text_fields(doc).dom().contains("ip"@),
        text_fields(doc)["ip"@] == Some(ip),
    ensures
        extracted_ip(doc) == ip,
{
}

/// Reads the normalized IP out of an upstream document, preferring its
/// "query" member over its "ip" member and falling back to "unknown".
pub fn extract_ip(v: &serde_json::Value) -> (r: String)
    ensures
        r@ == extracted_ip(*v),
{
    let member = match json_get(v, "query") {
        Some(w) => Some(w),
        None => json_get(v, "ip"),
    };
    match member {
        Some(w) => match json_as_text(w) {
            Some(s) => s,
            None => "unknown".to_owned(),
        },
        None => "unknown".to_owned(),
    }
}

} // verus!
