use adatari_ip::AppState;
use adatari_ip::LookupError;
use adatari_ip::LookupPlan;
use adatari_ip::LookupRequest;
use adatari_ip::classify_fetch_error;
use adatari_ip::extract_ip;
use adatari_ip::health_reply;
use adatari_ip::is_uuid_string;
use adatari_ip::lookup_reply;
use adatari_ip::metrics_reply;
use adatari_ip::plan_lookup;
use adatari_ip::provider_url;
use adatari_ip::resolve_request_id;

fn text_member(key: &str, text: &str) -> (String, serde_json::Value) {
    (key.to_string(), serde_json::Value::String(text.to_string()))
}

fn object_of(members: Vec<(String, serde_json::Value)>) -> serde_json::Value {
    let mut map = serde_json::Map::new();
    for (key, value) in members {
        map.insert(key, value);
    }
    serde_json::Value::Object(map)
}

#[test]
fn provider_url_formats_explicit_ip() {
    assert_eq!(
        provider_url("8.8.8.8"),
        "http://ip-api.com/json/8.8.8.8?fields=66846719"
    );
}

#[test]
fn plan_with_ip_queries_provider() {
    let plan = plan_lookup(LookupRequest { ip: Some("1.2.3.4".to_string()) });
    assert_eq!(
        plan,
        LookupPlan::QueryProvider {
            url: "http://ip-api.com/json/1.2.3.4?fields=66846719".to_string()
        }
    );
}

#[test]
fn plan_without_ip_is_self_lookup() {
    let plan = plan_lookup(LookupRequest { ip: None });
    assert_eq!(plan, LookupPlan::SelfLookup);
}

#[test]
fn extract_ip_reads_query_member() {
    let doc = object_of(vec![text_member("query", "8.8.8.8")]);
    assert_eq!(extract_ip(&doc), "8.8.8.8");
}

#[test]
fn extract_ip_prefers_query_over_ip() {
    let doc = object_of(vec![
        text_member("query", "8.8.8.8"),
        text_member("ip", "9.9.9.9"),
    ]);
    assert_eq!(extract_ip(&doc), "8.8.8.8");
}

#[test]
fn extract_ip_falls_back_to_ip_member() {
    let doc = object_of(vec![
        text_member("ip", "203.0.113.7"),
        text_member("country", "somewhere"),
    ]);
    assert_eq!(extract_ip(&doc), "203.0.113.7");
}

#[test]
fn extract_ip_unknown_without_either_member() {
    let doc = object_of(vec![text_member("status", "success")]);
    assert_eq!(extract_ip(&doc), "unknown");
    assert_eq!(extract_ip(&serde_json::Value::Null), "unknown");
}

#[test]
fn extract_ip_unknown_when_query_is_not_text() {
    let doc = object_of(vec![
        ("query".to_string(), serde_json::Value::Bool(true)),
        text_member("ip", "9.9.9.9"),
    ]);
    assert_eq!(extract_ip(&doc), "unknown");
}

#[test]
fn lookup_reply_success_carries_document() {
    let doc = object_of(vec![text_member("query", "8.8.8.8")]);
    let reply = lookup_reply(Ok(doc.clone()), 12, "abc".to_string()).unwrap();
    assert_eq!(reply.ip, "8.8.8.8");
    assert_eq!(reply.raw, doc);
    assert_eq!(reply.latency_ms, 12);
    assert_eq!(reply.request_id, "abc");
}

#[test]
fn lookup_reply_failure_is_never_success() {
    let reply = lookup_reply(Err(LookupError::Gateway), 3, "abc".to_string());
    assert!(matches!(reply, Err(LookupError::Gateway)));
    let reply = lookup_reply(Err(LookupError::Internal), 3, "abc".to_string());
    assert!(matches!(reply, Err(LookupError::Internal)));
}

#[test]
fn error_status_codes() {
    assert_eq!(LookupError::Gateway.status_code(), 502);
    assert_eq!(LookupError::Internal.status_code(), 500);
}

#[test]
fn fetch_failure_classified_as_gateway() {
    let runtime = tokio::runtime::Builder::new_current_thread()
        .enable_all()
        .build()
        .unwrap();
    let err = runtime.block_on(reqwest::get("not a url")).unwrap_err();
    assert_eq!(classify_fetch_error(&err), LookupError::Gateway);
    assert_eq!(classify_fetch_error(&err).status_code(), 502);
}

#[test]
fn request_id_header_echoed() {
    let id = resolve_request_id(Some("trace-1".to_string()));
    assert_eq!(id, "trace-1");
}

#[test]
fn generated_request_ids_are_valid_and_distinct() {
    let first = resolve_request_id(None);
    let second = resolve_request_id(None);
    assert!(is_uuid_string(&first));
    assert!(is_uuid_string(&second));
    assert_ne!(first, second);
}

#[test]
fn uuid_checker_accepts_hyphenated_form() {
    assert!(is_uuid_string("550e8400-e29b-41d4-a716-446655440000"));
    assert!(is_uuid_string("550E8400-E29B-41D4-A716-446655440000"));
}

#[test]
fn uuid_checker_rejects_other_shapes() {
    assert!(!is_uuid_string(""));
    assert!(!is_uuid_string("550e8400e29b41d4a716446655440000"));
    assert!(!is_uuid_string("550e8400-e29b-41d4-a716-44665544000g"));
    assert!(!is_uuid_string("550e8400-e29b-41d4-a716-4466554400000"));
    assert!(!is_uuid_string("550e8400-e29b-41d4-a716_446655440000"));
}

#[test]
fn health_reports_ok_and_small_uptime_at_startup() {
    let state = AppState::new(5_000);
    let reply = health_reply(&state, 5_000);
    assert_eq!(reply.status, "ok");
    assert_eq!(reply.uptime_sec, 0);
    let reply = health_reply(&state, 5_999);
    assert_eq!(reply.uptime_sec, 0);
}

#[test]
fn health_uptime_counts_whole_seconds_and_grows() {
    let state = AppState::new(1_000);
    let earlier = health_reply(&state, 31_000);
    let later = health_reply(&state, 95_500);
    assert_eq!(earlier.uptime_sec, 30);
    assert_eq!(later.uptime_sec, 94);
    assert!(earlier.uptime_sec <= later.uptime_sec);
}

#[test]
fn metrics_service_name_is_stable() {
    let state = AppState::new(0);
    let first = metrics_reply(&state, 1_000, "1.0.0".to_string());
    let second = metrics_reply(&state, 2_000, "1.0.0".to_string());
    assert_eq!(first.service, "adatari-ip-service");
    assert_eq!(first.service, second.service);
    assert_eq!(first.version, "1.0.0");
    assert_eq!(second.uptime_sec, 2);
}
