use consul_client::common::{Blocking, Consistency, Duration, QueryOptions, RequestOptions, WriteOptions};
use consul_client::text::{parse_u64, to_decimal};

fn pairs(v: &[(&str, &str)]) -> Vec<(String, String)> {
    v.iter().map(|(k, v)| (k.to_string(), v.to_string())).collect()
}

#[test]
fn consistent_read_ignores_cache() {
    let o = QueryOptions {
        consistency: Some(Consistency::Consistent),
        use_cache: true,
        cache_max_age: Some(Duration::from_secs(30)),
        cache_stale_if_error: Some(Duration::from_secs(60)),
        ..Default::default()
    };
    let params = o.query_pairs();
    assert!(params.iter().all(|(k, _)| k != "cached"));
    assert_eq!(params, pairs(&[("consistent", "1")]));
    let headers = o.header_pairs();
    assert!(headers.iter().all(|(k, _)| k != "Cache-Control"));
    assert!(headers.is_empty());
}

#[test]
fn stale_read_with_cache_sends_cache_control() {
    let o = QueryOptions {
        consistency: Some(Consistency::Stale),
        use_cache: true,
        cache_max_age: Some(Duration::from_secs(30)),
        cache_stale_if_error: Some(Duration::from_secs(60)),
        ..Default::default()
    };
    assert_eq!(o.query_pairs(), pairs(&[("stale", "1"), ("cached", "1")]));
    assert_eq!(o.header_pairs(), pairs(&[("Cache-Control", "max-age=30, stale-if-error=60")]));
}

#[test]
fn cache_control_skips_spans_under_a_second() {
    let o = QueryOptions {
        use_cache: true,
        cache_max_age: Some(Duration::from_millis(500)),
        cache_stale_if_error: Some(Duration::from_secs(5)),
        ..Default::default()
    };
    assert_eq!(o.query_pairs(), pairs(&[("cached", "1")]));
    assert_eq!(o.header_pairs(), pairs(&[("Cache-Control", "stale-if-error=5")]));
    let none = QueryOptions { use_cache: true, cache_max_age: Some(Duration::from_millis(999)), ..Default::default() };
    assert!(none.header_pairs().is_empty());
}

#[test]
fn hash_blocking_sends_hash_only() {
    let o = QueryOptions { blocking: Some(Blocking::Hash("abc".to_string())), ..Default::default() };
    let params = o.query_pairs();
    assert_eq!(params, pairs(&[("hash", "abc")]));
    assert!(params.iter().all(|(k, _)| k != "index"));
}

#[test]
fn index_blocking_sends_index_and_wait() {
    let o = QueryOptions {
        blocking: Some(Blocking::Index(42)),
        blocking_timeout: Some(Duration::from_millis(1500)),
        ..Default::default()
    };
    assert_eq!(o.query_pairs(), pairs(&[("index", "42"), ("wait", "1500ms")]));
}

#[test]
fn wait_needs_a_blocking_condition() {
    let o = QueryOptions { blocking_timeout: Some(Duration::from_secs(10)), ..Default::default() };
    assert!(o.query_pairs().is_empty());
}

#[test]
fn all_parameters_in_order() {
    let o = QueryOptions {
        namespace: Some("team".to_string()),
        datacenter: Some("west".to_string()),
        token: Some("SECRET-REDACTED".to_string()),
        consistency: Some(Consistency::Stale),
        blocking: Some(Blocking::Index(7)),
        blocking_timeout: Some(Duration::from_secs(2)),
        use_cache: false,
        near: Some("_agent".to_string()),
        node_meta: Some(vec![("rack".to_string(), "r1".to_string()), ("os".to_string(), "linux".to_string())]),
        tag: Some("primary".to_string()),
        filtering: Some("Service.Port == 80".to_string()),
        relay_factor: Some(3),
        local_only: true,
        connect: true,
        timeout: Some(Duration::from_secs(30)),
        ..Default::default()
    };
    assert_eq!(
        o.query_pairs(),
        pairs(&[
            ("ns", "team"),
            ("dc", "west"),
            ("stale", "1"),
            ("index", "7"),
            ("wait", "2000ms"),
            ("near", "_agent"),
            ("node-meta[]", "rack:r1"),
            ("node-meta[]", "os:linux"),
            ("tag", "primary"),
            ("filter", "Service.Port == 80"),
            ("relay-factor", "3"),
            ("local-only", "true"),
            ("connect", "true"),
        ])
    );
    assert_eq!(o.header_pairs(), pairs(&[("X-Consul-Token", "SECRET-REDACTED")]));
    assert_eq!(o.as_timeout(), Some(Duration::from_secs(30)));
}

#[test]
fn default_query_options_project_nothing() {
    let o = QueryOptions::default();
    assert!(o.query_pairs().is_empty());
    assert!(o.header_pairs().is_empty());
    assert_eq!(o.as_timeout(), None);
}

#[test]
fn write_options_projection() {
    let o = WriteOptions {
        namespace: Some("team".to_string()),
        datacenter: Some("east".to_string()),
        token: Some("tok".to_string()),
        relay_factor: Some(5),
        timeout: Some(Duration::from_millis(250)),
    };
    assert_eq!(o.query_pairs(), pairs(&[("ns", "team"), ("dc", "east"), ("relay-factor", "5")]));
    assert_eq!(o.header_pairs(), pairs(&[("X-Consul-Token", "tok")]));
    assert_eq!(o.as_timeout(), Some(Duration::from_millis(250)));
}

#[test]
fn duration_conversions() {
    let d = Duration::from_millis(2345);
    assert_eq!(d.as_secs(), 2);
    assert_eq!(d.as_millis(), 2345);
    assert_eq!(Duration::from_secs(3).as_millis(), 3000);
}

#[test]
fn decimal_rendering() {
    assert_eq!(to_decimal(0), "0");
    assert_eq!(to_decimal(42), "42");
    assert_eq!(to_decimal(u64::MAX as u128), "18446744073709551615");
}

#[test]
fn unsigned_parsing() {
    assert_eq!(parse_u64(b"42"), Some(42));
    assert_eq!(parse_u64(b"+7"), Some(7));
    assert_eq!(parse_u64(b"007"), Some(7));
    assert_eq!(parse_u64(b"18446744073709551615"), Some(u64::MAX));
    assert_eq!(parse_u64(b"18446744073709551616"), None);
    assert_eq!(parse_u64(b""), None);
    assert_eq!(parse_u64(b"+"), None);
    assert_eq!(parse_u64(b"-1"), None);
    assert_eq!(parse_u64(b"4x"), None);
    assert_eq!(parse_u64(b" 4"), None);
}
