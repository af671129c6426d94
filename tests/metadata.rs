use consul_client::common::{Blocking, Duration, QueryMetadata};
use consul_client::errors::strs_to_str;
use consul_client::http_client::check_query_response;
use consul_client::ResponseError;

fn headers(v: &[(&str, &[u8])]) -> Vec<(String, Vec<u8>)> {
    v.iter().map(|(k, v)| (k.to_string(), v.to_vec())).collect()
}

fn invalid_names(r: Result<QueryMetadata, ResponseError>) -> Vec<&'static str> {
    match r {
        Err(ResponseError::InvalidHeaders(names)) => names,
        other => panic!("expected invalid headers, got {:?}", other),
    }
}

#[test]
fn index_header_gives_index_blocking() {
    let meta = QueryMetadata::from_headers(&headers(&[("X-Consul-Index", b"42")])).unwrap();
    assert_eq!(meta.last_index, Some(42));
    assert_eq!(meta.last_content_hash, None);
    assert_eq!(meta.as_blocking(), Some(Blocking::Index(42)));
}

#[test]
fn content_hash_takes_precedence() {
    let meta = QueryMetadata::from_headers(&headers(&[
        ("X-Consul-ContentHash", b"deadbeef"),
        ("X-Consul-Index", b"42"),
    ]))
    .unwrap();
    assert_eq!(meta.last_index, Some(42));
    assert_eq!(meta.last_content_hash.as_deref(), Some("deadbeef"));
    assert_eq!(meta.as_blocking(), Some(Blocking::Hash("deadbeef".to_string())));
}

#[test]
fn malformed_index_is_reported() {
    let r = QueryMetadata::from_headers(&headers(&[("X-Consul-Index", b"not-a-number")]));
    assert_eq!(invalid_names(r), vec!["X-Consul-Index"]);
}

#[test]
fn every_malformed_header_is_reported() {
    let r = QueryMetadata::from_headers(&headers(&[
        ("Age", b"old"),
        ("X-Consul-Index", b"-3"),
        ("X-Consul-KnownLeader", b"tr\x01ue"),
    ]));
    assert_eq!(invalid_names(r), vec!["X-Consul-Index", "X-Consul-KnownLeader", "Age"]);
}

#[test]
fn non_text_hash_is_reported() {
    let r = QueryMetadata::from_headers(&headers(&[("X-Consul-ContentHash", b"ab\xffcd")]));
    assert_eq!(invalid_names(r), vec!["X-Consul-ContentHash"]);
}

#[test]
fn flags_and_age() {
    let meta = QueryMetadata::from_headers(&headers(&[
        ("X-Consul-KnownLeader", b"true"),
        ("X-Consul-Translate-Addresses", b"true"),
        ("X-Cache", b"TRUE"),
        ("Age", b"30"),
    ]))
    .unwrap();
    assert!(meta.known_leader);
    assert!(meta.addr_translate_enabled);
    assert!(meta.cache_hit);
    assert_eq!(meta.cache_age, Some(Duration::from_secs(30)));
    assert_eq!(meta.last_contact, Duration::from_secs(0));
    assert_eq!(meta.as_blocking(), None);
}

#[test]
fn leader_flag_is_case_sensitive() {
    let meta = QueryMetadata::from_headers(&headers(&[
        ("X-Consul-KnownLeader", b"True"),
        ("X-Consul-Translate-Addresses", b"TRUE"),
        ("X-Cache", b"MISS"),
    ]))
    .unwrap();
    assert!(!meta.known_leader);
    assert!(!meta.addr_translate_enabled);
    assert!(!meta.cache_hit);
    let hit = QueryMetadata::from_headers(&headers(&[("X-Cache", b"HIT")])).unwrap();
    assert!(!hit.cache_hit);
}

#[test]
fn header_names_ignore_case_and_first_wins() {
    let meta = QueryMetadata::from_headers(&headers(&[
        ("x-consul-index", b"5"),
        ("X-CONSUL-INDEX", b"6"),
        ("x-cache", b"tRuE"),
    ]))
    .unwrap();
    assert_eq!(meta.last_index, Some(5));
    assert!(meta.cache_hit);
}

#[test]
fn no_headers_give_defaults() {
    let meta = QueryMetadata::from_headers(&Vec::new()).unwrap();
    assert_eq!(meta.last_index, None);
    assert_eq!(meta.last_content_hash, None);
    assert!(!meta.known_leader);
    assert!(!meta.cache_hit);
    assert_eq!(meta.cache_age, None);
}

#[test]
fn unexpected_status_is_reported() {
    match check_query_response(404, &headers(&[("X-Consul-Index", b"1")])) {
        Err(ResponseError::UnexpectedStatus(code)) => assert_eq!(code, 404),
        other => panic!("unexpected {:?}", other),
    }
    let meta = check_query_response(200, &headers(&[("X-Consul-Index", b"9")])).unwrap();
    assert_eq!(meta.last_index, Some(9));
}

#[test]
fn header_list_message() {
    assert_eq!(strs_to_str(&vec!["X-Consul-Index", "Age"]), "X-Consul-Index, Age");
    assert_eq!(strs_to_str(&vec![]), "");
    let e = ResponseError::InvalidHeaders(vec!["X-Cache"]);
    assert_eq!(e.message(), "missing or invalid response headers: X-Cache");
}
