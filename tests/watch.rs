use consul_client::common::{Blocking, QueryMetadata, QueryOptions};
use consul_client::watch::Watch;

fn meta(index: &str) -> QueryMetadata {
    QueryMetadata::from_headers(&vec![("X-Consul-Index".to_string(), index.as_bytes().to_vec())]).unwrap()
}

#[test]
fn watch_carries_index_and_stops_on_error() {
    let mut watch = Watch::new(None);
    let mut conditions = Vec::new();
    let mut items = 0;
    let mut errors = 0;
    let mut responses = vec![Ok(meta("1")), Ok(meta("2")), Err("connection reset")].into_iter();
    while watch.next_request() {
        conditions.push(watch.options().blocking.clone());
        match responses.next().unwrap() {
            Ok(m) => {
                watch.on_response(&m);
                items += 1;
            },
            Err(_) => {
                watch.on_error();
                errors += 1;
            },
        }
    }
    assert_eq!(items, 2);
    assert_eq!(errors, 1);
    assert_eq!(conditions, vec![None, Some(Blocking::Index(1)), Some(Blocking::Index(2))]);
    assert!(watch.is_finished());
    assert!(!watch.next_request());
}

#[test]
fn watch_prefers_hash_and_keeps_options() {
    let o = QueryOptions { datacenter: Some("west".to_string()), ..Default::default() };
    let mut watch = Watch::new(Some(o));
    assert!(watch.next_request());
    assert_eq!(watch.options().blocking, None);
    let m = QueryMetadata::from_headers(&vec![
        ("X-Consul-Index".to_string(), b"3".to_vec()),
        ("X-Consul-ContentHash".to_string(), b"abc".to_vec()),
    ])
    .unwrap();
    watch.on_response(&m);
    assert!(watch.next_request());
    assert_eq!(watch.options().blocking, Some(Blocking::Hash("abc".to_string())));
    assert_eq!(watch.options().datacenter.as_deref(), Some("west"));
    let empty = QueryMetadata::from_headers(&Vec::new()).unwrap();
    watch.on_response(&empty);
    assert!(watch.next_request());
    assert_eq!(watch.options().blocking, None);
}
