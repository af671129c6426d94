use consul_client::catalog::service_nodes_path;
use consul_client::common::{QueryOptions, WriteOptions};
use consul_client::http_client::{merge_query_pairs, HttpClient};
use consul_client::Error;

fn pairs(v: &[(&str, &str)]) -> Vec<(String, String)> {
    v.iter().map(|(k, v)| (k.to_string(), v.to_string())).collect()
}

#[test]
fn operation_parameters_override_the_endpoint() {
    let client = HttpClient::from_endpoint("http://127.0.0.1:8500/?dc=east").unwrap();
    let o = QueryOptions { datacenter: Some("west".to_string()), ..Default::default() };
    let req = client.build_request("GET", &service_nodes_path("web"), Some(&o), b"null".to_vec()).unwrap();
    assert_eq!(req.uri, "http://127.0.0.1:8500/v1/catalog/service/web?dc=west");
}

#[test]
fn endpoint_parameters_are_kept() {
    let client = HttpClient::from_endpoint("http://127.0.0.1:8500/?token=x").unwrap();
    let o = QueryOptions { tag: Some("v1".to_string()), ..Default::default() };
    let req = client.build_request("GET", &service_nodes_path("web"), Some(&o), Vec::new()).unwrap();
    assert_eq!(req.uri, "http://127.0.0.1:8500/v1/catalog/service/web?token=x&tag=v1");
}

#[test]
fn every_node_meta_entry_is_sent() {
    let client = HttpClient::from_endpoint("http://127.0.0.1:8500").unwrap();
    let o = QueryOptions {
        node_meta: Some(vec![("a".to_string(), "1".to_string()), ("b".to_string(), "2".to_string())]),
        ..Default::default()
    };
    let req = client.build_request("GET", &service_nodes_path("web"), Some(&o), Vec::new()).unwrap();
    assert_eq!(req.uri, "http://127.0.0.1:8500/v1/catalog/service/web?node-meta%5B%5D=a%3A1&node-meta%5B%5D=b%3A2");
}

#[test]
fn endpoint_query_unchanged_without_parameters() {
    let client = HttpClient::from_endpoint("http://127.0.0.1:8500/?a=1&a=2").unwrap();
    let req = client.build_request("GET", &service_nodes_path("web"), Some(&QueryOptions::default()), Vec::new()).unwrap();
    assert_eq!(req.uri, "http://127.0.0.1:8500/v1/catalog/service/web?a=1&a=2");
}

#[test]
fn merge_overrides_endpoint_names() {
    let merged = merge_query_pairs(
        pairs(&[("dc", "east"), ("a", "1"), ("a", "2")]),
        pairs(&[("dc", "west"), ("b", "3"), ("b", "4")]),
    );
    assert_eq!(merged, pairs(&[("a", "1"), ("a", "2"), ("dc", "west"), ("b", "3"), ("b", "4")]));
}

#[test]
fn one_shot_without_options_adds_nothing() {
    let client = HttpClient::from_endpoint("http://127.0.0.1:8500").unwrap();
    let req = client
        .build_request::<QueryOptions>("GET", &service_nodes_path("web"), None, b"null".to_vec())
        .unwrap();
    assert_eq!(req.method, "GET");
    assert_eq!(req.uri, "http://127.0.0.1:8500/v1/catalog/service/web");
    assert!(req.headers.is_empty());
    assert_eq!(req.body, b"null".to_vec());
}

#[test]
fn headers_are_attached() {
    let client = HttpClient::from_endpoint("http://127.0.0.1:8500").unwrap();
    let o = WriteOptions { token: Some("SECRET-REDACTED".to_string()), ..Default::default() };
    let req = client.build_request("PUT", &service_nodes_path("web"), Some(&o), Vec::new()).unwrap();
    assert_eq!(req.method, "PUT");
    assert_eq!(req.headers, pairs(&[("X-Consul-Token", "SECRET-REDACTED")]));
}

#[test]
fn invalid_header_value_fails_the_build() {
    let client = HttpClient::from_endpoint("http://127.0.0.1:8500").unwrap();
    let o = QueryOptions { token: Some("bad\ntoken".to_string()), ..Default::default() };
    let r = client.build_request("GET", &service_nodes_path("web"), Some(&o), Vec::new());
    assert!(matches!(r, Err(Error::InvalidRequest(_))));
}

#[test]
fn endpoint_that_cannot_be_extended() {
    let client = HttpClient::from_endpoint("data:text/plain,Stuff").unwrap();
    let r = client.build_request::<QueryOptions>("GET", &service_nodes_path("web"), None, Vec::new());
    assert!(matches!(r, Err(Error::InvalidEndpoint)));
    let o = QueryOptions { tag: Some("v1".to_string()), ..Default::default() };
    let r = client.build_request("GET", &service_nodes_path("web"), Some(&o), Vec::new());
    assert!(matches!(r, Err(Error::InvalidEndpoint)));
}

#[test]
fn endpoint_is_kept_as_parsed() {
    let client = HttpClient::from_endpoint("HTTP://Example.COM:80/base").unwrap();
    assert_eq!(client.base_uri, "http://example.com/base");
}

#[test]
fn unparsable_endpoint() {
    assert!(matches!(HttpClient::from_endpoint("not a url"), Err(Error::InvalidConsulEndpoint(_))));
}

#[test]
fn service_nodes_path_segments() {
    assert_eq!(service_nodes_path("web"), vec!["v1", "catalog", "service", "web"]);
}
