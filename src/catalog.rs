//! Catalog records of the Consul API, and the paths of catalog operations.
use vstd::prelude::*;
use vstd::string::*;

use std::collections::HashMap;

use crate::health::HealthCheck;
use crate::text::string_views;

verus! {

/// The weights of a service in DNS answers, by health.
#[derive(Debug)]
pub struct Weights {
    pub passing: u64,
    pub warning: u64,
}

/// A node of the catalog.
#[derive(Debug)]
pub struct CatalogNode {
    pub id: String,
    pub node: String,
    pub address: String,
    pub datacenter: String,
    pub tagged_addresses: HashMap<String, String>,
    pub meta: HashMap<String, String>,
    pub create_index: u64,
    pub modify_index: u64,
}

/// An address and port at which a service is reachable.
#[derive(Debug)]
pub struct ServiceAddress {
    pub address: String,
    pub port: u16,
}

/// A node that runs a given service, with that service's registration.
#[derive(Debug)]
pub struct CatalogServiceNode {
    pub id: String,
    pub node: String,
    pub address: String,
    pub datacenter: String,
    pub tagged_addresses: HashMap<String, String>,
    pub node_meta: HashMap<String, String>,
    pub service_id: String,
    pub service_name: String,
    pub service_address: String,
    pub service_tagged_addresses: Option<HashMap<String, ServiceAddress>>,
    pub service_tags: Vec<String>,
    pub service_meta: HashMap<String, String>,
    pub service_port: u16,
    pub service_weights: Option<Weights>,
    pub service_enable_tag_override: bool,
    pub create_index: u64,
    pub checks: Option<Vec<HealthCheck>>,
    pub modify_index: u64,
    pub namespace: Option<String>,
}

/// The path segments of the operation that lists the nodes running `service`.
pub fn service_nodes_path(service: &str) -> (r: Vec<String>)
    ensures
        string_views(r@) == seq!["v1"@, "catalog"@, "service"@, service@],
{
    let mut parts: Vec<String> = Vec::new();
    parts.push(String::from_str("v1"));
    parts.push(String::from_str("catalog"));
    parts.push(String::from_str("service"));
    parts.push(String::from_str(service));
    assert(string_views(parts@) =~= seq!["v1"@, "catalog"@, "service"@, service@]);
    parts
}

} // verus!
