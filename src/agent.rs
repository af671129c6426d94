//! Agent records of the Consul API.
use vstd::prelude::*;

use std::collections::HashMap;

use crate::health::HealthCheckDefinition;

verus! {

/// The kind of a service registered with an agent.
#[derive(Debug)]
pub enum AgentServiceKind {
    Default,
    ConnectProxy,
    MeshGateway,
    TerminatingGateway,
    IngressGateway,
}

/// The weights of a service in DNS answers, by health.
#[derive(Debug)]
pub struct AgentWeights {
    pub passing: u64,
    pub warning: u64,
}

/// A check registered with an agent.
#[derive(Debug)]
pub struct AgentCheck {
    pub node: String,
    pub check_id: String,
    pub name: String,
    pub status: String,
    pub notes: String,
    pub output: String,
    pub service_id: String,
    pub service_name: String,
    pub check_type: String,
    pub namespace: Option<String>,
    pub definition: HealthCheckDefinition,
}

/// A service registered with an agent.
#[derive(Debug)]
pub struct AgentService {
    pub kind: AgentServiceKind,
    pub id: String,
    pub service: String,
    pub tags: Vec<String>,
    pub meta: HashMap<String, String>,
    pub port: u16,
    pub address: String,
    pub tagged_addresses: HashMap<String, String>,
    pub weights: AgentWeights,
    pub enable_tag_override: bool,
    pub create_index: u64,
    pub modify_index: u64,
    pub content_hash: String,
    pub namespace: Option<String>,
}

} // verus!
