//! Health check records of the Consul API.
use vstd::prelude::*;

use std::collections::HashMap;

use crate::common::Duration;

verus! {

/// A health check of a node or a service.
#[derive(Debug)]
pub struct HealthCheck {
    pub node: String,
    pub check_id: String,
    pub name: String,
    pub status: String,
    pub notes: String,
    pub output: String,
    pub service_id: String,
    pub service_name: String,
    pub service_tags: Vec<String>,
    pub check_type: String,
    pub namespace: Option<String>,
    pub definition: HealthCheckDefinition,
    pub create_index: u64,
    pub modify_index: u64,
}

/// How a health check probes its target.
#[derive(Debug)]
pub struct HealthCheckDefinition {
    pub http: String,
    pub header: HashMap<String, String>,
    pub method: String,
    pub body: String,
    pub tls_skip_verify: bool,
    pub tcp: String,
    pub interval: Duration,
    pub timeout: Duration,
    pub deregister_critical_svc_after: Duration,
}

} // verus!
