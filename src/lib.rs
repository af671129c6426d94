//! A client library for the Consul HTTP API: query options, their projection into request
//! parameters and headers, response metadata, and the blocking-query watch engine.
use vstd::prelude::*;

pub mod agent;
pub mod catalog;
pub mod common;
pub mod errors;
pub mod headers;
pub mod health;
pub mod http_client;
pub mod laws;
pub mod text;
pub mod watch;

pub use crate::catalog::CatalogServiceNode;
pub use crate::errors::{Error, ResponseError};

verus! {

} // verus!
