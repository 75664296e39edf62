//! Service metrics shape.

use vstd::prelude::*;

verus! {

/// Counters the service has accumulated since it started.
#[derive(Debug)]
pub struct MetricsResponse {
    pub products: u32,
    pub orders: u32,
    pub users: u32,
    pub api_calls: u32,
}

} // verus!
