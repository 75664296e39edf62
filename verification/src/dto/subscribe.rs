//! Newsletter subscription and service-info shapes.

use vstd::prelude::*;

verus! {

/// A newsletter sign-up.
#[derive(Debug)]
pub struct SubscribeRequest {
    pub email: String,
    pub user_group: String,
}

/// The outcome of a sign-up, as the upstream service reported it.
#[derive(Debug)]
pub struct SubscribeResponse {
    pub success: bool,
    pub message: Option<String>,
    pub id: Option<String>,
}

/// The health endpoint's answer.
#[derive(Debug)]
pub struct HealthResponse {
    pub status: String,
    pub timestamp: String,
    pub version: String,
}

/// The root endpoint's answer.
#[derive(Debug)]
pub struct RootResponse {
    pub message: String,
    pub version: String,
}

} // verus!
