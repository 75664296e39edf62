//! The HTTP client for the upstream e-commerce gateway: its configuration
//! and its construction.  The client value itself is reqwest's and opaque
//! here; the network calls made with it are I/O and live with the caller.

use vstd::prelude::*;
use vstd::string::StringExecFns;

use crate::error::ApiError;
use crate::text::starts_with_seq;

verus! {

#[verifier::external_type_specification]
#[verifier::external_body]
pub struct ExReqwestClient(reqwest::Client);

#[verifier::external_type_specification]
#[verifier::external_body]
pub struct ExReqwestError(reqwest::Error);

/// How the gateway is reached: its base URL, an optional bearer key, and the
/// request timeout in seconds.
#[derive(Debug)]
pub struct AllFrameClientConfig {
    pub base_url: String,
    pub api_key: Option<String>,
    pub timeout_secs: u64,
}

impl Default for AllFrameClientConfig {
    /// The defaults: a local gateway, no key, 30-second timeout.
    fn default() -> (r: AllFrameClientConfig)
        ensures
            r.base_url@ == "http://localhost:4400"@,
            r.api_key is None,
            r.timeout_secs == 30,
    {
        AllFrameClientConfig {
            base_url: String::from_str("http://localhost:4400"),
            api_key: None,
            timeout_secs: 30,
        }
    }
}

/// Relies on `reqwest::Client::builder`, `ClientBuilder::timeout` and
/// `ClientBuilder::build`: an HTTP client with the given request timeout, or
/// reqwest's error where the backend cannot be initialised.
#[verifier::external_body]
fn build_http_client(timeout_secs: u64) -> (r: Result<reqwest::Client, reqwest::Error>) {
    reqwest::Client::builder().timeout(core::time::Duration::from_secs(timeout_secs)).build()
}

/// Relies on the `Display` impl of `reqwest::Error`: the error's message.
#[verifier::external_body]
fn reqwest_error_text(e: &reqwest::Error) -> (r: String) {
    format!("{}", e)
}

/// The gateway client: a reqwest HTTP client plus its configuration.
pub struct AllFrameClient {
    pub client: reqwest::Client,
    pub config: AllFrameClientConfig,
}

impl AllFrameClient {
    /// A client over the given configuration.  Only a failure of the HTTP
    /// backend is an error, reported as an external-service error whose
    /// message names the cause.
    pub fn new(config: AllFrameClientConfig) -> (r: Result<AllFrameClient, ApiError>)
        ensures
            match r {
                Ok(c) => c.config == config,
                Err(e) => e matches ApiError::ExternalServiceError(m) && starts_with_seq(
                    m@,
                    "Failed to create HTTP client: "@,
                ),
            },
    {
        match build_http_client(config.timeout_secs) {
            Ok(client) => Ok(AllFrameClient { client, config }),
            Err(e) => {
                let mut msg = String::from_str("Failed to create HTTP client: ");
                let ghost prefix = msg@;
                let text = reqwest_error_text(&e);
                msg.append(text.as_str());
                proof {
                    assert(msg@.subrange(0, prefix.len() as int) =~= prefix);
                }
                Err(ApiError::external_service_error(msg))
            },
        }
    }
}

} // verus!
