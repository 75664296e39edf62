//! The decision core of the newsletter subscription flow: request
//! validation, the upstream URL, and the reading of the upstream's answer.
//! The HTTP exchange itself is I/O and lives with the caller.

use vstd::prelude::*;
use vstd::string::StringExecFns;

use crate::error::ApiError;
use crate::text::{contains_seq, str_contains};

verus! {

/// Check a subscription request and build the upstream form URL: an email
/// without an `@` is a bad request, a missing form id is a configuration
/// error, and otherwise the URL is the fixed endpoint plus the form id.
pub fn validate_subscribe_request(email: &str, form_id: &Option<String>) -> (r: Result<
    String,
    ApiError,
>)
    ensures
        !contains_seq(email@, "@"@) ==> (match r {
            Err(ApiError::BadRequest(m)) => m@ == "Invalid email format"@,
            _ => false,
        }),
        contains_seq(email@, "@"@) && form_id is None ==> (match r {
            Err(ApiError::ConfigError(m)) => m@ == "Loops form ID not configured"@,
            _ => false,
        }),
        contains_seq(email@, "@"@) ==> (match form_id {
            Some(f) => (match r {
                Ok(url) => url@ == "https://app.loops.so/api/newsletter-form/"@ + f@,
                Err(_) => false,
            }),
            None => true,
        }),
{
    if !str_contains(email, "@") {
        return Err(ApiError::bad_request(String::from_str("Invalid email format")));
    }
    match form_id {
        None => Err(ApiError::config_error(String::from_str("Loops form ID not configured"))),
        Some(f) => {
            let mut url = String::from_str("https://app.loops.so/api/newsletter-form/");
            url.append(f.as_str());
            Ok(url)
        },
    }
}

/// Read the upstream's answer: the reported `success` field decides, and
/// where the field is absent the HTTP status does; message and id pass
/// through unchanged.
pub fn subscribe_outcome(
    status_success: bool,
    success_field: Option<bool>,
    message: Option<String>,
    id: Option<String>,
) -> (r: (bool, Option<String>, Option<String>))
    ensures
        r.0 == (match success_field {
            Some(s) => s,
            None => status_success,
        }),
        r.1 == message,
        r.2 == id,
{
    let success = match success_field {
        Some(s) => s,
        None => status_success,
    };
    (success, message, id)
}

} // verus!
