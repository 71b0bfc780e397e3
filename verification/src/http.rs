//! The HTTP client type of `reqwest` and the clock readings of `chrono`, as the
//! library hands them on.
use vstd::prelude::*;

verus! {

/// `reqwest`'s asynchronous HTTP client, held opaque.
#[verifier::external_type_specification]
#[verifier::external_body]
pub struct ExClient(reqwest::Client);

/// `reqwest::Client::clone` (derived) gives a handle on the same connection pool;
/// nothing is claimed of it.
pub assume_specification[ <reqwest::Client as Clone>::clone ](client: &reqwest::Client) -> reqwest::Client;

/// Calls `reqwest::Client::builder()`, sets the request timeout to `timeout_secs`
/// seconds and calls `build`, turning its error into `None`. Whether building succeeds
/// depends on the machine (TLS back end, system proxy settings), so nothing is claimed.
#[verifier::external_body]
pub(crate) fn build_http_client(timeout_secs: u64) -> Option<reqwest::Client> {
    reqwest::Client::builder().timeout(std::time::Duration::from_secs(timeout_secs)).build().ok()
}

/// Calls `chrono::Utc::now().to_rfc3339()`. The text depends on the clock, so nothing
/// is claimed of it.
#[verifier::external_body]
pub(crate) fn utc_now_rfc3339() -> String {
    chrono::Utc::now().to_rfc3339()
}

/// Calls `chrono::Utc::now().timestamp_millis()`. The reading depends on the clock, so
/// nothing is claimed of it.
#[verifier::external_body]
pub(crate) fn utc_now_millis() -> i64 {
    chrono::Utc::now().timestamp_millis()
}

} // verus!
