//! The readiness probe: one blocking HTTP GET against the backend's
//! health endpoint, reframed as a boolean by the verified decision in
//! `supervisor`.

use vstd::prelude::*;
use crate::supervisor::{BackendProcess, ready_from_status};

verus! {

/// Relies on `reqwest::blocking::get` for one HTTP GET with the
/// client's default timeout, and on `http::StatusCode`, whose values
/// lie in 100..=999, for the response's status. A failed request (no
/// connection, timeout, bad URL) is `None`. Must not be called from
/// within an async runtime, where `reqwest::blocking` does not run.
#[verifier::external_body]
fn http_get_status(url: &str) -> (r: Option<u16>)
    ensures
        r matches Some(code) ==> 100 <= code <= 999,
{
    match reqwest::blocking::get(url) {
        Ok(response) => Some(response.status().as_u16()),
        Err(_) => None,
    }
}

impl BackendProcess {
    /// Probes the backend once: a GET to the health URL, `Ok(true)`
    /// when a response with a success status (2xx) arrived, `Ok(false)`
    /// for any other status and for any network failure. The error arm
    /// is never produced: every failure is a valid negative answer that
    /// the caller polls for.
    pub fn is_backend_ready(&self) -> (r: Result<bool, String>)
        ensures
            r is Ok,
    {
        let url = self.health_url();
        let status = http_get_status(url.as_str());
        let ready = ready_from_status(status);
        Ok(ready)
    }
}

} // verus!
