//! The fixed responses of the HTTP surface that do not come from a supply
//! request.
use vstd::prelude::*;
use crate::amount::{decimal_chars, to_string_native};

verus! {

/// Seconds after which the gateway gives up on a request.
pub const HTTP_TIMEOUT_SECS: u64 = 60;

/// Requests admitted per second.
pub const REQ_PER_SEC: u64 = 18446744073709551615;

pub struct ApplicationServer;

impl ApplicationServer {
    /// The answer to a route that does not exist.
    pub fn not_found() -> (r: (u16, String))
        ensures
            r.0 == 404,
            r.1@
                == "{\"errors\":{\"message\":[\"The requested resource does not exist on this server!\"]}}"@,
    {
        (
            404,
            String::from_str(
                "{\"errors\":{\"message\":[\"The requested resource does not exist on this server!\"]}}",
            ),
        )
    }

    /// The answer to a request that took longer than `timeout_secs`.
    pub fn request_timeout(timeout_secs: u64) -> (r: (u16, String))
        ensures
            r.0 == 408,
            r.1@ == "{\"error\":\"request took longer than the configured "@ + decimal_chars(
                timeout_secs as nat,
            ) + " second timeout\"}"@,
    {
        let secs = to_string_native(timeout_secs as u128);
        (
            408,
            String::from_str("{\"error\":\"request took longer than the configured ").concat(
                secs.as_str(),
            ).concat(" second timeout\"}"),
        )
    }
}

} // verus!
