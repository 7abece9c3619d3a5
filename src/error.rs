//! Errors that a supply request can end in, and how each is reported.
use vstd::prelude::*;

verus! {

#[derive(Clone, Copy, Debug, PartialEq, Eq, Structural)]
pub enum ApiError {
    /// The chain endpoint failed, timed out or answered with malformed data.
    UpstreamUnavailable,
    /// The non-circulating balances exceed the effective supply: the
    /// upstream data contradict each other.
    InvariantViolation,
}

impl ApiError {
    pub open spec fn status_code_spec(self) -> u16 {
        match self {
            ApiError::UpstreamUnavailable => 504,
            ApiError::InvariantViolation => 500,
        }
    }

    pub open spec fn message_spec(self) -> Seq<char> {
        match self {
            ApiError::UpstreamUnavailable => "Couldn't query rpc"@,
            ApiError::InvariantViolation => "Inconsistent supply data"@,
        }
    }

    /// The HTTP status of the response: 504 for a transient upstream
    /// failure, 500 for inconsistent upstream data.
    pub fn status_code(&self) -> (r: u16)
        ensures
            r == self.status_code_spec(),
    {
        match self {
            ApiError::UpstreamUnavailable => 504,
            ApiError::InvariantViolation => 500,
        }
    }

    pub fn message(&self) -> (r: &'static str)
        ensures
            r@ == self.message_spec(),
    {
        match self {
            ApiError::UpstreamUnavailable => "Couldn't query rpc",
            ApiError::InvariantViolation => "Inconsistent supply data",
        }
    }

    /// The JSON body of the response: `{"error":"<message>"}`.
    pub fn body(&self) -> (r: String)
        ensures
            r@ == "{\"error\":\""@ + self.message_spec() + "\"}"@,
    {
        String::from_str("{\"error\":\"").concat(self.message()).concat("\"}")
    }
}

} // verus!
