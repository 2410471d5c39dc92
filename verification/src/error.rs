//! Errors that the library's decisions can end in.
use vstd::prelude::*;

verus! {

/// An error answered to the caller: a request the service refuses, with the
/// reason.
#[derive(Debug)]
pub enum ServiceError {
    BadRequest(String),
}

impl ServiceError {
    /// Whether this is a refused request with exactly the message `msg`.
    pub open spec fn is_bad_request(self, msg: Seq<char>) -> bool {
        self matches ServiceError::BadRequest(m) && m@ == msg
    }

    /// The error for a wallet address that does not parse.
    pub fn invalid_wallet_address() -> (r: ServiceError)
        ensures
            r.is_bad_request("Invalid wallet address"@),
    {
        ServiceError::BadRequest("Invalid wallet address".to_owned())
    }

    /// The error for resolving an activity that does not exist.
    pub fn activity_not_found() -> (r: ServiceError)
        ensures
            r.is_bad_request("Activity not found"@),
    {
        ServiceError::BadRequest("Activity not found".to_owned())
    }
}

} // verus!
