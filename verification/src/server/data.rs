//! Response payloads of the status endpoint.

use vstd::prelude::*;

use crate::database::types::ServerStatus;

verus! {

/// The body the status endpoint answers with.
#[derive(Debug, Clone, PartialEq)]
pub struct ServerStatusResponse(pub ServerStatus);

impl From<ServerStatus> for ServerStatusResponse {
    fn from(value: ServerStatus) -> (r: ServerStatusResponse) {
        ServerStatusResponse(value)
    }
}

impl vstd::std_specs::convert::FromSpecImpl<ServerStatus> for ServerStatusResponse {
    open spec fn obeys_from_spec() -> bool {
        true
    }

    open spec fn from_spec(value: ServerStatus) -> ServerStatusResponse {
        ServerStatusResponse(value)
    }
}

/// What HTTP status code a response payload answers under.
pub trait ToResponseCode {
    /// The status code, as its numeric value.
    fn to_response_code(&self) -> u16;
}

impl ToResponseCode for ServerStatusResponse {
    /// A status response always answers OK.
    fn to_response_code(&self) -> (r: u16)
        ensures
            r == 200,
    {
        200
    }
}

impl ToResponseCode for () {
    /// The health check answers OK by answering at all.
    fn to_response_code(&self) -> (r: u16)
        ensures
            r == 200,
    {
        200
    }
}

} // verus!
