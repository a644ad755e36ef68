//! The side that sends requests.

use vstd::prelude::*;

use crate::common::SpdmContext;
use crate::error::SpdmResult;
use crate::message::SpdmRequestResponseCode;

pub mod get_capabilities_req;
pub mod key_update_exchange;
pub mod key_update_req;
pub mod mutual_authenticate;

verus! {

/// The side that sends requests.
#[derive(Debug)]
pub struct RequesterContext {
    pub common: SpdmContext,
}

/// What the handling of an error message needs besides its bytes: the session,
/// and which request and which answer it stands in for.
#[derive(Clone, Copy, Debug, PartialEq, Eq, Structural)]
pub struct ErrorResponseCall {
    pub session_id: Option<u32>,
    pub original_request: SpdmRequestResponseCode,
    pub expected_response: SpdmRequestResponseCode,
}

/// What an answer leads to.
#[derive(Clone, Copy, Debug, PartialEq, Eq)]
pub enum ResponseHandling {
    /// The exchange is over with this result.
    Done(SpdmResult),
    /// The answer is an error message. The exchange is over with the result of
    /// handling it.
    ErrorResponse(ErrorResponseCall),
}

} // verus!
