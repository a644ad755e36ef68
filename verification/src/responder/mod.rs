//! The side that answers requests.

use vstd::prelude::*;

use crate::codec::{put_fields, Writer, WriterView};
use crate::common::SpdmContext;
use crate::message::{
    error_response, message_fields, SpdmErrorCode, SpdmErrorResponsePayload, SpdmMessage,
    SpdmMessageHeader, SpdmMessagePayload, SpdmRequestResponseCode,
};
use crate::protocol::SpdmVersion;

pub mod key_update_rsp;

verus! {

/// The side that answers requests.
#[derive(Debug)]
pub struct ResponderContext {
    pub common: SpdmContext,
}

/// The writer after a message that refuses a request, as far as it has room.
pub open spec fn error_written(
    writer: WriterView,
    version: SpdmVersion,
    error_code: SpdmErrorCode,
    error_data: u8,
) -> WriterView {
    put_fields(writer, message_fields(error_response(version, error_code, error_data), version))
}

impl ResponderContext {
    /// Writes a message that refuses a request, as far as it has room.
    pub fn write_spdm_error(
        &self,
        error_code: SpdmErrorCode,
        error_data: u8,
        writer: &mut Writer,
    )
        requires
            old(writer)@.wf(),
        ensures
            final(writer)@ == error_written(
                old(writer)@,
                self.common@.negotiated.spdm_version_sel,
                error_code,
                error_data,
            ),
            final(writer)@.wf(),
    {
        let version = self.common.negotiate_info.spdm_version_sel;
        let error = SpdmMessage {
            header: SpdmMessageHeader {
                version,
                request_response_code: SpdmRequestResponseCode::SpdmResponseError,
            },
            payload: SpdmMessagePayload::SpdmErrorResponse(
                SpdmErrorResponsePayload { error_code, error_data },
            ),
        };
        let _ = error.spdm_encode(version, writer);
    }
}

} // verus!
