//! Asking for capabilities and handling the answer.

use vstd::prelude::*;

use crate::codec::{law_fitting_fields_fill_the_front, le32_value, written_over, Reader};
use crate::common::{ContextView, SpdmConfigInfo, SpdmConnectionState, SpdmNegotiateInfo};
use crate::error::{SpdmResult, SpdmStatus};
use crate::message::{
    capabilities_body_of, capabilities_length, capability_request, capability_request_body_of,
    capability_request_length, has_request_capabilities, has_transfer_sizes, header_of,
    law_capability_request_round_trip, message_bytes, message_fields,
    SpdmCapabilitiesResponsePayload, SpdmGetCapabilitiesRequestPayload, SpdmMessage,
    SpdmMessageHeader, SpdmMessagePayload, SpdmRequestResponseCode,
};
use crate::protocol::{SpdmRequestCapabilityExFlags, SpdmVersion};
use crate::requester::{ErrorResponseCall, RequesterContext, ResponseHandling};
use crate::spdm_trace::{
    emit_r2_event, no_r2_fields, r2_event_emitted, req_cap_flags, req_cap_names, rsp_cap_flags,
    rsp_cap_names, TraceR2Fields, TraceR2View, TraceRole, TraceRuntime, TraceRuntimeView,
};

verus! {

/// The request for capabilities that a side with this context sends: what its
/// configuration offers, without extended capabilities.
pub open spec fn own_capability_request(context: ContextView) -> SpdmMessage {
    capability_request(
        context.negotiated.spdm_version_sel,
        SpdmGetCapabilitiesRequestPayload {
            ct_exponent: context.config.req_ct_exponent,
            flags: context.config.req_capabilities,
            data_transfer_size: context.config.data_transfer_size,
            max_spdm_msg_size: context.config.max_spdm_msg_size,
            ex_flags: SpdmRequestCapabilityExFlags { bits: 0 },
        },
    )
}

/// The fields of the request for capabilities.
pub open spec fn own_request_fields(context: ContextView) -> Seq<Seq<u8>> {
    message_fields(own_capability_request(context), context.negotiated.spdm_version_sel)
}

/// How many bytes the request for capabilities takes.
pub open spec fn own_request_length(context: ContextView) -> nat {
    message_bytes(own_capability_request(context), context.negotiated.spdm_version_sel).len()
}

/// The trace after a request for capabilities was written.
pub open spec fn capability_request_traced<C>(
    trace: TraceRuntimeView<C>,
    context: ContextView,
) -> TraceRuntimeView<C> {
    r2_event_emitted(
        trace,
        TraceRole::Requester,
        "RequesterSendGetCapabilities",
        TraceR2View {
            req_caps: Some(req_cap_names(context.config.req_capabilities)),
            ..no_r2_fields()
        },
    )
}

/// A buffer after the request for capabilities was written to its front, and how many
/// bytes the request takes, where the buffer has room for it.
pub open spec fn capability_encoded(
    context: ContextView,
    buffer: Seq<u8>,
) -> (Seq<u8>, SpdmResult<usize>) {
    (
        written_over(buffer, own_request_fields(context)),
        if own_request_length(context) <= buffer.len() {
            Ok(own_request_length(context) as usize)
        } else {
            Err(SpdmStatus::BufferFull)
        },
    )
}

/// The context and the trace after a request for capabilities was written to a buffer
/// of this length. A request that has no room is not traced.
pub open spec fn capability_prepared<C>(
    context: ContextView,
    trace: TraceRuntimeView<C>,
    room: nat,
) -> (ContextView, TraceRuntimeView<C>) {
    (
        context.with_reset(SpdmRequestResponseCode::SpdmRequestGetCapabilities, None),
        if own_request_length(context) <= room {
            capability_request_traced(trace, context)
        } else {
            trace
        },
    )
}

/// What is agreed on after the capabilities of the responder are known. The
/// transfer sizes stay as they are where the version does not carry them.
pub open spec fn capabilities_negotiated(
    negotiated: SpdmNegotiateInfo,
    config: SpdmConfigInfo,
    capabilities: SpdmCapabilitiesResponsePayload,
) -> SpdmNegotiateInfo {
    let agreed = SpdmNegotiateInfo {
        req_ct_exponent_sel: config.req_ct_exponent,
        req_capabilities_sel: config.req_capabilities,
        rsp_ct_exponent_sel: capabilities.ct_exponent,
        rsp_capabilities_sel: capabilities.flags,
        ..negotiated
    };
    if has_transfer_sizes(negotiated.spdm_version_sel) {
        SpdmNegotiateInfo {
            req_data_transfer_size_sel: config.data_transfer_size,
            req_max_spdm_msg_size_sel: config.max_spdm_msg_size,
            rsp_data_transfer_size_sel: capabilities.data_transfer_size,
            rsp_max_spdm_msg_size_sel: capabilities.max_spdm_msg_size,
            ..agreed
        }
    } else {
        agreed
    }
}

/// All that an answer to a request for capabilities leads to.
#[verifier::ext_equal]
pub struct CapabilityOutcome<C> {
    pub context: ContextView,
    pub trace: TraceRuntimeView<C>,
    pub handling: ResponseHandling,
}

/// Whether a message has room in the transcript.
pub open spec fn transcript_has_room(context: ContextView, message: Seq<u8>) -> bool {
    context.message_a.len() + message.len() <= context.message_a_limit
}

/// The context with a message appended to the transcript.
pub open spec fn transcript_grown(context: ContextView, message: Seq<u8>) -> ContextView {
    ContextView { message_a: context.message_a + message, ..context }
}

/// The trace after the capabilities of both sides are known.
pub open spec fn capabilities_traced<C>(
    trace: TraceRuntimeView<C>,
    negotiated: SpdmNegotiateInfo,
) -> TraceRuntimeView<C> {
    r2_event_emitted(
        trace,
        TraceRole::Requester,
        "HandleSpdmCapabilitiesResponse",
        TraceR2View {
            req_connection_state: Some(SpdmConnectionState::SpdmConnectionAfterCapabilities),
            req_capabilities: Some(req_cap_names(negotiated.req_capabilities_sel)),
            rsp_capabilities: Some(rsp_cap_names(negotiated.rsp_capabilities_sel)),
            ..no_r2_fields()
        },
    )
}

/// All that the capabilities of the responder lead to: what is agreed on, then the
/// transcript of the request, then that of the answer without what follows it.
/// Where the transcript has no room, the steps before it stand.
pub open spec fn capabilities_accepted<C>(
    context: ContextView,
    trace: TraceRuntimeView<C>,
    capabilities: SpdmCapabilitiesResponsePayload,
    request: Seq<u8>,
    answer: Seq<u8>,
) -> CapabilityOutcome<C> {
    let agreed = ContextView {
        negotiated: capabilities_negotiated(context.negotiated, context.config, capabilities),
        ..context
    };
    let asked = transcript_grown(agreed, request);
    if !transcript_has_room(agreed, request) {
        CapabilityOutcome {
            context: agreed,
            trace,
            handling: ResponseHandling::Done(Err(SpdmStatus::BufferFull)),
        }
    } else if !transcript_has_room(asked, answer) {
        CapabilityOutcome {
            context: asked,
            trace,
            handling: ResponseHandling::Done(Err(SpdmStatus::BufferFull)),
        }
    } else {
        CapabilityOutcome {
            context: transcript_grown(asked, answer),
            trace: capabilities_traced(trace, agreed.negotiated),
            handling: ResponseHandling::Done(Ok(())),
        }
    }
}

/// All that an answer with these bytes leads to.
pub open spec fn capability_outcome<C>(
    context: ContextView,
    trace: TraceRuntimeView<C>,
    session_id: u32,
    request: Seq<u8>,
    bytes: Seq<u8>,
) -> CapabilityOutcome<C> {
    let version = context.negotiated.spdm_version_sel;
    match header_of(bytes) {
        Some(header) if header.version == version => match header.request_response_code {
            SpdmRequestResponseCode::SpdmResponseCapabilities => match capabilities_body_of(
                bytes,
                version,
            ) {
                Some(capabilities) => capabilities_accepted(
                    context,
                    trace,
                    capabilities,
                    request,
                    bytes.take(capabilities_length(version) as int),
                ),
                None => CapabilityOutcome {
                    context,
                    trace,
                    handling: ResponseHandling::Done(Err(SpdmStatus::InvalidMsgField)),
                },
            },
            SpdmRequestResponseCode::SpdmResponseError => CapabilityOutcome {
                context,
                trace,
                handling: ResponseHandling::ErrorResponse(
                    ErrorResponseCall {
                        session_id: Some(session_id),
                        original_request: SpdmRequestResponseCode::SpdmRequestGetCapabilities,
                        expected_response: SpdmRequestResponseCode::SpdmResponseCapabilities,
                    },
                ),
            },
            _ => CapabilityOutcome {
                context,
                trace,
                handling: ResponseHandling::Done(Err(SpdmStatus::ErrorPeer)),
            },
        },
        _ => CapabilityOutcome {
            context,
            trace,
            handling: ResponseHandling::Done(Err(SpdmStatus::InvalidMsgField)),
        },
    }
}

impl RequesterContext {
    /// Writes the request for capabilities to the front of a buffer.
    pub fn encode_spdm_capability(&mut self, buf: &mut [u8]) -> (used: SpdmResult<usize>)
        ensures
            *final(self) == *old(self),
            (final(buf)@, used) == capability_encoded(old(self).common@, old(buf)@),
    {
        let version = self.common.negotiate_info.spdm_version_sel;
        let request = SpdmMessage {
            header: SpdmMessageHeader {
                version,
                request_response_code: SpdmRequestResponseCode::SpdmRequestGetCapabilities,
            },
            payload: SpdmMessagePayload::SpdmGetCapabilitiesRequest(
                SpdmGetCapabilitiesRequestPayload {
                    ct_exponent: self.common.config_info.req_ct_exponent,
                    flags: self.common.config_info.req_capabilities,
                    data_transfer_size: self.common.config_info.data_transfer_size,
                    max_spdm_msg_size: self.common.config_info.max_spdm_msg_size,
                    ex_flags: SpdmRequestCapabilityExFlags { bits: 0 },
                },
            ),
        };
        request.encode_into(version, buf)
    }

    /// Resets the message buffers for a request for capabilities, writes it to
    /// the front of a buffer, and traces that it is about to be sent.
    pub fn prepare_spdm_capability<C: Copy>(
        &mut self,
        trace: &mut TraceRuntime<C>,
        send_buffer: &mut [u8],
    ) -> (used: SpdmResult<usize>)
        ensures
            (final(self).common@, final(trace)@) == capability_prepared(
                old(self).common@,
                old(trace)@,
                old(send_buffer)@.len(),
            ),
            (final(send_buffer)@, used) == capability_encoded(
                old(self).common@,
                old(send_buffer)@,
            ),
    {
        self.common.reset_buffer_via_request_code(
            SpdmRequestResponseCode::SpdmRequestGetCapabilities,
            None,
        );
        let used: usize = match self.encode_spdm_capability(send_buffer) {
            Ok(used) => used,
            Err(status) => {
                return Err(status);
            },
        };
        emit_r2_event(
            trace,
            TraceRole::Requester,
            "RequesterSendGetCapabilities",
            TraceR2Fields {
                req_caps: Some(req_cap_flags(self.common.config_info.req_capabilities)),
                ..TraceR2Fields::default()
            },
        );
        Ok(used)
    }

    /// Handles the answer to a request for capabilities.
    pub fn handle_spdm_capability_response<C: Copy>(
        &mut self,
        trace: &mut TraceRuntime<C>,
        session_id: u32,
        send_buffer: &[u8],
        receive_buffer: &[u8],
    ) -> (handling: ResponseHandling)
        ensures
            ({
                let outcome = capability_outcome(
                    old(self).common@,
                    old(trace)@,
                    session_id,
                    send_buffer@,
                    receive_buffer@,
                );
                &&& final(self).common@ == outcome.context
                &&& final(trace)@ == outcome.trace
                &&& handling == outcome.handling
            }),
    {
        let version = self.common.negotiate_info.spdm_version_sel;
        let mut reader = Reader::init(receive_buffer);
        let header = match SpdmMessageHeader::read(&mut reader) {
            Some(header) => header,
            None => {
                return ResponseHandling::Done(Err(SpdmStatus::InvalidMsgField));
            },
        };
        if header.version != version {
            return ResponseHandling::Done(Err(SpdmStatus::InvalidMsgField));
        }
        match header.request_response_code {
            SpdmRequestResponseCode::SpdmResponseCapabilities => {
                let capabilities = match SpdmCapabilitiesResponsePayload::spdm_read(
                    &mut reader,
                    version,
                ) {
                    Some(capabilities) => capabilities,
                    None => {
                        return ResponseHandling::Done(Err(SpdmStatus::InvalidMsgField));
                    },
                };
                let used: usize = reader.used();
                self.common.negotiate_info.req_ct_exponent_sel =
                    self.common.config_info.req_ct_exponent;
                self.common.negotiate_info.req_capabilities_sel =
                    self.common.config_info.req_capabilities;
                self.common.negotiate_info.rsp_ct_exponent_sel = capabilities.ct_exponent;
                self.common.negotiate_info.rsp_capabilities_sel = capabilities.flags;
                if version.at_least(SpdmVersion::SpdmVersion12) {
                    self.common.negotiate_info.req_data_transfer_size_sel =
                        self.common.config_info.data_transfer_size;
                    self.common.negotiate_info.req_max_spdm_msg_size_sel =
                        self.common.config_info.max_spdm_msg_size;
                    self.common.negotiate_info.rsp_data_transfer_size_sel =
                        capabilities.data_transfer_size;
                    self.common.negotiate_info.rsp_max_spdm_msg_size_sel =
                        capabilities.max_spdm_msg_size;
                }
                if let Err(status) = self.common.append_message_a(send_buffer) {
                    return ResponseHandling::Done(Err(status));
                }
                let answer = vstd::slice::slice_subrange(receive_buffer, 0, used);
                assert(answer@ =~= receive_buffer@.take(used as int));
                if let Err(status) = self.common.append_message_a(answer) {
                    return ResponseHandling::Done(Err(status));
                }
                emit_r2_event(
                    trace,
                    TraceRole::Requester,
                    "HandleSpdmCapabilitiesResponse",
                    TraceR2Fields {
                        req_connection_state: Some(
                            SpdmConnectionState::SpdmConnectionAfterCapabilities,
                        ),
                        req_capabilities: Some(
                            req_cap_flags(self.common.negotiate_info.req_capabilities_sel),
                        ),
                        rsp_capabilities: Some(
                            rsp_cap_flags(self.common.negotiate_info.rsp_capabilities_sel),
                        ),
                        ..TraceR2Fields::default()
                    },
                );
                ResponseHandling::Done(Ok(()))
            },
            SpdmRequestResponseCode::SpdmResponseError => ResponseHandling::ErrorResponse(
                ErrorResponseCall {
                    session_id: Some(session_id),
                    original_request: SpdmRequestResponseCode::SpdmRequestGetCapabilities,
                    expected_response: SpdmRequestResponseCode::SpdmResponseCapabilities,
                },
            ),
            _ => ResponseHandling::Done(Err(SpdmStatus::ErrorPeer)),
        }
    }
}

/// The request that is written to a buffer with room for it is read back from the
/// front of that buffer: with the version agreed on, the code of the request, and
/// what the configuration offers, as far as the version carries it. What follows in
/// the buffer stays as it was.
pub proof fn law_own_request_is_read_back(context: ContextView, buffer: Seq<u8>)
    requires
        own_request_length(context) <= buffer.len(),
    ensures
        ({
            let version = context.negotiated.spdm_version_sel;
            let length = own_request_length(context) as int;
            let after = written_over(buffer, own_request_fields(context));
            let sent = after.take(length);
            let carried = capability_request_body_of(sent, version);
            &&& length == capability_request_length(version)
            &&& header_of(sent) == Some(
                SpdmMessageHeader {
                    version,
                    request_response_code: SpdmRequestResponseCode::SpdmRequestGetCapabilities,
                },
            )
            &&& carried is Some
            &&& has_request_capabilities(version) ==> carried->0.ct_exponent
                == context.config.req_ct_exponent && carried->0.flags
                == context.config.req_capabilities
            &&& has_transfer_sizes(version) ==> carried->0.data_transfer_size
                == context.config.data_transfer_size && carried->0.max_spdm_msg_size
                == context.config.max_spdm_msg_size
            &&& after.skip(length) == buffer.skip(length)
        }),
{
    let version = context.negotiated.spdm_version_sel;
    let request = own_capability_request(context);
    law_fitting_fields_fill_the_front(buffer, own_request_fields(context));
    law_capability_request_round_trip(
        version,
        request.payload->SpdmGetCapabilitiesRequest_0,
    );
}

/// Capabilities that are taken over are in the transcript, behind all that was
/// there: the request as it was sent, and the answer as far as its version
/// defines it.
pub proof fn law_transcript_holds_request_and_answer<C>(
    context: ContextView,
    trace: TraceRuntimeView<C>,
    session_id: u32,
    request: Seq<u8>,
    bytes: Seq<u8>,
)
    requires
        capability_outcome(context, trace, session_id, request, bytes).handling
            == ResponseHandling::Done(Ok(())),
    ensures
        ({
            let outcome = capability_outcome(context, trace, session_id, request, bytes);
            let length = capabilities_length(context.negotiated.spdm_version_sel) as int;
            &&& outcome.context.message_a == context.message_a + request + bytes.take(length)
            &&& outcome.context.message_a.len() <= outcome.context.message_a_limit
        }),
{
}

/// What follows the fields of an answer has no effect.
pub proof fn law_trailing_bytes_have_no_effect<C>(
    context: ContextView,
    trace: TraceRuntimeView<C>,
    session_id: u32,
    request: Seq<u8>,
    bytes: Seq<u8>,
    more: Seq<u8>,
)
    requires
        bytes.len() >= capabilities_length(context.negotiated.spdm_version_sel),
    ensures
        capability_outcome(context, trace, session_id, request, bytes + more)
            == capability_outcome(context, trace, session_id, request, bytes),
{
    let version = context.negotiated.spdm_version_sel;
    let longer = bytes + more;
    let length = capabilities_length(version) as int;
    assert(longer.take(length) =~= bytes.take(length));
    assert(le32_value(longer.skip(8)) == le32_value(bytes.skip(8)));
    if has_transfer_sizes(version) {
        assert(le32_value(longer.skip(12)) == le32_value(bytes.skip(12)));
        assert(le32_value(longer.skip(16)) == le32_value(bytes.skip(16)));
    }
    assert(capabilities_body_of(longer, version) == capabilities_body_of(bytes, version));
}

/// No answer changes the version agreed on, the configuration or a session, and
/// one that holds no capabilities of that version changes nothing at all.
pub proof fn law_other_answers_change_nothing<C>(
    context: ContextView,
    trace: TraceRuntimeView<C>,
    session_id: u32,
    request: Seq<u8>,
    bytes: Seq<u8>,
)
    ensures
        ({
            let outcome = capability_outcome(context, trace, session_id, request, bytes);
            let version = context.negotiated.spdm_version_sel;
            let answers = header_of(bytes) matches Some(header) && header.version == version
                && header.request_response_code
                == SpdmRequestResponseCode::SpdmResponseCapabilities && capabilities_body_of(
                bytes,
                version,
            ) is Some;
            &&& outcome.context.negotiated.spdm_version_sel == version
            &&& outcome.context.config == context.config
            &&& outcome.context.sessions == context.sessions
            &&& !answers ==> outcome.context == context && outcome.trace == trace
                && outcome.handling != ResponseHandling::Done(Ok(()))
        }),
{
}

/// Where the version does not carry the transfer sizes, no answer changes those
/// agreed on; where it does, capabilities that are taken over bring both sizes of
/// both sides.
pub proof fn law_transfer_sizes_need_their_version(
    negotiated: SpdmNegotiateInfo,
    config: SpdmConfigInfo,
    capabilities: SpdmCapabilitiesResponsePayload,
)
    ensures
        ({
            let agreed = capabilities_negotiated(negotiated, config, capabilities);
            let sized = has_transfer_sizes(negotiated.spdm_version_sel);
            &&& agreed.req_data_transfer_size_sel == if sized {
                config.data_transfer_size
            } else {
                negotiated.req_data_transfer_size_sel
            }
            &&& agreed.req_max_spdm_msg_size_sel == if sized {
                config.max_spdm_msg_size
            } else {
                negotiated.req_max_spdm_msg_size_sel
            }
            &&& agreed.rsp_data_transfer_size_sel == if sized {
                capabilities.data_transfer_size
            } else {
                negotiated.rsp_data_transfer_size_sel
            }
            &&& agreed.rsp_max_spdm_msg_size_sel == if sized {
                capabilities.max_spdm_msg_size
            } else {
                negotiated.rsp_max_spdm_msg_size_sel
            }
        }),
{
}

} // verus!
