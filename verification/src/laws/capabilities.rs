//! Asking for capabilities and taking them over.

use vstd::prelude::*;

use crate::codec::{joined, law_fitting_fields_fill_the_front, le16, le32};
use crate::common::{ContextView, SpdmConnectionState, SpdmNegotiateInfo};
use crate::error::SpdmStatus;
use crate::laws::bytes::{law_numbers_are_little_endian, law_written_buffer_keeps_its_rest};
use crate::message::{code_byte, law_capability_request_bytes};
use crate::protocol::{version_byte, SpdmVersion};
use crate::requester::get_capabilities_req::{
    capability_encoded, capability_outcome, capability_prepared, own_capability_request,
    own_request_fields, own_request_length,
};
use crate::requester::ResponseHandling;
use crate::spdm_trace::{
    no_message, no_r2_fields, no_snapshot, req_cap_names, rsp_cap_names, TraceR2View,
    TraceRuntimeView,
};

verus! {

/// How many bytes of an answer its version defines.
pub open spec fn defined_length(version: SpdmVersion) -> int {
    if version_byte(version) >= 0x12 {
        20
    } else {
        12
    }
}

/// Whether the bytes hold an answer with capabilities of a version.
pub open spec fn holds_capabilities(version: SpdmVersion, bytes: Seq<u8>) -> bool {
    bytes.len() >= defined_length(version) && bytes[0] == version_byte(version) && bytes[1] == 0x61
}

/// What was agreed on before, with all that an answer with capabilities brings: the
/// capabilities and the exponent of the requester are those of its configuration, those
/// of the responder stand in the answer, and the four sizes come along from 1.2 on and
/// stay as they were before that. The version and the hash stay.
pub open spec fn agreed_on(
    before: ContextView,
    after: SpdmNegotiateInfo,
    bytes: Seq<u8>,
) -> bool {
    let sized = version_byte(before.negotiated.spdm_version_sel) >= 0x12;
    &&& after.rsp_capabilities_sel.bits == bytes[8] + 0x100 * bytes[9] + 0x1_0000 * bytes[10]
        + 0x100_0000 * bytes[11]
    &&& after.rsp_ct_exponent_sel == bytes[5]
    &&& after.req_capabilities_sel == before.config.req_capabilities
    &&& after.req_ct_exponent_sel == before.config.req_ct_exponent
    &&& sized ==> after.req_data_transfer_size_sel == before.config.data_transfer_size
        && after.req_max_spdm_msg_size_sel == before.config.max_spdm_msg_size
    &&& sized ==> after.rsp_data_transfer_size_sel == bytes[12] + 0x100 * bytes[13] + 0x1_0000
        * bytes[14] + 0x100_0000 * bytes[15]
    &&& sized ==> after.rsp_max_spdm_msg_size_sel == bytes[16] + 0x100 * bytes[17] + 0x1_0000
        * bytes[18] + 0x100_0000 * bytes[19]
    &&& !sized ==> after.req_data_transfer_size_sel
        == before.negotiated.req_data_transfer_size_sel && after.req_max_spdm_msg_size_sel
        == before.negotiated.req_max_spdm_msg_size_sel && after.rsp_data_transfer_size_sel
        == before.negotiated.rsp_data_transfer_size_sel && after.rsp_max_spdm_msg_size_sel
        == before.negotiated.rsp_max_spdm_msg_size_sel
    &&& after.spdm_version_sel == before.negotiated.spdm_version_sel
    &&& after.base_hash_sel == before.negotiated.base_hash_sel
}

/// An answer ends without an error only where it holds capabilities of the version
/// agreed on. Then the capabilities agreed on for the responder are exactly the 32 bits
/// that stand in the bytes 8 to 11 of the answer, the lowest first, and its exponent is
/// byte 5; those of the requester are the ones of its configuration. This is so in
/// every version.
pub proof fn law_agreed_capabilities_are_those_exchanged<C>(
    context: ContextView,
    trace: TraceRuntimeView<C>,
    session_id: u32,
    request: Seq<u8>,
    bytes: Seq<u8>,
)
    requires
        capability_outcome(context, trace, session_id, request, bytes).handling
            == ResponseHandling::Done(Ok(())),
    ensures
        ({
            let after = capability_outcome(
                context,
                trace,
                session_id,
                request,
                bytes,
            ).context.negotiated;
            &&& holds_capabilities(context.negotiated.spdm_version_sel, bytes)
            &&& after.rsp_capabilities_sel.bits == bytes[8] + 0x100 * bytes[9] + 0x1_0000
                * bytes[10] + 0x100_0000 * bytes[11]
            &&& after.rsp_ct_exponent_sel == bytes[5]
            &&& after.req_capabilities_sel == context.config.req_capabilities
            &&& after.req_ct_exponent_sel == context.config.req_ct_exponent
        }),
{
}

/// An answer with capabilities is taken over as far as the transcript has room: all is
/// agreed on in any case; the request is appended where it has room; then the answer,
/// as far as its version defines it; and only where both have room does it end without
/// an error. All else in the context stays as it is.
pub proof fn law_capabilities_are_taken_over<C>(
    context: ContextView,
    trace: TraceRuntimeView<C>,
    session_id: u32,
    request: Seq<u8>,
    bytes: Seq<u8>,
)
    requires
        holds_capabilities(context.negotiated.spdm_version_sel, bytes),
    ensures
        ({
            let outcome = capability_outcome(context, trace, session_id, request, bytes);
            let after = outcome.context;
            let length = defined_length(context.negotiated.spdm_version_sel);
            let first = context.message_a.len() + request.len() <= context.message_a_limit;
            let both = context.message_a.len() + request.len() + length <= context.message_a_limit;
            &&& agreed_on(context, after.negotiated, bytes)
            &&& after == (ContextView {
                negotiated: after.negotiated,
                message_a: after.message_a,
                ..context
            })
            &&& !first ==> after.message_a == context.message_a
            &&& first && !both ==> after.message_a == context.message_a + request
            &&& both ==> after.message_a == context.message_a + request + bytes.take(length)
            &&& both ==> outcome.handling == ResponseHandling::Done(Ok(()))
            &&& !both ==> outcome.handling == ResponseHandling::Done(Err(SpdmStatus::BufferFull))
            &&& !both ==> outcome.trace == trace
        }),
{
}

/// An answer that holds no capabilities of the version agreed on changes nothing. One
/// that does not start with that version, or ends too early, has an invalid field; an
/// error message is handed on for this session, as an answer to a request for
/// capabilities; anything else comes from a peer in error.
pub proof fn law_other_answers_are_told_apart<C>(
    context: ContextView,
    trace: TraceRuntimeView<C>,
    session_id: u32,
    request: Seq<u8>,
    bytes: Seq<u8>,
)
    requires
        !holds_capabilities(context.negotiated.spdm_version_sel, bytes),
    ensures
        ({
            let outcome = capability_outcome(context, trace, session_id, request, bytes);
            let headed = bytes.len() >= 2 && bytes[0] == version_byte(
                context.negotiated.spdm_version_sel,
            );
            &&& outcome.context == context
            &&& outcome.trace == trace
            &&& !headed || bytes[1] == 0x61 ==> outcome.handling == ResponseHandling::Done(
                Err(SpdmStatus::InvalidMsgField),
            )
            &&& headed && bytes[1] == 0x7f ==> outcome.handling is ErrorResponse && {
                let call = outcome.handling->ErrorResponse_0;
                &&& call.session_id == Some(session_id)
                &&& code_byte(call.original_request) == 0xe1
                &&& code_byte(call.expected_response) == 0x61
                &&& !(call.original_request is Unknown) && !(call.expected_response is Unknown)
            }
            &&& headed && bytes[1] != 0x61 && bytes[1] != 0x7f ==> outcome.handling
                == ResponseHandling::Done(Err(SpdmStatus::ErrorPeer))
        }),
{
}

/// Capabilities that are taken over are traced by one event: it says that the requester
/// knows the capabilities now, and names those of both sides, as agreed on.
pub proof fn law_capabilities_are_traced<C>(
    context: ContextView,
    trace: TraceRuntimeView<C>,
    session_id: u32,
    request: Seq<u8>,
    bytes: Seq<u8>,
)
    requires
        capability_outcome(context, trace, session_id, request, bytes).handling
            == ResponseHandling::Done(Ok(())),
    ensures
        ({
            let outcome = capability_outcome(context, trace, session_id, request, bytes);
            let after = outcome.trace;
            let delivery = after.pending.last();
            let event = delivery.event;
            &&& after == (TraceRuntimeView { pending: after.pending, ..trace })
            &&& trace.callback is None ==> after.pending == trace.pending
            &&& trace.callback is Some ==> {
                &&& after.pending.len() == trace.pending.len() + 1
                &&& after.pending.drop_last() == trace.pending
                &&& trace.callback == Some(delivery.callback) && !delivery.follows
                &&& event.name == "HandleSpdmCapabilitiesResponse" && event.nid == "requester"
                &&& event.state == no_snapshot() && event.msg == no_message()
                &&& event.r2 is Some
                &&& event.r2->0.req_connection_state == Some(
                    SpdmConnectionState::SpdmConnectionAfterCapabilities,
                )
                &&& event.r2->0.req_capabilities == Some(
                    req_cap_names(context.config.req_capabilities),
                )
                &&& event.r2->0.rsp_capabilities == Some(
                    rsp_cap_names(outcome.context.negotiated.rsp_capabilities_sel),
                )
                &&& event.r2->0 == (TraceR2View {
                    req_connection_state: event.r2->0.req_connection_state,
                    req_capabilities: event.r2->0.req_capabilities,
                    rsp_capabilities: event.r2->0.rsp_capabilities,
                    ..no_r2_fields()
                })
            }
        }),
{
    let outcome = capability_outcome(context, trace, session_id, request, bytes);
    if trace.callback is Some {
        assert(outcome.trace.pending.drop_last() =~= trace.pending);
    }
}

/// How many bytes a request for capabilities of a version has.
pub open spec fn offer_length(version: SpdmVersion) -> nat {
    if version_byte(version) >= 0x12 {
        20
    } else if version_byte(version) >= 0x11 {
        12
    } else {
        4
    }
}

/// A request for capabilities says byte by byte what the configuration offers: the
/// version agreed on and the code 0xe1; from 1.1 on the exponent and the flags, and no
/// extended flags; from 1.2 on both sizes. All other bytes are zero.
pub proof fn law_offer_is_the_configuration(context: ContextView)
    ensures
        ({
            let version = context.negotiated.spdm_version_sel;
            let bytes = joined(own_request_fields(context));
            let flags = context.config.req_capabilities.bits;
            let size = context.config.data_transfer_size;
            let most = context.config.max_spdm_msg_size;
            &&& bytes.len() == offer_length(version)
            &&& own_request_length(context) == offer_length(version)
            &&& bytes[0] == version_byte(version) && bytes[1] == 0xe1
            &&& bytes[2] == 0 && bytes[3] == 0
            &&& version_byte(version) >= 0x11 ==> {
                &&& bytes[4] == 0 && bytes[5] == context.config.req_ct_exponent
                &&& bytes[6] == 0 && bytes[7] == 0
                &&& flags == bytes[8] + 0x100 * bytes[9] + 0x1_0000 * bytes[10] + 0x100_0000
                    * bytes[11]
            }
            &&& version_byte(version) >= 0x12 ==> {
                &&& size == bytes[12] + 0x100 * bytes[13] + 0x1_0000 * bytes[14] + 0x100_0000
                    * bytes[15]
                &&& most == bytes[16] + 0x100 * bytes[17] + 0x1_0000 * bytes[18] + 0x100_0000
                    * bytes[19]
            }
        }),
{
    let version = context.negotiated.spdm_version_sel;
    let payload = own_capability_request(context).payload->SpdmGetCapabilitiesRequest_0;
    let bytes = joined(own_request_fields(context));
    let flags = le32(context.config.req_capabilities.bits);
    let size = le32(context.config.data_transfer_size);
    let most = le32(context.config.max_spdm_msg_size);
    let extended = le16(0u16);
    let front = seq![version_byte(version), 0xe1u8, 0u8, 0u8];
    let start = seq![0u8, context.config.req_ct_exponent];
    law_capability_request_bytes(version, payload);
    law_numbers_are_little_endian(0, context.config.req_capabilities.bits);
    law_numbers_are_little_endian(0, context.config.data_transfer_size);
    law_numbers_are_little_endian(0, context.config.max_spdm_msg_size);
    lemma_offer_by_index(bytes, front, start, extended, flags, size, most);
}

proof fn lemma_offer_by_index(
    bytes: Seq<u8>,
    front: Seq<u8>,
    start: Seq<u8>,
    extended: Seq<u8>,
    flags: Seq<u8>,
    size: Seq<u8>,
    most: Seq<u8>,
)
    requires
        front.len() == 4,
        start.len() == 2,
        extended.len() == 2,
        flags.len() == 4,
        size.len() == 4,
        most.len() == 4,
        bytes == front || bytes == front + (start + extended + flags) || bytes == front + (start
            + extended + flags) + (size + most),
    ensures
        bytes.take(4) == front,
        bytes.len() > 4 ==> {
            &&& bytes[4] == start[0] && bytes[5] == start[1]
            &&& bytes[6] == extended[0] && bytes[7] == extended[1]
            &&& bytes[8] == flags[0] && bytes[9] == flags[1]
            &&& bytes[10] == flags[2] && bytes[11] == flags[3]
        },
        bytes.len() > 12 ==> {
            &&& bytes[12] == size[0] && bytes[13] == size[1]
            &&& bytes[14] == size[2] && bytes[15] == size[3]
            &&& bytes[16] == most[0] && bytes[17] == most[1]
            &&& bytes[18] == most[2] && bytes[19] == most[3]
        },
        forall|i: int| 0 <= i < 4 ==> bytes[i] == #[trigger] front[i],
{
    assert(bytes.take(4) =~= front);
}

/// The request is written to the front of a buffer with room for it, and its length is
/// given back; what follows it stays. Without room there is an error.
pub proof fn law_offer_is_written_to_the_front(context: ContextView, buffer: Seq<u8>)
    requires
        buffer.len() <= usize::MAX,
    ensures
        ({
            let length = offer_length(context.negotiated.spdm_version_sel);
            let (after, used) = capability_encoded(context, buffer);
            &&& after.len() == buffer.len()
            &&& buffer.len() >= length ==> used is Ok && used->Ok_0 == length && after.take(
                length as int,
            ) == joined(own_request_fields(context)) && after.skip(length as int) == buffer.skip(
                length as int,
            )
            &&& buffer.len() < length ==> used == Err::<usize, SpdmStatus>(SpdmStatus::BufferFull)
        }),
{
    law_offer_is_the_configuration(context);
    let fields = own_request_fields(context);
    law_written_buffer_keeps_its_rest(buffer, fields);
    if buffer.len() >= joined(fields).len() {
        law_fitting_fields_fill_the_front(buffer, fields);
    }
}

/// Preparing the request queues one reset for requests for capabilities, outside any
/// session. It is traced by one event with the names of the capabilities on offer, where
/// the request has room, and by none where it has not.
pub proof fn law_offer_is_reset_and_traced<C>(
    context: ContextView,
    trace: TraceRuntimeView<C>,
    room: nat,
)
    ensures
        ({
            let (prepared, after) = capability_prepared(context, trace, room);
            let fits = offer_length(context.negotiated.spdm_version_sel) <= room;
            let delivery = after.pending.last();
            let event = delivery.event;
            &&& prepared == (ContextView { resets: prepared.resets, ..context })
            &&& prepared.resets.len() == context.resets.len() + 1
            &&& prepared.resets.drop_last() == context.resets
            &&& prepared.resets.last().session_id is None
            &&& prepared.resets.last().request_code is SpdmRequestGetCapabilities
            &&& after == (TraceRuntimeView { pending: after.pending, ..trace })
            &&& !fits || trace.callback is None ==> after.pending == trace.pending
            &&& fits && trace.callback is Some ==> {
                &&& after.pending.len() == trace.pending.len() + 1
                &&& after.pending.drop_last() == trace.pending
                &&& trace.callback == Some(delivery.callback) && !delivery.follows
                &&& event.name == "RequesterSendGetCapabilities" && event.nid == "requester"
                &&& event.state == no_snapshot() && event.msg == no_message()
                &&& event.r2 is Some
                &&& event.r2->0.req_caps == Some(req_cap_names(context.config.req_capabilities))
                &&& event.r2->0 == (TraceR2View {
                    req_caps: event.r2->0.req_caps,
                    ..no_r2_fields()
                })
            }
        }),
{
    law_offer_is_the_configuration(context);
    let (prepared, after) = capability_prepared(context, trace, room);
    assert(prepared.resets.drop_last() =~= context.resets);
    if own_request_length(context) <= room && trace.callback is Some {
        assert(after.pending.drop_last() =~= trace.pending);
    }
}

} // verus!
