//! Asking for a key update and handling the answer.

use vstd::prelude::*;

use crate::codec::{written_over, Reader};
use crate::common::{law_replacing_keeps_slots, law_slot_is_the_first, ContextView};
use crate::error::{SpdmResult, SpdmStatus};
use crate::message::{
    header_of, key_update_body_of, key_update_request, law_key_update_request_bytes,
    message_fields, SpdmKeyUpdateOperation, SpdmKeyUpdateRequestPayload,
    SpdmKeyUpdateResponsePayload, SpdmMessage, SpdmMessageHeader, SpdmMessagePayload,
    SpdmRequestResponseCode,
};
use crate::protocol::SpdmVersion;
use crate::requester::{ErrorResponseCall, RequesterContext, ResponseHandling};
use crate::responder::key_update_rsp::buffers_reset;
use crate::session::{
    backups_present, derivation_succeeds, law_going_back_restores_secrets, secrets_created,
    secrets_settled, DerivedSecrets, DerivedView,
};
use crate::spdm_trace::{
    ack_can_count, backup_marks, can_count_ack, emit_following_r2_event, emit_key_event,
    emit_local_event, gens_after_ack, key_event_emitted, key_update_op_name, local_event_emitted,
    no_message, no_r2_fields, note_key_update_ack, note_key_update_rollback, operation_text,
    r2_event_followed, session_backup_marks, trace_operation, traced_operation, TraceErrorKind,
    TraceMessage, TraceR2Fields, TraceR2View, TraceRole, TraceRuntime, TraceRuntimeView,
};

verus! {

/// Whether an operation moves the request direction on.
pub open spec fn updates_requester(operation: SpdmKeyUpdateOperation) -> bool {
    operation is SpdmUpdateSingleKey || operation is SpdmUpdateAllKeys
}

/// Whether an operation moves the response direction on.
pub open spec fn updates_responder(operation: SpdmKeyUpdateOperation) -> bool {
    operation is SpdmUpdateAllKeys
}

/// The directions that an operation moves on: requests, then responses.
pub fn key_update_directions(operation: SpdmKeyUpdateOperation) -> (directions: (bool, bool))
    ensures
        directions == (updates_requester(operation), updates_responder(operation)),
{
    match operation {
        SpdmKeyUpdateOperation::SpdmUpdateSingleKey => (true, false),
        SpdmKeyUpdateOperation::SpdmUpdateAllKeys => (true, true),
        _ => (false, false),
    }
}

/// The request for a key update.
fn key_update_message(
    version: SpdmVersion,
    key_update_operation: SpdmKeyUpdateOperation,
    tag: u8,
) -> (request: SpdmMessage)
    ensures
        request == key_update_request(version, key_update_operation, tag),
{
    SpdmMessage {
        header: SpdmMessageHeader {
            version,
            request_response_code: SpdmRequestResponseCode::SpdmRequestKeyUpdate,
        },
        payload: SpdmMessagePayload::SpdmKeyUpdateRequest(
            SpdmKeyUpdateRequestPayload { key_update_operation, tag },
        ),
    }
}

/// A buffer after the request for a key update was written to its front, and how
/// many bytes the request takes, where the buffer has room for it.
pub open spec fn key_update_encoded(
    context: ContextView,
    operation: SpdmKeyUpdateOperation,
    tag: u8,
    buffer: Seq<u8>,
) -> (Seq<u8>, SpdmResult<usize>) {
    let version = context.negotiated.spdm_version_sel;
    (
        written_over(buffer, message_fields(key_update_request(version, operation, tag), version)),
        if buffer.len() >= 4 {
            Ok(4)
        } else {
            Err(SpdmStatus::BufferFull)
        },
    )
}

/// The trace after a request was sent.
pub open spec fn request_traced<C>(
    trace: TraceRuntimeView<C>,
    context: ContextView,
    session_id: u32,
    operation: SpdmKeyUpdateOperation,
) -> TraceRuntimeView<C> {
    r2_event_followed(
        local_event_emitted(
            trace,
            TraceRole::Requester,
            context,
            Some(session_id),
            "SendKeyUpdate",
            TraceMessage { op: Some(traced_operation(operation)), ..no_message() },
        ),
        TraceRole::Requester,
        "RequesterSendKeyUpdate",
        TraceR2View {
            session_id: Some(session_id),
            op: Some(operation_text(traced_operation(operation))),
            ..no_r2_fields()
        },
    )
}

/// All that an answer to a key update leads to.
#[verifier::ext_equal]
pub struct KeyUpdateResponseOutcome<C> {
    pub context: ContextView,
    pub trace: TraceRuntimeView<C>,
    pub handling: ResponseHandling,
}

/// The exchange is over with an error, and nothing changed.
pub open spec fn failed<C>(
    context: ContextView,
    trace: TraceRuntimeView<C>,
    status: SpdmStatus,
) -> KeyUpdateResponseOutcome<C> {
    KeyUpdateResponseOutcome { context, trace, handling: ResponseHandling::Done(Err(status)) }
}

/// The context with the secrets of a session settled.
pub open spec fn session_settled(
    context: ContextView,
    session_id: u32,
    update_requester: bool,
    update_responder: bool,
    use_new_key: bool,
) -> ContextView {
    context.with_session(
        session_id,
        secrets_settled(
            context.find(session_id)->0,
            update_requester,
            update_responder,
            use_new_key,
        ),
    )
}

/// The trace after an acknowledgement was handled.
pub open spec fn ack_traced<C>(
    trace: TraceRuntimeView<C>,
    context: ContextView,
    session_id: u32,
    operation: SpdmKeyUpdateOperation,
) -> TraceRuntimeView<C> {
    let op = traced_operation(operation);
    let noted = TraceRuntimeView { key_gens: gens_after_ack(trace.key_gens, op), ..trace };
    r2_event_followed(
        key_event_emitted(
            noted,
            TraceRole::Requester,
            context,
            session_id,
            "RequesterHandleKeyUpdateAck",
            TraceMessage { op: Some(op), ..no_message() },
        ),
        TraceRole::Requester,
        "HandleSpdmKeyUpdateResponse",
        TraceR2View {
            session_id: Some(session_id),
            req_backup_valid: Some(backup_marks(context, Some(session_id)).0),
            rsp_backup_valid: Some(backup_marks(context, Some(session_id)).1),
            ..no_r2_fields()
        },
    )
}

/// The trace after the former secrets came back.
pub open spec fn rollback_traced<C>(
    trace: TraceRuntimeView<C>,
    context: ContextView,
    session_id: u32,
    error: TraceErrorKind,
) -> TraceRuntimeView<C> {
    key_event_emitted(
        trace,
        TraceRole::Requester,
        context,
        session_id,
        "HandleSpdmKeyUpdateOpResponse",
        TraceMessage { error: Some(error), ..no_message() },
    )
}

/// All that the former secrets coming back leads to, where there is a backup
/// for them; without one nothing changes.
pub open spec fn rolled_back<C>(
    context: ContextView,
    trace: TraceRuntimeView<C>,
    session_id: u32,
    update_requester: bool,
    update_responder: bool,
    error: TraceErrorKind,
    handling: ResponseHandling,
) -> KeyUpdateResponseOutcome<C> {
    if backups_present(context.find(session_id)->0, update_requester, update_responder) {
        let after = session_settled(
            context,
            session_id,
            update_requester,
            update_responder,
            false,
        );
        KeyUpdateResponseOutcome {
            context: after,
            trace: rollback_traced(trace, after, session_id, error),
            handling,
        }
    } else {
        failed(context, trace, SpdmStatus::InvalidStateLocal)
    }
}

/// How an error message in place of an acknowledgement is handled.
pub open spec fn key_update_error_call(session_id: u32) -> ErrorResponseCall {
    ErrorResponseCall {
        session_id: Some(session_id),
        original_request: SpdmRequestResponseCode::SpdmRequestKeyUpdate,
        expected_response: SpdmRequestResponseCode::SpdmResponseKeyUpdateAck,
    }
}

/// All that an answer with these bytes leads to. An acknowledgement settles the
/// new secrets; one without a body, and an error message, bring the former ones
/// back.
pub open spec fn key_update_response_outcome<C>(
    context: ContextView,
    trace: TraceRuntimeView<C>,
    session_id: u32,
    update_requester: bool,
    update_responder: bool,
    bytes: Seq<u8>,
) -> KeyUpdateResponseOutcome<C> {
    match header_of(bytes) {
        None => failed(context, trace, SpdmStatus::InvalidMsgField),
        Some(header) => if header.version != context.negotiated.spdm_version_sel {
            failed(context, trace, SpdmStatus::InvalidMsgField)
        } else {
            match header.request_response_code {
                SpdmRequestResponseCode::SpdmResponseKeyUpdateAck => if context.find(
                    session_id,
                ) is None {
                    failed(context, trace, SpdmStatus::InvalidParameter)
                } else {
                    match key_update_body_of(bytes) {
                        Some((operation, _)) => {
                            let after = session_settled(
                                context,
                                session_id,
                                update_requester,
                                update_responder,
                                true,
                            );
                            KeyUpdateResponseOutcome {
                                context: after,
                                trace: ack_traced(trace, after, session_id, operation),
                                handling: ResponseHandling::Done(Ok(())),
                            }
                        },
                        None => rolled_back(
                            context,
                            trace,
                            session_id,
                            update_requester,
                            update_responder,
                            TraceErrorKind::Invalid,
                            ResponseHandling::Done(Err(SpdmStatus::InvalidMsgField)),
                        ),
                    }
                },
                SpdmRequestResponseCode::SpdmResponseError => if context.find(session_id) is None {
                    failed(context, trace, SpdmStatus::InvalidParameter)
                } else {
                    rolled_back(
                        context,
                        trace,
                        session_id,
                        update_requester,
                        update_responder,
                        TraceErrorKind::Unexpected,
                        ResponseHandling::ErrorResponse(key_update_error_call(session_id)),
                    )
                },
                _ => failed(context, trace, SpdmStatus::ErrorPeer),
            }
        },
    }
}

/// Whether an answer acknowledges a key update of a session that is there.
pub open spec fn acknowledges(context: ContextView, session_id: u32, bytes: Seq<u8>) -> bool {
    &&& header_of(bytes) matches Some(header) && header.version
        == context.negotiated.spdm_version_sel && header.request_response_code
        == SpdmRequestResponseCode::SpdmResponseKeyUpdateAck
    &&& key_update_body_of(bytes) is Some
    &&& context.find(session_id) is Some
}

/// Whether the trace can count the update that this answer acknowledges.
pub open spec fn key_update_ack_can_count<C>(
    context: ContextView,
    trace: TraceRuntimeView<C>,
    session_id: u32,
    bytes: Seq<u8>,
) -> bool {
    acknowledges(context, session_id, bytes) ==> ack_can_count(
        trace.key_gens,
        traced_operation((key_update_body_of(bytes)->0).0),
    )
}

/// The context after new secrets were created in a session, if it is there.
pub open spec fn session_secrets_created(
    context: ContextView,
    session_id: u32,
    update_requester: bool,
    update_responder: bool,
    derived: DerivedView,
) -> ContextView {
    match context.find(session_id) {
        Some(session) => context.with_session(
            session_id,
            secrets_created(session, update_requester, update_responder, derived),
        ),
        None => context,
    }
}

/// The directions that the answer to a key update will settle: requests, then
/// responses. There are none without the session or without its new secrets.
pub open spec fn expected_directions(
    context: ContextView,
    session_id: u32,
    operation: SpdmKeyUpdateOperation,
    derived: DerivedView,
) -> SpdmResult<(bool, bool)> {
    let update_requester = updates_requester(operation);
    let update_responder = updates_responder(operation);
    if context.find(session_id) is None {
        Err(SpdmStatus::InvalidParameter)
    } else if !derivation_succeeds(update_requester, update_responder, derived) {
        Err(SpdmStatus::CryptoError)
    } else {
        Ok((update_requester, update_responder))
    }
}

impl RequesterContext {
    /// Writes the request for a key update to the front of a buffer.
    pub fn encode_spdm_key_update_op(
        &mut self,
        key_update_operation: SpdmKeyUpdateOperation,
        tag: u8,
        buf: &mut [u8],
    ) -> (used: SpdmResult<usize>)
        ensures
            *final(self) == *old(self),
            (final(buf)@, used) == key_update_encoded(
                old(self).common@,
                key_update_operation,
                tag,
                old(buf)@,
            ),
    {
        let version = self.common.negotiate_info.spdm_version_sel;
        let request = key_update_message(version, key_update_operation, tag);
        proof {
            law_key_update_request_bytes(version, key_update_operation, tag);
        }
        request.encode_into(version, buf)
    }

    /// Resets the message buffers for a key update and writes the request to the
    /// front of a buffer.
    pub fn prepare_spdm_key_update(
        &mut self,
        session_id: u32,
        key_update_operation: SpdmKeyUpdateOperation,
        tag: u8,
        send_buffer: &mut [u8],
    ) -> (used: SpdmResult<usize>)
        ensures
            final(self).common@ == buffers_reset(old(self).common@, session_id),
            (final(send_buffer)@, used) == key_update_encoded(
                old(self).common@,
                key_update_operation,
                tag,
                old(send_buffer)@,
            ),
    {
        self.common.reset_buffer_via_request_code(
            SpdmRequestResponseCode::SpdmRequestKeyUpdate,
            Some(session_id),
        );
        self.encode_spdm_key_update_op(key_update_operation, tag, send_buffer)
    }

    /// Traces that a request for a key update was sent.
    pub fn record_spdm_key_update_sent<C: Copy>(
        &self,
        trace: &mut TraceRuntime<C>,
        session_id: u32,
        key_update_operation: SpdmKeyUpdateOperation,
    )
        ensures
            final(trace)@ == request_traced(
                old(trace)@,
                self.common@,
                session_id,
                key_update_operation,
            ),
    {
        let op = trace_operation(key_update_operation);
        emit_local_event(
            trace,
            TraceRole::Requester,
            &self.common,
            Some(session_id),
            "SendKeyUpdate",
            TraceMessage { op: Some(op), ..TraceMessage::default() },
        );
        emit_following_r2_event(
            trace,
            TraceRole::Requester,
            "RequesterSendKeyUpdate",
            TraceR2Fields {
                session_id: Some(session_id),
                op: Some(key_update_op_name(op)),
                ..TraceR2Fields::default()
            },
        );
    }

    /// Creates the secrets that the answer to a key update will settle, and says
    /// which directions they are for: requests, then responses.
    pub fn expect_spdm_key_update(
        &mut self,
        session_id: u32,
        key_update_operation: SpdmKeyUpdateOperation,
        derived: DerivedSecrets,
    ) -> (directions: SpdmResult<(bool, bool)>)
        ensures
            final(self).common@ == session_secrets_created(
                old(self).common@,
                session_id,
                updates_requester(key_update_operation),
                updates_responder(key_update_operation),
                derived@,
            ),
            directions == expected_directions(
                old(self).common@,
                session_id,
                key_update_operation,
                derived@,
            ),
    {
        let (update_requester, update_responder) = key_update_directions(key_update_operation);
        match self.common.session_slot(session_id) {
            Some(slot) => match self.common.create_secrets_at(
                slot,
                update_requester,
                update_responder,
                derived,
            ) {
                Ok(_) => Ok((update_requester, update_responder)),
                Err(status) => Err(status),
            },
            None => Err(SpdmStatus::InvalidParameter),
        }
    }

    /// Whether the trace can count the update that this answer acknowledges.
    pub fn can_count_key_update_ack<C>(
        &self,
        trace: &TraceRuntime<C>,
        session_id: u32,
        receive_buffer: &[u8],
    ) -> (fits: bool)
        ensures
            fits == key_update_ack_can_count(self.common@, trace@, session_id, receive_buffer@),
    {
        let mut reader = Reader::init(receive_buffer);
        match SpdmMessageHeader::read(&mut reader) {
            Some(header) => {
                if header.version != self.common.negotiate_info.spdm_version_sel
                    || header.request_response_code
                    != SpdmRequestResponseCode::SpdmResponseKeyUpdateAck {
                    return true;
                }
            },
            None => {
                return true;
            },
        }
        match SpdmKeyUpdateResponsePayload::spdm_read(&mut reader) {
            Some(response) => self.common.session_slot(session_id).is_none() || can_count_ack(
                trace.key_gens,
                trace_operation(response.key_update_operation),
            ),
            None => true,
        }
    }

    /// Brings the former secrets back and traces why.
    fn roll_back<C: Copy>(
        &mut self,
        trace: &mut TraceRuntime<C>,
        session_id: u32,
        slot: usize,
        update_requester: bool,
        update_responder: bool,
        error: TraceErrorKind,
        handling: ResponseHandling,
    ) -> (result: ResponseHandling)
        requires
            old(self).common@.slot(session_id) == Some(slot as nat),
            slot < old(self).common@.sessions.len(),
        ensures
            ({
                let outcome = rolled_back(
                    old(self).common@,
                    old(trace)@,
                    session_id,
                    update_requester,
                    update_responder,
                    error,
                    handling,
                );
                &&& final(self).common@ == outcome.context
                &&& final(trace)@ == outcome.trace
                &&& result == outcome.handling
            }),
    {
        if let Err(status) = self.common.settle_secrets_at(
            slot,
            update_requester,
            update_responder,
            false,
        ) {
            return ResponseHandling::Done(Err(status));
        }
        note_key_update_rollback(
            trace,
            self.common.session[slot].get_requester_backup_valid(),
            self.common.session[slot].get_responder_backup_valid(),
        );
        emit_key_event(
            trace,
            TraceRole::Requester,
            &self.common,
            session_id,
            "HandleSpdmKeyUpdateOpResponse",
            TraceMessage { error: Some(error), ..TraceMessage::default() },
        );
        handling
    }

    /// Handles the answer to a key update.
    pub fn handle_spdm_key_update_op_response<C: Copy>(
        &mut self,
        trace: &mut TraceRuntime<C>,
        session_id: u32,
        update_requester: bool,
        update_responder: bool,
        receive_buffer: &[u8],
    ) -> (handling: ResponseHandling)
        requires
            key_update_ack_can_count(old(self).common@, old(trace)@, session_id, receive_buffer@),
        ensures
            ({
                let outcome = key_update_response_outcome(
                    old(self).common@,
                    old(trace)@,
                    session_id,
                    update_requester,
                    update_responder,
                    receive_buffer@,
                );
                &&& final(self).common@ == outcome.context
                &&& final(trace)@ == outcome.trace
                &&& handling == outcome.handling
            }),
    {
        let mut reader = Reader::init(receive_buffer);
        let header = match SpdmMessageHeader::read(&mut reader) {
            Some(header) => header,
            None => {
                return ResponseHandling::Done(Err(SpdmStatus::InvalidMsgField));
            },
        };
        if header.version != self.common.negotiate_info.spdm_version_sel {
            return ResponseHandling::Done(Err(SpdmStatus::InvalidMsgField));
        }
        match header.request_response_code {
            SpdmRequestResponseCode::SpdmResponseKeyUpdateAck => {
                let response = SpdmKeyUpdateResponsePayload::spdm_read(&mut reader);
                let slot: usize = match self.common.session_slot(session_id) {
                    Some(slot) => slot,
                    None => {
                        return ResponseHandling::Done(Err(SpdmStatus::InvalidParameter));
                    },
                };
                match response {
                    Some(response) => {
                        if let Err(status) = self.common.settle_secrets_at(
                            slot,
                            update_requester,
                            update_responder,
                            true,
                        ) {
                            return ResponseHandling::Done(Err(status));
                        }
                        let op = trace_operation(response.key_update_operation);
                        note_key_update_ack(trace, op);
                        emit_key_event(
                            trace,
                            TraceRole::Requester,
                            &self.common,
                            session_id,
                            "RequesterHandleKeyUpdateAck",
                            TraceMessage { op: Some(op), ..TraceMessage::default() },
                        );
                        let (req_backup_valid, rsp_backup_valid) = session_backup_marks(
                            &self.common,
                            session_id,
                        );
                        emit_following_r2_event(
                            trace,
                            TraceRole::Requester,
                            "HandleSpdmKeyUpdateResponse",
                            TraceR2Fields {
                                session_id: Some(session_id),
                                req_backup_valid: Some(req_backup_valid),
                                rsp_backup_valid: Some(rsp_backup_valid),
                                ..TraceR2Fields::default()
                            },
                        );
                        ResponseHandling::Done(Ok(()))
                    },
                    None => self.roll_back(
                        trace,
                        session_id,
                        slot,
                        update_requester,
                        update_responder,
                        TraceErrorKind::Invalid,
                        ResponseHandling::Done(Err(SpdmStatus::InvalidMsgField)),
                    ),
                }
            },
            SpdmRequestResponseCode::SpdmResponseError => {
                let slot: usize = match self.common.session_slot(session_id) {
                    Some(slot) => slot,
                    None => {
                        return ResponseHandling::Done(Err(SpdmStatus::InvalidParameter));
                    },
                };
                self.roll_back(
                    trace,
                    session_id,
                    slot,
                    update_requester,
                    update_responder,
                    TraceErrorKind::Unexpected,
                    ResponseHandling::ErrorResponse(
                        ErrorResponseCall {
                            session_id: Some(session_id),
                            original_request: SpdmRequestResponseCode::SpdmRequestKeyUpdate,
                            expected_response: SpdmRequestResponseCode::SpdmResponseKeyUpdateAck,
                        },
                    ),
                )
            },
            _ => ResponseHandling::Done(Err(SpdmStatus::ErrorPeer)),
        }
    }
}

/// Only an acknowledgement ends a key update without an error, and only it counts
/// as an update in the trace.
pub proof fn law_only_an_acknowledgement_counts<C>(
    context: ContextView,
    trace: TraceRuntimeView<C>,
    session_id: u32,
    update_requester: bool,
    update_responder: bool,
    bytes: Seq<u8>,
)
    ensures
        ({
            let outcome = key_update_response_outcome(
                context,
                trace,
                session_id,
                update_requester,
                update_responder,
                bytes,
            );
            &&& (outcome.handling == ResponseHandling::Done(Ok(()))) == acknowledges(
                context,
                session_id,
                bytes,
            )
            &&& !acknowledges(context, session_id, bytes) ==> outcome.trace.key_gens
                == trace.key_gens
        }),
{
}

/// Whether an answer brings the former secrets back: an error message, or an
/// acknowledgement that breaks off.
pub open spec fn brings_back(context: ContextView, bytes: Seq<u8>) -> bool {
    header_of(bytes) matches Some(header) && header.version == context.negotiated.spdm_version_sel
        && (header.request_response_code == SpdmRequestResponseCode::SpdmResponseError || (
    header.request_response_code == SpdmRequestResponseCode::SpdmResponseKeyUpdateAck
        && key_update_body_of(bytes) is None))
}

/// A key update that is answered with an error message, or with an
/// acknowledgement that breaks off, leaves the secrets in use as they were before
/// the requester created new ones, and no backup for the directions of the update.
/// This holds for any two directions, whether or not an operation names them.
pub proof fn law_refused_update_restores_secrets<C>(
    context: ContextView,
    trace: TraceRuntimeView<C>,
    session_id: u32,
    update_requester: bool,
    update_responder: bool,
    derived: DerivedView,
    bytes: Seq<u8>,
)
    requires
        context.find(session_id) is Some,
        derivation_succeeds(update_requester, update_responder, derived),
        brings_back(context, bytes),
    ensures
        ({
            let created = session_secrets_created(
                context,
                session_id,
                update_requester,
                update_responder,
                derived,
            );
            let outcome = key_update_response_outcome(
                created,
                trace,
                session_id,
                update_requester,
                update_responder,
                bytes,
            );
            let session = outcome.context.find(session_id);
            &&& session is Some
            &&& session->0.secret == context.find(session_id)->0.secret
            &&& update_requester ==> !session->0.requester_backup_valid
            &&& update_responder ==> !session->0.responder_backup_valid
            &&& outcome.trace.key_gens == trace.key_gens
            &&& outcome.handling == if (header_of(bytes)->0).request_response_code
                == SpdmRequestResponseCode::SpdmResponseError {
                ResponseHandling::ErrorResponse(key_update_error_call(session_id))
            } else {
                ResponseHandling::Done(Err(SpdmStatus::InvalidMsgField))
            }
        }),
{
    let session = context.find(session_id)->0;
    let created = session_secrets_created(
        context,
        session_id,
        update_requester,
        update_responder,
        derived,
    );
    let created_session = secrets_created(session, update_requester, update_responder, derived);
    law_slot_is_the_first(context.sessions, session_id, 0);
    law_replacing_keeps_slots(context, session_id, created_session, session_id);
    law_going_back_restores_secrets(session, update_requester, update_responder, derived);
    law_replacing_keeps_slots(
        created,
        session_id,
        secrets_settled(created_session, update_requester, update_responder, false),
        session_id,
    );
}

/// Which secrets an acknowledgement settles follows the two directions alone. Two
/// acknowledgements that differ in their operation or their tag end the key update
/// alike and leave the same context behind: the same secrets, the same backups and
/// the same marks in every session.
pub proof fn law_acknowledged_operation_and_tag_do_not_matter<C>(
    context: ContextView,
    trace: TraceRuntimeView<C>,
    session_id: u32,
    update_requester: bool,
    update_responder: bool,
    first: Seq<u8>,
    second: Seq<u8>,
)
    requires
        acknowledges(context, session_id, first),
        acknowledges(context, session_id, second),
    ensures
        ({
            let one = key_update_response_outcome(
                context,
                trace,
                session_id,
                update_requester,
                update_responder,
                first,
            );
            let two = key_update_response_outcome(
                context,
                trace,
                session_id,
                update_requester,
                update_responder,
                second,
            );
            &&& one.handling == ResponseHandling::Done(Ok(()))
            &&& two.handling == one.handling
            &&& two.context == one.context
            &&& one.context == session_settled(
                context,
                session_id,
                update_requester,
                update_responder,
                true,
            )
        }),
{
}

/// An answer about one session leaves every other session as it is.
pub proof fn law_answer_keeps_other_sessions<C>(
    context: ContextView,
    trace: TraceRuntimeView<C>,
    session_id: u32,
    other: u32,
    update_requester: bool,
    update_responder: bool,
    bytes: Seq<u8>,
)
    requires
        other != session_id,
    ensures
        key_update_response_outcome(
            context,
            trace,
            session_id,
            update_requester,
            update_responder,
            bytes,
        ).context.find(other) == context.find(other),
{
    if context.find(session_id) is Some {
        let session = context.find(session_id)->0;
        law_slot_is_the_first(context.sessions, session_id, 0);
        law_replacing_keeps_slots(
            context,
            session_id,
            secrets_settled(session, update_requester, update_responder, true),
            other,
        );
        law_replacing_keeps_slots(
            context,
            session_id,
            secrets_settled(session, update_requester, update_responder, false),
            other,
        );
    }
}

} // verus!
