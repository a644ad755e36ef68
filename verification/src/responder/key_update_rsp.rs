//! Answering a key update.

use vstd::prelude::*;

use crate::codec::{fits, law_fitting_fields_are_appended, put_fields, Reader, Writer, WriterView};
use crate::common::{
    law_replacing_keeps_slots, law_slot_is_the_first, ContextView, SpdmNegotiateInfo,
};
use crate::error::{SpdmResult, SpdmStatus};
use crate::message::{
    error_response, header_of, key_update_ack, key_update_body_of, law_error_response_bytes,
    law_key_update_ack_bytes, message_fields, SpdmErrorCode, SpdmKeyUpdateOperation,
    SpdmKeyUpdateRequestPayload, SpdmKeyUpdateResponsePayload, SpdmMessage, SpdmMessageHeader,
    SpdmMessagePayload, SpdmRequestResponseCode,
};
use crate::protocol::{
    law_version_of_byte_is_exact, version_byte, SpdmRequestCapabilityFlags,
    SpdmResponseCapabilityFlags,
};
use crate::responder::{error_written, ResponderContext};
use crate::session::{
    derivation_succeeds, secrets_created, secrets_settled, DerivedSecrets, DerivedView,
    SessionView,
};
use crate::spdm_trace::{
    backup_marks, can_count_response, emit_following_r2_event, emit_key_event, gens_after_response,
    key_event_emitted, no_message, no_r2_fields, note_key_update_response, r2_event_followed,
    response_can_count, session_backup_marks, trace_operation, traced_operation, TraceKeyUpdateOp,
    TraceMessage, TraceR2Fields, TraceR2View, TraceRole, TraceRuntime, TraceRuntimeView,
};

verus! {

/// What becomes of a key update request.
pub enum KeyUpdateVerdict {
    /// It is refused before it touches the message buffers.
    Unread { status: SpdmStatus, error: SpdmErrorCode },
    /// It is refused after the message buffers were reset.
    Refused { status: SpdmStatus, error: SpdmErrorCode },
    /// It is carried out.
    Accepted { operation: SpdmKeyUpdateOperation, tag: u8 },
}

/// What becomes of a request with these bytes: it needs a header with the version
/// agreed on, a body, a session, and an operation that is defined. Whether the two
/// sides agreed on key updates at all does not matter, nor does the code in the
/// header.
pub open spec fn key_update_verdict(
    context: ContextView,
    session_id: u32,
    bytes: Seq<u8>,
) -> KeyUpdateVerdict {
    match header_of(bytes) {
        None => KeyUpdateVerdict::Unread {
            status: SpdmStatus::InvalidMsgField,
            error: SpdmErrorCode::SpdmErrorInvalidRequest,
        },
        Some(header) => if header.version != context.negotiated.spdm_version_sel {
            KeyUpdateVerdict::Unread {
                status: SpdmStatus::InvalidMsgField,
                error: SpdmErrorCode::SpdmErrorVersionMismatch,
            }
        } else {
            match (key_update_body_of(bytes), context.find(session_id)) {
                (None, _) => KeyUpdateVerdict::Refused {
                    status: SpdmStatus::InvalidMsgField,
                    error: SpdmErrorCode::SpdmErrorInvalidRequest,
                },
                (Some(_), None) => KeyUpdateVerdict::Refused {
                    status: SpdmStatus::InvalidStateLocal,
                    error: SpdmErrorCode::SpdmErrorUnspecified,
                },
                (Some((operation, tag)), Some(_)) => if operation is Unknown {
                    KeyUpdateVerdict::Refused {
                        status: SpdmStatus::InvalidMsgField,
                        error: SpdmErrorCode::SpdmErrorInvalidRequest,
                    }
                } else {
                    KeyUpdateVerdict::Accepted { operation, tag }
                },
            }
        },
    }
}

/// Whether the new secrets that an operation needs were all derived.
pub open spec fn secrets_available(
    operation: SpdmKeyUpdateOperation,
    derived: DerivedView,
) -> bool {
    derivation_succeeds(
        !(operation is SpdmVerifyNewKey),
        operation is SpdmUpdateAllKeys,
        derived,
    )
}

/// The session of the responder after an operation. For one direction the new
/// secret waits for its verification; for both directions the one for responses
/// is settled at once.
pub open spec fn responder_session_after(
    session: SessionView,
    operation: SpdmKeyUpdateOperation,
    derived: DerivedView,
) -> SessionView {
    match operation {
        SpdmKeyUpdateOperation::SpdmUpdateSingleKey => secrets_created(
            session,
            true,
            false,
            derived,
        ),
        SpdmKeyUpdateOperation::SpdmUpdateAllKeys => secrets_settled(
            secrets_created(session, true, true, derived),
            false,
            true,
            true,
        ),
        SpdmKeyUpdateOperation::SpdmVerifyNewKey => secrets_settled(session, true, false, true),
        SpdmKeyUpdateOperation::Unknown(_) => session,
    }
}

/// All that a key update request leads to.
#[verifier::ext_equal]
pub struct KeyUpdateOutcome<C> {
    pub context: ContextView,
    pub trace: TraceRuntimeView<C>,
    pub writer: WriterView,
    pub status: SpdmResult,
}

/// The context after the message buffers were reset for a key update.
pub open spec fn buffers_reset(context: ContextView, session_id: u32) -> ContextView {
    context.with_reset(SpdmRequestResponseCode::SpdmRequestKeyUpdate, Some(session_id))
}

/// The context after an operation was carried out.
pub open spec fn operation_applied(
    context: ContextView,
    session_id: u32,
    operation: SpdmKeyUpdateOperation,
    derived: DerivedView,
) -> ContextView {
    let reset = buffers_reset(context, session_id);
    reset.with_session(
        session_id,
        responder_session_after(reset.find(session_id)->0, operation, derived),
    )
}

/// The trace after an operation was carried out.
pub open spec fn operation_noted<C>(
    trace: TraceRuntimeView<C>,
    operation: SpdmKeyUpdateOperation,
    derived: DerivedView,
) -> TraceRuntimeView<C> {
    TraceRuntimeView {
        key_gens: gens_after_response(
            trace.key_gens,
            traced_operation(operation),
            secrets_available(operation, derived),
            true,
        ),
        ..trace
    }
}

/// The trace after an operation was acknowledged.
pub open spec fn acknowledgement_traced<C>(
    trace: TraceRuntimeView<C>,
    context: ContextView,
    session_id: u32,
    operation: SpdmKeyUpdateOperation,
) -> TraceRuntimeView<C> {
    r2_event_followed(
        key_event_emitted(
            trace,
            TraceRole::Responder,
            context,
            session_id,
            "ResponderHandleKeyUpdate",
            TraceMessage { op: Some(traced_operation(operation)), ..no_message() },
        ),
        TraceRole::Responder,
        "WriteSpdmKeyUpdateResponse",
        TraceR2View {
            session_id: Some(session_id),
            req_backup_valid: Some(backup_marks(context, Some(session_id)).0),
            rsp_backup_valid: Some(backup_marks(context, Some(session_id)).1),
            ..no_r2_fields()
        },
    )
}

/// All that a key update request leads to. An operation that is carried out is
/// acknowledged whether or not its secrets were derived; where the
/// acknowledgement has no room, a refusal follows it and the operation stands.
pub open spec fn key_update_outcome<C>(
    context: ContextView,
    trace: TraceRuntimeView<C>,
    writer: WriterView,
    session_id: u32,
    bytes: Seq<u8>,
    derived: DerivedView,
) -> KeyUpdateOutcome<C> {
    let version = context.negotiated.spdm_version_sel;
    match key_update_verdict(context, session_id, bytes) {
        KeyUpdateVerdict::Unread { status, error } => KeyUpdateOutcome {
            context,
            trace,
            writer: error_written(writer, version, error, 0),
            status: Err(status),
        },
        KeyUpdateVerdict::Refused { status, error } => KeyUpdateOutcome {
            context: buffers_reset(context, session_id),
            trace,
            writer: error_written(writer, version, error, 0),
            status: Err(status),
        },
        KeyUpdateVerdict::Accepted { operation, tag } => {
            let after = operation_applied(context, session_id, operation, derived);
            let noted = operation_noted(trace, operation, derived);
            let fields = message_fields(key_update_ack(version, operation, tag), version);
            let written = put_fields(writer, fields);
            if fits(writer, fields) {
                KeyUpdateOutcome {
                    context: after,
                    trace: acknowledgement_traced(noted, after, session_id, operation),
                    writer: written,
                    status: Ok(()),
                }
            } else {
                KeyUpdateOutcome {
                    context: after,
                    trace: noted,
                    writer: error_written(
                        written,
                        version,
                        SpdmErrorCode::SpdmErrorUnspecified,
                        0,
                    ),
                    status: Err(SpdmStatus::InvalidStateLocal),
                }
            }
        },
    }
}

/// Whether the trace can count the update that this request leads to.
pub open spec fn key_update_can_count<C>(
    context: ContextView,
    trace: TraceRuntimeView<C>,
    session_id: u32,
    bytes: Seq<u8>,
    derived: DerivedView,
) -> bool {
    key_update_verdict(context, session_id, bytes) matches KeyUpdateVerdict::Accepted {
        operation,
        ..
    } ==> response_can_count(
        trace.key_gens,
        traced_operation(operation),
        secrets_available(operation, derived),
        true,
    )
}

impl ResponderContext {
    /// The operation of a request that is carried out; nothing for one that is
    /// refused.
    pub fn accepted_operation(&self, session_id: u32, bytes: &[u8]) -> (accepted: Option<
        SpdmKeyUpdateOperation,
    >)
        ensures
            accepted == match key_update_verdict(self.common@, session_id, bytes@) {
                KeyUpdateVerdict::Accepted { operation, .. } => Some(operation),
                _ => None,
            },
    {
        let mut reader = Reader::init(bytes);
        let header = SpdmMessageHeader::read(&mut reader)?;
        if header.version != self.common.negotiate_info.spdm_version_sel {
            return None;
        }
        let request = SpdmKeyUpdateRequestPayload::spdm_read(&mut reader)?;
        if self.common.session_slot(session_id).is_none() {
            return None;
        }
        match request.key_update_operation {
            SpdmKeyUpdateOperation::Unknown(_) => None,
            operation => Some(operation),
        }
    }

    /// Whether the trace can count the update that this request leads to.
    pub fn can_count_key_update<C>(
        &self,
        trace: &TraceRuntime<C>,
        session_id: u32,
        bytes: &[u8],
        derived: &DerivedSecrets,
    ) -> (fits: bool)
        ensures
            fits == key_update_can_count(self.common@, trace@, session_id, bytes@, derived@),
    {
        let operation = match self.accepted_operation(session_id, bytes) {
            Some(operation) => operation,
            None => {
                return true;
            },
        };
        let req_ok = match operation {
            SpdmKeyUpdateOperation::SpdmUpdateSingleKey => derived.request.is_some(),
            SpdmKeyUpdateOperation::SpdmUpdateAllKeys => derived.request.is_some()
                && derived.response.is_some(),
            _ => true,
        };
        can_count_response(trace.key_gens, trace_operation(operation), req_ok, true)
    }

    /// Answers a key update.
    pub fn handle_spdm_key_update<'a, C: Copy>(
        &mut self,
        trace: &mut TraceRuntime<C>,
        session_id: u32,
        bytes: &[u8],
        derived: DerivedSecrets,
        writer: &'a mut Writer,
    ) -> (answer: (SpdmResult, Option<&'a [u8]>))
        requires
            old(writer)@.wf(),
            key_update_can_count(
                old(self).common@,
                old(trace)@,
                session_id,
                bytes@,
                derived@,
            ),
        ensures
            ({
                let outcome = key_update_outcome(
                    old(self).common@,
                    old(trace)@,
                    old(writer)@,
                    session_id,
                    bytes@,
                    derived@,
                );
                &&& final(self).common@ == outcome.context
                &&& final(trace)@ == outcome.trace
                &&& final(writer)@ == outcome.writer
                &&& answer.0 == outcome.status
                &&& answer.1 matches Some(used) && used@ == outcome.writer.used
            }),
            final(writer)@.wf(),
    {
        self.write_spdm_key_update_response(trace, session_id, bytes, derived, writer)
    }

    /// Carries out a key update and writes the acknowledgement, or writes why it
    /// is refused.
    pub fn write_spdm_key_update_response<'a, C: Copy>(
        &mut self,
        trace: &mut TraceRuntime<C>,
        session_id: u32,
        bytes: &[u8],
        derived: DerivedSecrets,
        writer: &'a mut Writer,
    ) -> (answer: (SpdmResult, Option<&'a [u8]>))
        requires
            old(writer)@.wf(),
            key_update_can_count(
                old(self).common@,
                old(trace)@,
                session_id,
                bytes@,
                derived@,
            ),
        ensures
            ({
                let outcome = key_update_outcome(
                    old(self).common@,
                    old(trace)@,
                    old(writer)@,
                    session_id,
                    bytes@,
                    derived@,
                );
                &&& final(self).common@ == outcome.context
                &&& final(trace)@ == outcome.trace
                &&& final(writer)@ == outcome.writer
                &&& answer.0 == outcome.status
                &&& answer.1 matches Some(used) && used@ == outcome.writer.used
            }),
            final(writer)@.wf(),
    {
        let ghost context = self.common@;
        let version = self.common.negotiate_info.spdm_version_sel;
        let mut reader = Reader::init(bytes);
        match SpdmMessageHeader::read(&mut reader) {
            Some(header) => {
                if header.version != version {
                    self.write_spdm_error(SpdmErrorCode::SpdmErrorVersionMismatch, 0, writer);
                    return (Err(SpdmStatus::InvalidMsgField), Some(writer.used_slice()));
                }
            },
            None => {
                self.write_spdm_error(SpdmErrorCode::SpdmErrorInvalidRequest, 0, writer);
                return (Err(SpdmStatus::InvalidMsgField), Some(writer.used_slice()));
            },
        }

        self.common.reset_buffer_via_request_code(
            SpdmRequestResponseCode::SpdmRequestKeyUpdate,
            Some(session_id),
        );

        let request = match SpdmKeyUpdateRequestPayload::spdm_read(&mut reader) {
            Some(request) => request,
            None => {
                self.write_spdm_error(SpdmErrorCode::SpdmErrorInvalidRequest, 0, writer);
                return (Err(SpdmStatus::InvalidMsgField), Some(writer.used_slice()));
            },
        };
        let slot: usize = match self.common.session_slot(session_id) {
            Some(slot) => slot,
            None => {
                self.write_spdm_error(SpdmErrorCode::SpdmErrorUnspecified, 0, writer);
                return (Err(SpdmStatus::InvalidStateLocal), Some(writer.used_slice()));
            },
        };
        match request.key_update_operation {
            SpdmKeyUpdateOperation::SpdmUpdateSingleKey => {
                let created = self.common.create_secrets_at(slot, true, false, derived);
                note_key_update_response(
                    trace,
                    TraceKeyUpdateOp::UpdateSingle,
                    created.is_ok(),
                    true,
                );
            },
            SpdmKeyUpdateOperation::SpdmUpdateAllKeys => {
                let created = self.common.create_secrets_at(slot, true, true, derived);
                let settled = self.common.settle_secrets_at(slot, false, true, true);
                note_key_update_response(
                    trace,
                    TraceKeyUpdateOp::UpdateAll,
                    created.is_ok(),
                    settled.is_ok(),
                );
            },
            SpdmKeyUpdateOperation::SpdmVerifyNewKey => {
                let _ = self.common.settle_secrets_at(slot, true, false, true);
                note_key_update_response(trace, TraceKeyUpdateOp::VerifyNewKey, true, true);
            },
            SpdmKeyUpdateOperation::Unknown(_) => {
                self.write_spdm_error(SpdmErrorCode::SpdmErrorInvalidRequest, 0, writer);
                return (Err(SpdmStatus::InvalidMsgField), Some(writer.used_slice()));
            },
        }
        assert(self.common@ == operation_applied(
            context,
            session_id,
            request.key_update_operation,
            derived@,
        ));

        let response = SpdmMessage {
            header: SpdmMessageHeader {
                version,
                request_response_code: SpdmRequestResponseCode::SpdmResponseKeyUpdateAck,
            },
            payload: SpdmMessagePayload::SpdmKeyUpdateResponse(
                SpdmKeyUpdateResponsePayload {
                    key_update_operation: request.key_update_operation,
                    tag: request.tag,
                },
            ),
        };
        if response.spdm_encode(version, writer).is_err() {
            self.write_spdm_error(SpdmErrorCode::SpdmErrorUnspecified, 0, writer);
            return (Err(SpdmStatus::InvalidStateLocal), Some(writer.used_slice()));
        }

        emit_key_event(
            trace,
            TraceRole::Responder,
            &self.common,
            session_id,
            "ResponderHandleKeyUpdate",
            TraceMessage {
                op: Some(trace_operation(request.key_update_operation)),
                ..TraceMessage::default()
            },
        );
        let (req_backup_valid, rsp_backup_valid) = session_backup_marks(&self.common, session_id);
        emit_following_r2_event(
            trace,
            TraceRole::Responder,
            "WriteSpdmKeyUpdateResponse",
            TraceR2Fields {
                session_id: Some(session_id),
                req_backup_valid: Some(req_backup_valid),
                rsp_backup_valid: Some(rsp_backup_valid),
                ..TraceR2Fields::default()
            },
        );
        (Ok(()), Some(writer.used_slice()))
    }
}

/// A request that is carried out is answered, where there is room, with the
/// operation and the tag that it came with.
pub proof fn law_accepted_request_is_acknowledged<C>(
    context: ContextView,
    trace: TraceRuntimeView<C>,
    writer: WriterView,
    session_id: u32,
    bytes: Seq<u8>,
    derived: DerivedView,
)
    requires
        key_update_verdict(context, session_id, bytes) is Accepted,
        writer.used.len() + 4 <= writer.limit,
    ensures
        ({
            let outcome = key_update_outcome(context, trace, writer, session_id, bytes, derived);
            &&& outcome.status == Ok::<(), SpdmStatus>(())
            &&& outcome.writer.used == writer.used + seq![bytes[0], 0x69u8, bytes[2], bytes[3]]
        }),
{
    let version = context.negotiated.spdm_version_sel;
    let (operation, tag) = key_update_body_of(bytes)->0;
    law_version_of_byte_is_exact(bytes[0]);
    law_key_update_ack_bytes(version, operation, tag);
    law_fitting_fields_are_appended(
        writer,
        message_fields(key_update_ack(version, operation, tag), version),
    );
}

/// A request that is refused is answered, where there is room, with an error
/// message of the version agreed on: an invalid request, a version that does not
/// match, or a session that is not there. It changes no session, and the trace
/// does not see it.
pub proof fn law_refused_request_is_answered_with_error<C>(
    context: ContextView,
    trace: TraceRuntimeView<C>,
    writer: WriterView,
    session_id: u32,
    bytes: Seq<u8>,
    derived: DerivedView,
)
    requires
        key_update_verdict(context, session_id, bytes) !is Accepted,
        writer.used.len() + 4 <= writer.limit,
    ensures
        ({
            let outcome = key_update_outcome(context, trace, writer, session_id, bytes, derived);
            let version = context.negotiated.spdm_version_sel;
            let error = if header_of(bytes) is Some && header_of(bytes)->0.version != version {
                0x41u8
            } else if header_of(bytes) is Some && key_update_body_of(bytes) is Some && context.find(
                session_id,
            ) is None {
                0x05u8
            } else {
                0x01u8
            };
            &&& outcome.status is Err
            &&& outcome.writer.used == writer.used + seq![version_byte(version), 0x7fu8, error, 0u8]
            &&& outcome.context.sessions == context.sessions
            &&& outcome.trace == trace
        }),
{
    let version = context.negotiated.spdm_version_sel;
    let error = match key_update_verdict(context, session_id, bytes) {
        KeyUpdateVerdict::Unread { error, .. } => error,
        KeyUpdateVerdict::Refused { error, .. } => error,
        KeyUpdateVerdict::Accepted { .. } => SpdmErrorCode::SpdmErrorUnspecified,
    };
    law_error_response_bytes(version, error, 0);
    law_fitting_fields_are_appended(
        writer,
        message_fields(error_response(version, error, 0), version),
    );
}

/// The answer does not depend on whether the secrets could be derived: a
/// request is acknowledged even where no secret of its operation changed.
pub proof fn law_answer_ignores_derivation<C>(
    context: ContextView,
    trace: TraceRuntimeView<C>,
    writer: WriterView,
    session_id: u32,
    bytes: Seq<u8>,
    derived: DerivedView,
)
    ensures
        ({
            let outcome = key_update_outcome(context, trace, writer, session_id, bytes, derived);
            let failed = key_update_outcome(
                context,
                trace,
                writer,
                session_id,
                bytes,
                DerivedView { request: None, response: None },
            );
            &&& failed.status == outcome.status
            &&& failed.writer == outcome.writer
        }),
        context.find(session_id) matches Some(session) ==> responder_session_after(
            session,
            SpdmKeyUpdateOperation::SpdmUpdateSingleKey,
            DerivedView { request: None, response: None },
        ) == session,
{
}

/// The answer, the sessions and the resets do not depend on the capabilities
/// that the two sides agreed on.
pub proof fn law_answer_ignores_capabilities<C>(
    context: ContextView,
    trace: TraceRuntimeView<C>,
    writer: WriterView,
    session_id: u32,
    bytes: Seq<u8>,
    derived: DerivedView,
    req_capabilities_sel: SpdmRequestCapabilityFlags,
    rsp_capabilities_sel: SpdmResponseCapabilityFlags,
)
    ensures
        ({
            let other = ContextView {
                negotiated: SpdmNegotiateInfo {
                    req_capabilities_sel,
                    rsp_capabilities_sel,
                    ..context.negotiated
                },
                ..context
            };
            let one = key_update_outcome(context, trace, writer, session_id, bytes, derived);
            let two = key_update_outcome(other, trace, writer, session_id, bytes, derived);
            &&& two.status == one.status
            &&& two.writer == one.writer
            &&& two.context.sessions == one.context.sessions
            &&& two.context.resets == one.context.resets
        }),
{
}

/// An update of the keys followed by the verification leaves the derived
/// secrets in use, in the directions of the operation and in no other, and no
/// backup for them.
pub proof fn law_verified_update_is_settled(
    session: SessionView,
    operation: SpdmKeyUpdateOperation,
    derived: DerivedView,
    ignored: DerivedView,
)
    requires
        operation is SpdmUpdateSingleKey || operation is SpdmUpdateAllKeys,
        secrets_available(operation, derived),
    ensures
        ({
            let after = responder_session_after(
                responder_session_after(session, operation, derived),
                SpdmKeyUpdateOperation::SpdmVerifyNewKey,
                ignored,
            );
            &&& after.secret.request == derived.request->0
            &&& after.secret.response == if operation is SpdmUpdateAllKeys {
                derived.response->0
            } else {
                session.secret.response
            }
            &&& !after.requester_backup_valid
            &&& operation is SpdmUpdateAllKeys ==> !after.responder_backup_valid
            &&& operation is SpdmUpdateSingleKey ==> after.responder_backup_valid
                == session.responder_backup_valid
        }),
{
}

/// A key update of one session leaves every other session as it is, and keeps
/// the session it is about under its id.
pub proof fn law_other_sessions_are_untouched<C>(
    context: ContextView,
    trace: TraceRuntimeView<C>,
    writer: WriterView,
    session_id: u32,
    other: u32,
    bytes: Seq<u8>,
    derived: DerivedView,
)
    requires
        other != session_id,
    ensures
        ({
            let after = key_update_outcome(
                context,
                trace,
                writer,
                session_id,
                bytes,
                derived,
            ).context;
            &&& after.find(other) == context.find(other)
            &&& after.slot(session_id) == context.slot(session_id)
        }),
{
    if let KeyUpdateVerdict::Accepted { operation, .. } = key_update_verdict(
        context,
        session_id,
        bytes,
    ) {
        let reset = buffers_reset(context, session_id);
        let session = reset.find(session_id)->0;
        law_slot_is_the_first(context.sessions, session_id, 0);
        law_replacing_keeps_slots(
            reset,
            session_id,
            responder_session_after(session, operation, derived),
            other,
        );
        law_replacing_keeps_slots(
            reset,
            session_id,
            responder_session_after(session, operation, derived),
            session_id,
        );
    }
}

} // verus!
