//! A key update on the side that answers it.

use vstd::prelude::*;

use crate::codec::{fits, joined, put_fields, WriterView};
use crate::common::{law_replacing_keeps_slots, law_slot_is_the_first, ContextView};
use crate::error::SpdmStatus;
use crate::laws::bytes::law_single_bytes_fill_the_room;
use crate::laws::tracing::one_if;
use crate::message::{
    error_byte, error_response, key_update_ack, law_error_response_bytes,
    law_key_update_ack_bytes, message_fields, operation_byte, SpdmErrorCode,
    SpdmKeyUpdateOperation,
};
use crate::protocol::{law_version_of_byte_is_exact, version_byte, SpdmVersion};
use crate::responder::error_written;
use crate::responder::key_update_rsp::{
    acknowledgement_traced, buffers_reset, key_update_can_count, key_update_outcome,
    key_update_verdict, operation_noted, responder_session_after, secrets_available,
    KeyUpdateVerdict,
};
use crate::session::{DerivedView, SessionView};
use crate::spdm_trace::{
    backup_marks, no_message, no_r2_fields, no_snapshot, observed_peer, TraceKeyUpdateOp,
    TraceMessage, TraceR2View, TraceRole, TraceRuntimeView,
};

verus! {

/// Whether the bytes are a key update that is carried out: four bytes at least, with
/// the version agreed on first and an operation from 1 to 3 third, for a session that is
/// there.
pub open spec fn is_carried_out(context: ContextView, session_id: u32, bytes: Seq<u8>) -> bool {
    &&& bytes.len() >= 4
    &&& bytes[0] == version_byte(context.negotiated.spdm_version_sel)
    &&& 1 <= bytes[2] <= 3
    &&& context.find(session_id) is Some
}

/// Exactly such a request is accepted, with the operation of its third byte and the tag
/// of its fourth. The second byte does not matter.
pub proof fn law_verdict_is_decided_by_bytes_and_session(
    context: ContextView,
    session_id: u32,
    bytes: Seq<u8>,
)
    ensures
        key_update_verdict(context, session_id, bytes) is Accepted == is_carried_out(
            context,
            session_id,
            bytes,
        ),
        key_update_verdict(context, session_id, bytes) matches KeyUpdateVerdict::Accepted {
            operation,
            tag,
        } ==> {
            &&& operation is SpdmUpdateSingleKey == (bytes[2] == 1)
            &&& operation is SpdmUpdateAllKeys == (bytes[2] == 2)
            &&& operation is SpdmVerifyNewKey == (bytes[2] == 3)
            &&& operation_byte(operation) == bytes[2]
            &&& tag == bytes[3]
        },
{
    law_version_of_byte_is_exact(bytes[0]);
}

/// As much of a message as has room behind what is written already.
pub open spec fn as_far_as_room(used: Seq<u8>, limit: nat, message: Seq<u8>) -> Seq<u8> {
    let all = used + message;
    if all.len() <= limit {
        all
    } else {
        all.take(limit as int)
    }
}

/// Every other request is refused with an error message of four bytes: the version
/// agreed on, 0x7f, the error and 0. A request without a version in its header, or that
/// ends before its fourth byte, or with an operation that is not defined, is invalid
/// (0x01); another version does not match (0x41); and where all else is in order, a
/// session that is not there is left unspecified (0x05) and shows in the status. No
/// session changes, nothing is traced, and the buffers are reset exactly where the
/// version matched.
pub proof fn law_other_requests_are_refused<C>(
    context: ContextView,
    trace: TraceRuntimeView<C>,
    writer: WriterView,
    session_id: u32,
    bytes: Seq<u8>,
    derived: DerivedView,
)
    requires
        !is_carried_out(context, session_id, bytes),
        writer.used.len() <= writer.limit,
    ensures
        ({
            let outcome = key_update_outcome(context, trace, writer, session_id, bytes, derived);
            let version = version_byte(context.negotiated.spdm_version_sel);
            let headed = bytes.len() >= 2 && 0x10 <= bytes[0] <= 0x14;
            let matches_version = headed && bytes[0] == version;
            let lost = matches_version && bytes.len() >= 4 && context.find(session_id) is None;
            let error = if headed && !matches_version {
                0x41u8
            } else if lost {
                0x05u8
            } else {
                0x01u8
            };
            &&& outcome.writer.limit == writer.limit
            &&& outcome.writer.used == as_far_as_room(
                writer.used,
                writer.limit,
                seq![version, 0x7fu8, error, 0u8],
            )
            &&& outcome.status == if lost {
                Err::<(), SpdmStatus>(SpdmStatus::InvalidStateLocal)
            } else {
                Err(SpdmStatus::InvalidMsgField)
            }
            &&& outcome.trace == trace
            &&& outcome.context == (ContextView { resets: outcome.context.resets, ..context })
            &&& !matches_version ==> outcome.context.resets == context.resets
            &&& matches_version ==> {
                &&& outcome.context.resets.len() == context.resets.len() + 1
                &&& outcome.context.resets.drop_last() == context.resets
                &&& outcome.context.resets.last().request_code is SpdmRequestKeyUpdate
                &&& outcome.context.resets.last().session_id == Some(session_id)
            }
        }),
{
    law_version_of_byte_is_exact(bytes[0]);
    let version = context.negotiated.spdm_version_sel;
    let error = match key_update_verdict(context, session_id, bytes) {
        KeyUpdateVerdict::Unread { error, .. } => error,
        KeyUpdateVerdict::Refused { error, .. } => error,
        KeyUpdateVerdict::Accepted { .. } => SpdmErrorCode::SpdmErrorUnspecified,
    };
    lemma_error_is_written(writer, version, error, 0);
    let outcome = key_update_outcome(context, trace, writer, session_id, bytes, derived);
    assert(buffers_reset(context, session_id).resets.drop_last() =~= context.resets);
}

/// An error message is written as far as it has room.
pub proof fn law_error_is_written_as_far_as_room(
    writer: WriterView,
    version: SpdmVersion,
    error: SpdmErrorCode,
    data: u8,
)
    requires
        writer.used.len() <= writer.limit,
    ensures
        error_written(writer, version, error, data).limit == writer.limit,
        error_written(writer, version, error, data).used == as_far_as_room(
            writer.used,
            writer.limit,
            seq![version_byte(version), 0x7fu8, error_byte(error), data],
        ),
{
    lemma_error_is_written(writer, version, error, data);
}

proof fn lemma_error_is_written(
    writer: WriterView,
    version: SpdmVersion,
    error: SpdmErrorCode,
    data: u8,
)
    requires
        writer.used.len() <= writer.limit,
    ensures
        error_written(writer, version, error, data).limit == writer.limit,
        error_written(writer, version, error, data).used == as_far_as_room(
            writer.used,
            writer.limit,
            seq![version_byte(version), 0x7fu8, error_byte(error), data],
        ),
{
    let fields = message_fields(error_response(version, error, data), version);
    law_error_response_bytes(version, error, data);
    assert forall|i: int| 0 <= i < fields.len() implies (#[trigger] fields[i]).len() == 1 by {}
    law_single_bytes_fill_the_room(writer, fields);
    let all = writer.used + joined(fields);
    assert(all.take(all.len() as int) =~= all);
}

/// A request that is carried out is answered with four bytes: its version, 0x69, its
/// operation and its tag. With room for them it ends without an error; without, the
/// answer is cut off at the limit and it ends with an invalid local state.
pub proof fn law_carried_out_request_is_echoed<C>(
    context: ContextView,
    trace: TraceRuntimeView<C>,
    writer: WriterView,
    session_id: u32,
    bytes: Seq<u8>,
    derived: DerivedView,
)
    requires
        is_carried_out(context, session_id, bytes),
        writer.used.len() <= writer.limit,
    ensures
        ({
            let outcome = key_update_outcome(context, trace, writer, session_id, bytes, derived);
            &&& outcome.writer.limit == writer.limit
            &&& outcome.writer.used == as_far_as_room(
                writer.used,
                writer.limit,
                seq![bytes[0], 0x69u8, bytes[2], bytes[3]],
            )
            &&& outcome.status == if writer.used.len() + 4 <= writer.limit {
                Ok::<(), SpdmStatus>(())
            } else {
                Err(SpdmStatus::InvalidStateLocal)
            }
        }),
{
    law_version_of_byte_is_exact(bytes[0]);
    let version = context.negotiated.spdm_version_sel;
    match key_update_verdict(context, session_id, bytes) {
        KeyUpdateVerdict::Accepted { operation, tag } => {
            let fields = message_fields(key_update_ack(version, operation, tag), version);
            law_key_update_ack_bytes(version, operation, tag);
            assert forall|i: int| 0 <= i < fields.len() implies (#[trigger] fields[i]).len()
                == 1 by {}
            law_single_bytes_fill_the_room(writer, fields);
            let all = writer.used + joined(fields);
            assert(all.take(all.len() as int) =~= all);
            let written = put_fields(writer, fields);
            lemma_error_is_written(written, version, SpdmErrorCode::SpdmErrorUnspecified, 0);
            if !fits(writer, fields) {
                let error = SpdmErrorCode::SpdmErrorUnspecified;
                let more = seq![version_byte(version), 0x7fu8, error_byte(error), 0u8];
                assert((written.used + more).take(writer.limit as int) =~= written.used);
            }
        },
        _ => {},
    }
}

/// A request that is carried out changes the session it names, and no other one; it
/// queues one reset, for key updates of this session; and it changes nothing else of the
/// context. It does so with or without room for the answer.
pub proof fn law_carried_out_request_changes_its_session<C>(
    context: ContextView,
    trace: TraceRuntimeView<C>,
    writer: WriterView,
    session_id: u32,
    bytes: Seq<u8>,
    derived: DerivedView,
    slot: int,
)
    requires
        is_carried_out(context, session_id, bytes),
        0 <= slot < context.sessions.len(),
    ensures
        ({
            let after = key_update_outcome(
                context,
                trace,
                writer,
                session_id,
                bytes,
                derived,
            ).context;
            let operation = if bytes[2] == 1 {
                SpdmKeyUpdateOperation::SpdmUpdateSingleKey
            } else if bytes[2] == 2 {
                SpdmKeyUpdateOperation::SpdmUpdateAllKeys
            } else {
                SpdmKeyUpdateOperation::SpdmVerifyNewKey
            };
            &&& after == (ContextView {
                resets: after.resets,
                sessions: after.sessions,
                ..context
            })
            &&& after.resets.len() == context.resets.len() + 1
            &&& after.resets.drop_last() == context.resets
            &&& after.resets.last().request_code is SpdmRequestKeyUpdate
            &&& after.resets.last().session_id == Some(session_id)
            &&& after.sessions.len() == context.sessions.len()
            &&& after.sessions[slot] == if context.slot(session_id) == Some(slot as nat) {
                responder_session_after(context.sessions[slot], operation, derived)
            } else {
                context.sessions[slot]
            }
        }),
{
    law_version_of_byte_is_exact(bytes[0]);
    law_slot_is_the_first(context.sessions, session_id, 0);
    let reset = buffers_reset(context, session_id);
    assert(reset.resets.drop_last() =~= context.resets);
}

/// An update of one key puts the derived secret for requests in use and keeps the former
/// one as a backup; where none was derived, nothing changes. Responses are untouched.
pub proof fn law_single_update_moves_requests_on(session: SessionView, derived: DerivedView)
    ensures
        ({
            let after = responder_session_after(
                session,
                SpdmKeyUpdateOperation::SpdmUpdateSingleKey,
                derived,
            );
            &&& derived.request matches Some(secret) ==> after.secret.request == secret
                && after.backup.request == session.secret.request && after.requester_backup_valid
            &&& derived.request is None ==> after == session
            &&& after.secret.response == session.secret.response
            &&& after.backup.response == session.backup.response
            &&& after.responder_backup_valid == session.responder_backup_valid
            &&& keeps_identity(session, after)
        }),
{
}

/// Whether all but the secrets, the backups and the marks of a session is the same.
pub open spec fn keeps_identity(before: SessionView, after: SessionView) -> bool {
    &&& after.session_id == before.session_id
    &&& after.session_state == before.session_state
    &&& after.mut_auth_requested == before.mut_auth_requested
    &&& after.crypto_param == before.crypto_param
    &&& after.th1 == before.th1
    &&& after.th2 == before.th2
}

/// An update of all keys moves requests on as an update of one key does. It moves
/// responses on only where both secrets were derived, and in any case keeps no backup
/// for them.
pub proof fn law_full_update_moves_both_directions_on(session: SessionView, derived: DerivedView)
    ensures
        ({
            let after = responder_session_after(
                session,
                SpdmKeyUpdateOperation::SpdmUpdateAllKeys,
                derived,
            );
            &&& derived.request matches Some(secret) ==> after.secret.request == secret
                && after.backup.request == session.secret.request && after.requester_backup_valid
            &&& derived.request is None ==> after.secret.request == session.secret.request
                && after.backup.request == session.backup.request && after.requester_backup_valid
                == session.requester_backup_valid
            &&& derived.request is Some && derived.response is Some ==> after.secret.response
                == derived.response->0
            &&& derived.request is None || derived.response is None ==> after.secret.response
                == session.secret.response
            &&& after.backup.response.len() == 0 && !after.responder_backup_valid
            &&& keeps_identity(session, after)
        }),
{
}

/// A verification drops the backup for requests and keeps every secret in use. It needs
/// no derived secret.
pub proof fn law_verification_drops_the_backup(session: SessionView, derived: DerivedView)
    ensures
        ({
            let after = responder_session_after(
                session,
                SpdmKeyUpdateOperation::SpdmVerifyNewKey,
                derived,
            );
            &&& after.secret.request == session.secret.request
            &&& after.secret.response == session.secret.response
            &&& after.backup.request.len() == 0 && !after.requester_backup_valid
            &&& after.backup.response == session.backup.response
            &&& after.responder_backup_valid == session.responder_backup_valid
            &&& keeps_identity(session, after)
        }),
{
}

/// A key update that is carried out is counted by its operation and by whether all its
/// secrets were derived: 1 counts the request key, 2 counts it too and the response key
/// in any case, and 3 counts none. Requests that are refused count nothing. It can be
/// counted unless a number to count has reached its end.
pub proof fn law_carried_out_request_is_counted<C>(
    context: ContextView,
    trace: TraceRuntimeView<C>,
    writer: WriterView,
    session_id: u32,
    bytes: Seq<u8>,
    derived: DerivedView,
)
    ensures
        ({
            let done = is_carried_out(context, session_id, bytes);
            let single = done && bytes[2] == 1 && derived.request is Some;
            let both = done && bytes[2] == 2 && derived.request is Some && derived.response is Some;
            let req = one_if(single || both);
            let resp = one_if(done && bytes[2] == 2);
            let gens = trace.key_gens;
            let after = key_update_outcome(
                context,
                trace,
                writer,
                session_id,
                bytes,
                derived,
            ).trace.key_gens;
            let can = key_update_can_count(context, trace, session_id, bytes, derived);
            &&& can == (gens.rs_req + req <= 0xffff_ffff && gens.rs_resp + resp <= 0xffff_ffff)
            &&& can ==> after.rs_req == gens.rs_req + req && after.rs_resp == gens.rs_resp + resp
            &&& after.rq_req == gens.rq_req && after.rq_resp == gens.rq_resp
        }),
{
    law_version_of_byte_is_exact(bytes[0]);
}

/// The secrets of an operation are available where those of its directions were
/// derived.
pub proof fn law_secrets_of_an_operation(
    operation: SpdmKeyUpdateOperation,
    derived: DerivedView,
)
    ensures
        operation is SpdmUpdateSingleKey ==> secrets_available(operation, derived)
            == derived.request is Some,
        operation is SpdmUpdateAllKeys ==> secrets_available(operation, derived) == (
        derived.request is Some && derived.response is Some),
        operation is SpdmVerifyNewKey ==> secrets_available(operation, derived),
{
}

/// Whether the two events of a step were queued: behind all that was queued, for the
/// callback of the moment, the second one following the first.
pub open spec fn queues_two<C>(before: TraceRuntimeView<C>, after: TraceRuntimeView<C>) -> bool {
    let count = before.pending.len() as int;
    &&& before.callback is None ==> after.pending == before.pending
    &&& before.callback is Some ==> {
        &&& after.pending.len() == count + 2
        &&& after.pending.take(count) == before.pending
        &&& Some(after.pending[count].callback) == before.callback
        &&& Some(after.pending[count + 1].callback) == before.callback
        &&& !after.pending[count].follows
        &&& after.pending[count + 1].follows
    }
}

/// Whether this is how the trace reports an operation.
pub open spec fn reports_operation(
    op: Option<TraceKeyUpdateOp>,
    operation: SpdmKeyUpdateOperation,
) -> bool {
    op == Some(
        match operation {
            SpdmKeyUpdateOperation::SpdmUpdateSingleKey => TraceKeyUpdateOp::UpdateSingle,
            SpdmKeyUpdateOperation::SpdmUpdateAllKeys => TraceKeyUpdateOp::UpdateAll,
            SpdmKeyUpdateOperation::SpdmVerifyNewKey => TraceKeyUpdateOp::VerifyNewKey,
            SpdmKeyUpdateOperation::Unknown(_) => TraceKeyUpdateOp::VerifyNewKey,
        },
    )
}

/// An acknowledgement is traced by two events of the responder: one with its state, the
/// generations, the marks and the operation; and one with the session and the same
/// marks.
pub proof fn law_acknowledgement_is_traced_by_two_events<C>(
    trace: TraceRuntimeView<C>,
    context: ContextView,
    session_id: u32,
    operation: SpdmKeyUpdateOperation,
)
    ensures
        ({
            let after = acknowledgement_traced(trace, context, session_id, operation);
            let seen = observed_peer(trace, TraceRole::Responder, context, Some(session_id));
            let marks = backup_marks(context, Some(session_id));
            let count = trace.pending.len() as int;
            let first = after.pending[count].event;
            let second = after.pending[count + 1].event;
            &&& after == (TraceRuntimeView {
                responder_last: seen,
                pending: after.pending,
                ..trace
            })
            &&& queues_two(trace, after)
            &&& trace.callback is Some ==> {
                &&& first.name == "ResponderHandleKeyUpdate" && first.nid == "responder"
                &&& reports_operation(first.msg.op, operation)
                &&& first.msg == (TraceMessage { op: first.msg.op, ..no_message() })
                &&& first.r2 is None
                &&& first.state.responder == Some(seen) && first.state.requester is None
                &&& first.state.key_gens == Some(trace.key_gens)
                &&& first.state.req_backup_valid == Some(marks.0)
                &&& first.state.rsp_backup_valid == Some(marks.1)
                &&& second.name == "WriteSpdmKeyUpdateResponse" && second.nid == "responder"
                &&& second.state == no_snapshot() && second.msg == no_message()
                &&& second.r2 is Some
                &&& second.r2->0.session_id == Some(session_id)
                &&& second.r2->0.req_backup_valid == Some(marks.0)
                &&& second.r2->0.rsp_backup_valid == Some(marks.1)
                &&& second.r2->0 == (TraceR2View {
                    session_id: second.r2->0.session_id,
                    req_backup_valid: second.r2->0.req_backup_valid,
                    rsp_backup_valid: second.r2->0.rsp_backup_valid,
                    ..no_r2_fields()
                })
            }
        }),
{
    let after = acknowledgement_traced(trace, context, session_id, operation);
    if trace.callback is Some {
        assert(after.pending.take(trace.pending.len() as int) =~= trace.pending);
    }
}

/// A request that is carried out and has room for its answer is traced exactly so: the
/// update is counted first, and the two events see the context after it, and report the
/// operation of the third byte. Without room it is counted and nothing is queued.
pub proof fn law_carried_out_request_is_traced<C>(
    context: ContextView,
    trace: TraceRuntimeView<C>,
    writer: WriterView,
    session_id: u32,
    bytes: Seq<u8>,
    derived: DerivedView,
)
    requires
        is_carried_out(context, session_id, bytes),
        writer.used.len() <= writer.limit,
    ensures
        ({
            let outcome = key_update_outcome(context, trace, writer, session_id, bytes, derived);
            let after = outcome.trace;
            let session = outcome.context.find(session_id);
            let seen = observed_peer(
                trace,
                TraceRole::Responder,
                outcome.context,
                Some(session_id),
            );
            let count = trace.pending.len() as int;
            let first = after.pending[count].event;
            let second = after.pending[count + 1].event;
            let room = writer.used.len() + 4 <= writer.limit;
            &&& !room ==> after == (TraceRuntimeView { key_gens: after.key_gens, ..trace })
            &&& room ==> after == (TraceRuntimeView {
                key_gens: after.key_gens,
                responder_last: seen,
                pending: after.pending,
                ..trace
            }) && queues_two(trace, after)
            &&& room && trace.callback is Some ==> {
                &&& first.name == "ResponderHandleKeyUpdate" && first.nid == "responder"
                &&& bytes[2] == 1 ==> first.msg.op == Some(TraceKeyUpdateOp::UpdateSingle)
                &&& bytes[2] == 2 ==> first.msg.op == Some(TraceKeyUpdateOp::UpdateAll)
                &&& bytes[2] == 3 ==> first.msg.op == Some(TraceKeyUpdateOp::VerifyNewKey)
                &&& first.state.key_gens == Some(after.key_gens)
                &&& first.state.responder == Some(seen)
                &&& session is Some
                &&& first.state.req_backup_valid == Some(session->0.requester_backup_valid)
                &&& first.state.rsp_backup_valid == Some(session->0.responder_backup_valid)
                &&& second.name == "WriteSpdmKeyUpdateResponse"
                &&& second.r2 is Some
                &&& second.r2->0.session_id == Some(session_id)
                &&& second.r2->0.req_backup_valid == first.state.req_backup_valid
                &&& second.r2->0.rsp_backup_valid == first.state.rsp_backup_valid
            }
        }),
{
    law_version_of_byte_is_exact(bytes[0]);
    let version = context.negotiated.spdm_version_sel;
    let outcome = key_update_outcome(context, trace, writer, session_id, bytes, derived);
    match key_update_verdict(context, session_id, bytes) {
        KeyUpdateVerdict::Accepted { operation, tag } => {
            law_key_update_ack_bytes(version, operation, tag);
            let noted = operation_noted(trace, operation, derived);
            law_acknowledgement_is_traced_by_two_events(
                noted,
                outcome.context,
                session_id,
                operation,
            );
            law_slot_is_the_first(context.sessions, session_id, 0);
            law_replacing_keeps_slots(
                buffers_reset(context, session_id),
                session_id,
                responder_session_after(context.find(session_id)->0, operation, derived),
                session_id,
            );
        },
        _ => {},
    }
}

} // verus!
