//! A key update on the side that asks for it.

use vstd::prelude::*;

use crate::codec::{law_fitting_fields_fill_the_front, WriterView};
use crate::common::{law_slot_is_the_first, ContextView};
use crate::error::{SpdmResult, SpdmStatus};
use crate::laws::answers::{
    is_carried_out, law_acknowledgement_is_traced_by_two_events,
    law_carried_out_request_is_echoed, law_carried_out_request_is_traced, queues_two,
    reports_operation,
};
use crate::laws::bytes::law_written_buffer_keeps_its_rest;
use crate::laws::tracing::one_if;
use crate::message::{
    code_byte, key_update_request, law_key_update_request_bytes, message_bytes, message_fields,
    operation_byte, SpdmKeyUpdateOperation,
};
use crate::protocol::{law_version_of_byte_is_exact, version_byte};
use crate::requester::key_update_exchange::{
    action_after, advanced, key_update_started, KeyUpdateAction, KeyUpdateExchange,
};
use crate::requester::key_update_req::{
    ack_traced, expected_directions, key_update_ack_can_count, key_update_encoded,
    key_update_response_outcome, request_traced, rollback_traced, session_secrets_created,
    updates_requester, updates_responder,
};
use crate::requester::ResponseHandling;
use crate::responder::key_update_rsp::{acknowledgement_traced, buffers_reset, key_update_outcome};
use crate::session::{secrets_created, secrets_settled, DerivedView, SessionView};
use crate::spdm_trace::{
    backup_marks, no_message, no_r2_fields, no_snapshot, observed_peer, TraceErrorKind,
    TraceKeyUpdateOp, TraceMessage, TraceR2View, TraceRole, TraceRuntimeView,
};

verus! {

/// Both updates move requests on, an update of all keys moves responses on too, and
/// nothing else moves either.
pub proof fn law_operations_move_their_directions(operation: SpdmKeyUpdateOperation)
    ensures
        updates_requester(operation) == (operation_byte(operation) == 1 && !(operation is Unknown)
            || operation_byte(operation) == 2 && !(operation is Unknown)),
        updates_responder(operation) == (operation_byte(operation) == 2 && !(
        operation is Unknown)),
{
}

/// A request is written to the front of a buffer with room for it as four bytes: the
/// version agreed on, 0xe9, the operation and the tag. What follows stays. Without room
/// there is an error.
pub proof fn law_request_is_written_to_the_front(
    context: ContextView,
    operation: SpdmKeyUpdateOperation,
    tag: u8,
    buffer: Seq<u8>,
)
    ensures
        ({
            let version = version_byte(context.negotiated.spdm_version_sel);
            let (after, used) = key_update_encoded(context, operation, tag, buffer);
            &&& after.len() == buffer.len()
            &&& buffer.len() >= 4 ==> used is Ok && used->Ok_0 == 4 && after.take(4) == seq![
                version,
                0xe9u8,
                operation_byte(operation),
                tag,
            ] && after.skip(4) == buffer.skip(4)
            &&& buffer.len() < 4 ==> used == Err::<usize, SpdmStatus>(SpdmStatus::BufferFull)
        }),
{
    let version = context.negotiated.spdm_version_sel;
    let fields = message_fields(key_update_request(version, operation, tag), version);
    law_key_update_request_bytes(version, operation, tag);
    law_written_buffer_keeps_its_rest(buffer, fields);
    if buffer.len() >= 4 {
        law_fitting_fields_fill_the_front(buffer, fields);
    }
}

/// Preparing a request, and answering one, queues one reset, for key updates of this
/// session, and changes nothing else of the context.
pub proof fn law_request_resets_its_buffers(context: ContextView, session_id: u32)
    ensures
        ({
            let after = buffers_reset(context, session_id);
            &&& after == (ContextView { resets: after.resets, ..context })
            &&& after.resets.len() == context.resets.len() + 1
            &&& after.resets.drop_last() == context.resets
            &&& after.resets.last().request_code is SpdmRequestKeyUpdate
            &&& after.resets.last().session_id == Some(session_id)
        }),
{
    assert(buffers_reset(context, session_id).resets.drop_last() =~= context.resets);
}

/// A request that was sent is traced by exactly two events of the requester: the first
/// one reports the very operation that was sent, and the state of the requester without
/// keys; the second one names that same operation and the session. An operation that is
/// not defined is reported as a verification in both. Without a callback nothing is
/// queued, and the state is recorded all the same.
pub proof fn law_sent_request_is_traced_by_two_events<C>(
    trace: TraceRuntimeView<C>,
    context: ContextView,
    session_id: u32,
    operation: SpdmKeyUpdateOperation,
)
    ensures
        ({
            let after = request_traced(trace, context, session_id, operation);
            let seen = observed_peer(trace, TraceRole::Requester, context, Some(session_id));
            let count = trace.pending.len() as int;
            let first = after.pending[count].event;
            let second = after.pending[count + 1].event;
            &&& after == (TraceRuntimeView {
                requester_last: seen,
                pending: after.pending,
                ..trace
            })
            &&& queues_two(trace, after)
            &&& trace.callback is Some ==> {
                &&& first.name == "SendKeyUpdate" && first.nid == "requester"
                &&& operation is SpdmUpdateSingleKey ==> first.msg.op == Some(
                    TraceKeyUpdateOp::UpdateSingle,
                ) && second.r2->0.op == Some("OpUpdateSingle")
                &&& operation is SpdmUpdateAllKeys ==> first.msg.op == Some(
                    TraceKeyUpdateOp::UpdateAll,
                ) && second.r2->0.op == Some("OpUpdateAll")
                &&& operation is SpdmVerifyNewKey || operation is Unknown ==> first.msg.op == Some(
                    TraceKeyUpdateOp::VerifyNewKey,
                ) && second.r2->0.op == Some("OpVerifyNewKey")
                &&& first.msg == (TraceMessage { op: first.msg.op, ..no_message() })
                &&& first.r2 is None
                &&& first.state.requester == Some(seen) && first.state.responder is None
                &&& first.state.key_gens is None && first.state.req_backup_valid is None
                    && first.state.rsp_backup_valid is None
                &&& second.name == "RequesterSendKeyUpdate" && second.nid == "requester"
                &&& second.state == no_snapshot() && second.msg == no_message()
                &&& second.r2 is Some
                &&& second.r2->0.session_id == Some(session_id)
                &&& second.r2->0 == (TraceR2View {
                    session_id: second.r2->0.session_id,
                    op: second.r2->0.op,
                    ..no_r2_fields()
                })
            }
        }),
{
    let after = request_traced(trace, context, session_id, operation);
    if trace.callback is Some {
        assert(after.pending.take(trace.pending.len() as int) =~= trace.pending);
    }
}

/// An acknowledgement that was received is counted by its operation and traced by two
/// events of the requester: one with its state, the generations, the marks and the
/// operation; and one with the session and the same marks.
pub proof fn law_received_acknowledgement_is_traced_by_two_events<C>(
    trace: TraceRuntimeView<C>,
    context: ContextView,
    session_id: u32,
    operation: SpdmKeyUpdateOperation,
)
    ensures
        ({
            let after = ack_traced(trace, context, session_id, operation);
            let seen = observed_peer(trace, TraceRole::Requester, context, Some(session_id));
            let marks = backup_marks(context, Some(session_id));
            let count = trace.pending.len() as int;
            let first = after.pending[count].event;
            let second = after.pending[count + 1].event;
            let req = one_if(updates_requester(operation));
            let resp = one_if(updates_responder(operation));
            let gens = trace.key_gens;
            &&& after == (TraceRuntimeView {
                key_gens: after.key_gens,
                requester_last: seen,
                pending: after.pending,
                ..trace
            })
            &&& gens.rq_req + req <= 0xffff_ffff ==> after.key_gens.rq_req == gens.rq_req + req
            &&& gens.rq_resp + resp <= 0xffff_ffff ==> after.key_gens.rq_resp == gens.rq_resp
                + resp
            &&& after.key_gens.rs_req == gens.rs_req && after.key_gens.rs_resp == gens.rs_resp
            &&& queues_two(trace, after)
            &&& trace.callback is Some ==> {
                &&& first.name == "RequesterHandleKeyUpdateAck" && first.nid == "requester"
                &&& reports_operation(first.msg.op, operation)
                &&& first.msg == (TraceMessage { op: first.msg.op, ..no_message() })
                &&& first.r2 is None
                &&& first.state.requester == Some(seen) && first.state.responder is None
                &&& first.state.key_gens == Some(after.key_gens)
                &&& first.state.req_backup_valid == Some(marks.0)
                &&& first.state.rsp_backup_valid == Some(marks.1)
                &&& second.name == "HandleSpdmKeyUpdateResponse" && second.nid == "requester"
                &&& second.state == no_snapshot() && second.msg == no_message()
                &&& second.r2 is Some
                &&& second.r2->0.session_id == Some(session_id)
                &&& second.r2->0.req_backup_valid == Some(marks.0)
                &&& second.r2->0.rsp_backup_valid == Some(marks.1)
                &&& second.r2->0 == (TraceR2View {
                    session_id: second.r2->0.session_id,
                    req_backup_valid: second.r2->0.req_backup_valid,
                    rsp_backup_valid: second.r2->0.rsp_backup_valid,
                    ..no_r2_fields()
                })
            }
        }),
{
    let after = ack_traced(trace, context, session_id, operation);
    if trace.callback is Some {
        assert(after.pending.take(trace.pending.len() as int) =~= trace.pending);
    }
}

/// An operation is reported alike wherever it comes up: by the requester that sends it,
/// by the responder that carries it out, and by the requester that gets it acknowledged.
pub proof fn law_operation_is_reported_alike<C>(
    sending: TraceRuntimeView<C>,
    answering: TraceRuntimeView<C>,
    receiving: TraceRuntimeView<C>,
    requester: ContextView,
    responder: ContextView,
    settled: ContextView,
    session_id: u32,
    operation: SpdmKeyUpdateOperation,
)
    requires
        sending.callback is Some,
        answering.callback is Some,
        receiving.callback is Some,
    ensures
        ({
            let sent = request_traced(
                sending,
                requester,
                session_id,
                operation,
            ).pending[sending.pending.len() as int].event;
            let answered = acknowledgement_traced(
                answering,
                responder,
                session_id,
                operation,
            ).pending[answering.pending.len() as int].event;
            let received = ack_traced(
                receiving,
                settled,
                session_id,
                operation,
            ).pending[receiving.pending.len() as int].event;
            &&& sent.msg.op == answered.msg.op
            &&& answered.msg.op == received.msg.op
            &&& reports_operation(sent.msg.op, operation)
        }),
{
    law_sent_request_is_traced_by_two_events(sending, requester, session_id, operation);
    law_acknowledgement_is_traced_by_two_events(answering, responder, session_id, operation);
    law_received_acknowledgement_is_traced_by_two_events(
        receiving,
        settled,
        session_id,
        operation,
    );
}

/// The bytes of a request carry its operation to the responder, and the bytes of the
/// answer carry it back: where both sides agree on the version and have the session, the
/// responder reports the operation that the requester reported as sent, and so does the
/// requester when it handles the answer.
pub proof fn law_operation_travels_unchanged<C>(
    sending: TraceRuntimeView<C>,
    answering: TraceRuntimeView<C>,
    receiving: TraceRuntimeView<C>,
    requester: ContextView,
    responder: ContextView,
    writer: WriterView,
    session_id: u32,
    operation: SpdmKeyUpdateOperation,
    tag: u8,
    derived: DerivedView,
    update_requester: bool,
    update_responder: bool,
)
    requires
        sending.callback is Some,
        answering.callback is Some,
        receiving.callback is Some,
        operation !is Unknown,
        requester.negotiated.spdm_version_sel == responder.negotiated.spdm_version_sel,
        requester.find(session_id) is Some,
        responder.find(session_id) is Some,
        writer.used.len() == 0,
        writer.limit >= 4,
    ensures
        ({
            let version = requester.negotiated.spdm_version_sel;
            let request = message_bytes(key_update_request(version, operation, tag), version);
            let answer = key_update_outcome(
                responder,
                answering,
                writer,
                session_id,
                request,
                derived,
            );
            let handled = key_update_response_outcome(
                requester,
                receiving,
                session_id,
                update_requester,
                update_responder,
                answer.writer.used,
            );
            let sent = request_traced(
                sending,
                requester,
                session_id,
                operation,
            ).pending[sending.pending.len() as int].event;
            let answered = answer.trace.pending[answering.pending.len() as int].event;
            let received = handled.trace.pending[receiving.pending.len() as int].event;
            &&& answer.status == Ok::<(), SpdmStatus>(())
            &&& handled.handling == ResponseHandling::Done(Ok(()))
            &&& reports_operation(sent.msg.op, operation)
            &&& answered.msg.op == sent.msg.op
            &&& received.msg.op == sent.msg.op
        }),
{
    let version = requester.negotiated.spdm_version_sel;
    let request = message_bytes(key_update_request(version, operation, tag), version);
    law_key_update_request_bytes(version, operation, tag);
    law_sent_request_is_traced_by_two_events(sending, requester, session_id, operation);
    assert(is_carried_out(responder, session_id, request));
    law_carried_out_request_is_traced(
        responder,
        answering,
        writer,
        session_id,
        request,
        derived,
    );
    law_carried_out_request_is_echoed(
        responder,
        answering,
        writer,
        session_id,
        request,
        derived,
    );
    let answer = key_update_outcome(
        responder,
        answering,
        writer,
        session_id,
        request,
        derived,
    ).writer.used;
    assert(answer =~= seq![request[0], 0x69u8, request[2], request[3]]);
    law_version_of_byte_is_exact(answer[0]);
    law_acknowledgement_settles_the_new_secrets(
        requester,
        receiving,
        session_id,
        update_requester,
        update_responder,
        answer,
    );
}

/// Whether the bytes start as an answer of the version agreed on, with this code.
pub open spec fn starts_with(context: ContextView, bytes: Seq<u8>, code: u8) -> bool {
    &&& bytes.len() >= 2
    &&& bytes[0] == version_byte(context.negotiated.spdm_version_sel)
    &&& bytes[1] == code
}

/// The context with another session in place of the one with this id.
pub open spec fn replaces_session(
    before: ContextView,
    after: ContextView,
    session_id: u32,
    session: SessionView,
) -> bool {
    &&& after == (ContextView { sessions: after.sessions, ..before })
    &&& after.sessions.len() == before.sessions.len()
    &&& forall|slot: int|
        0 <= slot < before.sessions.len() ==> #[trigger] after.sessions[slot] == if before.slot(
            session_id,
        ) == Some(slot as nat) {
            session
        } else {
            before.sessions[slot]
        }
}

/// An acknowledgement of four bytes or more keeps the new secrets of a session that is
/// there, drops the backups of the named directions, and ends without an error. Its
/// third byte is the operation that is traced, whatever was asked for; its fourth byte
/// does not matter.
pub proof fn law_acknowledgement_settles_the_new_secrets<C>(
    context: ContextView,
    trace: TraceRuntimeView<C>,
    session_id: u32,
    update_requester: bool,
    update_responder: bool,
    bytes: Seq<u8>,
)
    requires
        starts_with(context, bytes, 0x69),
        bytes.len() >= 4,
        context.find(session_id) is Some,
    ensures
        ({
            let outcome = key_update_response_outcome(
                context,
                trace,
                session_id,
                update_requester,
                update_responder,
                bytes,
            );
            let operation = if bytes[2] == 1 {
                SpdmKeyUpdateOperation::SpdmUpdateSingleKey
            } else if bytes[2] == 2 {
                SpdmKeyUpdateOperation::SpdmUpdateAllKeys
            } else {
                SpdmKeyUpdateOperation::SpdmVerifyNewKey
            };
            let count = trace.pending.len() as int;
            &&& outcome.handling == ResponseHandling::Done(Ok(()))
            &&& replaces_session(
                context,
                outcome.context,
                session_id,
                secrets_settled(
                    context.find(session_id)->0,
                    update_requester,
                    update_responder,
                    true,
                ),
            )
            &&& outcome.trace == ack_traced(trace, outcome.context, session_id, operation)
            &&& trace.callback is Some ==> reports_operation(
                outcome.trace.pending[count].event.msg.op,
                operation,
            )
        }),
{
    law_version_of_byte_is_exact(bytes[0]);
    law_slot_is_the_first(context.sessions, session_id, 0);
}

/// An acknowledgement that ends before its fourth byte, and an error message, bring the
/// former secrets of a session back into use where it has a backup for each named
/// direction. The first one ends with an invalid field, the second one is handed on for
/// this session as an answer to a key update; each is traced with its own kind of error.
/// Without a backup nothing changes, and it ends with an invalid local state.
pub proof fn law_failed_update_brings_the_former_secrets_back<C>(
    context: ContextView,
    trace: TraceRuntimeView<C>,
    session_id: u32,
    update_requester: bool,
    update_responder: bool,
    bytes: Seq<u8>,
)
    requires
        starts_with(context, bytes, 0x69) && bytes.len() < 4 || starts_with(context, bytes, 0x7f),
        context.find(session_id) is Some,
    ensures
        ({
            let outcome = key_update_response_outcome(
                context,
                trace,
                session_id,
                update_requester,
                update_responder,
                bytes,
            );
            let session = context.find(session_id)->0;
            let present = (update_requester ==> session.requester_backup_valid) && (
            update_responder ==> session.responder_backup_valid);
            &&& !present ==> outcome.context == context && outcome.trace == trace
                && outcome.handling == ResponseHandling::Done(Err(SpdmStatus::InvalidStateLocal))
            &&& present ==> replaces_session(
                context,
                outcome.context,
                session_id,
                secrets_settled(session, update_requester, update_responder, false),
            )
            &&& present && bytes[1] == 0x69 ==> outcome.handling == ResponseHandling::Done(
                Err(SpdmStatus::InvalidMsgField),
            ) && outcome.trace == rollback_traced(
                trace,
                outcome.context,
                session_id,
                TraceErrorKind::Invalid,
            )
            &&& present && bytes[1] == 0x7f ==> outcome.trace == rollback_traced(
                trace,
                outcome.context,
                session_id,
                TraceErrorKind::Unexpected,
            ) && outcome.handling is ErrorResponse && {
                let call = outcome.handling->ErrorResponse_0;
                &&& call.session_id == Some(session_id)
                &&& code_byte(call.original_request) == 0xe9
                &&& code_byte(call.expected_response) == 0x69
                &&& !(call.original_request is Unknown) && !(call.expected_response is Unknown)
            }
        }),
{
    law_version_of_byte_is_exact(bytes[0]);
    law_slot_is_the_first(context.sessions, session_id, 0);
}

/// Secrets that come back are traced by one event of the requester, with its state, the
/// generations as they are, the marks, and what went wrong.
pub proof fn law_rollback_is_traced_by_one_event<C>(
    trace: TraceRuntimeView<C>,
    context: ContextView,
    session_id: u32,
    error: TraceErrorKind,
)
    ensures
        ({
            let after = rollback_traced(trace, context, session_id, error);
            let seen = observed_peer(trace, TraceRole::Requester, context, Some(session_id));
            let marks = backup_marks(context, Some(session_id));
            let delivery = after.pending.last();
            let event = delivery.event;
            &&& after == (TraceRuntimeView {
                requester_last: seen,
                pending: after.pending,
                ..trace
            })
            &&& trace.callback is None ==> after.pending == trace.pending
            &&& trace.callback is Some ==> {
                &&& after.pending.len() == trace.pending.len() + 1
                &&& after.pending.drop_last() == trace.pending
                &&& trace.callback == Some(delivery.callback) && !delivery.follows
                &&& event.name == "HandleSpdmKeyUpdateOpResponse" && event.nid == "requester"
                &&& event.msg == (TraceMessage { error: Some(error), ..no_message() })
                &&& event.r2 is None
                &&& event.state.requester == Some(seen) && event.state.responder is None
                &&& event.state.key_gens == Some(trace.key_gens)
                &&& event.state.req_backup_valid == Some(marks.0)
                &&& event.state.rsp_backup_valid == Some(marks.1)
            }
        }),
{
    let after = rollback_traced(trace, context, session_id, error);
    if trace.callback is Some {
        assert(after.pending.drop_last() =~= trace.pending);
    }
}

/// Every other answer changes nothing and traces nothing. One that does not start with
/// the version agreed on has an invalid field; an acknowledgement or an error message
/// for a session that is not there names an invalid parameter; anything else comes from
/// a peer in error.
pub proof fn law_other_answers_end_the_update<C>(
    context: ContextView,
    trace: TraceRuntimeView<C>,
    session_id: u32,
    update_requester: bool,
    update_responder: bool,
    bytes: Seq<u8>,
)
    requires
        context.find(session_id) is None || !(starts_with(context, bytes, 0x69) || starts_with(
            context,
            bytes,
            0x7f,
        )),
    ensures
        ({
            let outcome = key_update_response_outcome(
                context,
                trace,
                session_id,
                update_requester,
                update_responder,
                bytes,
            );
            let headed = bytes.len() >= 2 && bytes[0] == version_byte(
                context.negotiated.spdm_version_sel,
            );
            &&& outcome.context == context
            &&& outcome.trace == trace
            &&& !headed ==> outcome.handling == ResponseHandling::Done(
                Err(SpdmStatus::InvalidMsgField),
            )
            &&& headed && (bytes[1] == 0x69 || bytes[1] == 0x7f) ==> outcome.handling
                == ResponseHandling::Done(Err(SpdmStatus::InvalidParameter))
            &&& headed && bytes[1] != 0x69 && bytes[1] != 0x7f ==> outcome.handling
                == ResponseHandling::Done(Err(SpdmStatus::ErrorPeer))
        }),
{
    law_version_of_byte_is_exact(bytes[0]);
}

/// An answer can be counted unless it acknowledges an update of a session that is there
/// and a number to count has reached its end.
pub proof fn law_answer_can_be_counted<C>(
    context: ContextView,
    trace: TraceRuntimeView<C>,
    session_id: u32,
    bytes: Seq<u8>,
)
    ensures
        ({
            let settles = starts_with(context, bytes, 0x69) && bytes.len() >= 4 && context.find(
                session_id,
            ) is Some;
            let req = one_if(settles && (bytes[2] == 1 || bytes[2] == 2));
            let resp = one_if(settles && bytes[2] == 2);
            key_update_ack_can_count(context, trace, session_id, bytes) == (trace.key_gens.rq_req
                + req <= 0xffff_ffff && trace.key_gens.rq_resp + resp <= 0xffff_ffff)
        }),
{
    law_version_of_byte_is_exact(bytes[0]);
}

/// Before the answer comes, the secrets of the directions of the operation are created in
/// the session, and the directions are given back; without the session there is an
/// invalid parameter and nothing changes, and without the derived secrets a failed key
/// schedule.
pub proof fn law_expected_answer_has_its_secrets(
    context: ContextView,
    session_id: u32,
    operation: SpdmKeyUpdateOperation,
    derived: DerivedView,
)
    ensures
        ({
            let requests = operation is SpdmUpdateSingleKey || operation is SpdmUpdateAllKeys;
            let responses = operation is SpdmUpdateAllKeys;
            let after = session_secrets_created(
                context,
                session_id,
                requests,
                responses,
                derived,
            );
            let directions = expected_directions(context, session_id, operation, derived);
            let complete = (requests ==> derived.request is Some) && (responses
                ==> derived.response is Some);
            &&& context.find(session_id) is None ==> after == context && directions == Err::<
                (bool, bool),
                SpdmStatus,
            >(SpdmStatus::InvalidParameter)
            &&& context.find(session_id) matches Some(session) ==> replaces_session(
                context,
                after,
                session_id,
                secrets_created(session, requests, responses, derived),
            )
            &&& context.find(session_id) is Some && complete ==> directions == Ok::<
                (bool, bool),
                SpdmStatus,
            >((requests, responses))
            &&& context.find(session_id) is Some && !complete ==> directions == Err::<
                (bool, bool),
                SpdmStatus,
            >(SpdmStatus::CryptoError)
        }),
{
    law_slot_is_the_first(context.sessions, session_id, 0);
}

/// Only an update of the keys is started: it sends its operation with tag 1 first. It
/// goes on from stage to stage, sends the verification with tag 2 third, and is over
/// after the fifth stage is reached. Any other operation is over at once, with an
/// invalid field.
pub proof fn law_stages_of_a_key_update(
    operation: SpdmKeyUpdateOperation,
    exchange: KeyUpdateExchange,
    result: SpdmResult,
)
    ensures
        ({
            let (first, action) = key_update_started(operation);
            let starts = operation is SpdmUpdateSingleKey || operation is SpdmUpdateAllKeys;
            &&& first.operation == operation
            &&& starts ==> first.stage is SendingUpdate && action == (KeyUpdateAction::Send {
                operation,
                tag: 1,
            })
            &&& !starts ==> first.stage is Finished && action == (KeyUpdateAction::Finish {
                result: Err(SpdmStatus::InvalidMsgField),
            })
        }),
        ({
            let after = advanced(exchange, result);
            let action = action_after(exchange, result);
            &&& after.operation == exchange.operation
            &&& result matches Err(status) ==> after.stage is Finished && action == (
            KeyUpdateAction::Finish { result: Err(status) })
            &&& result is Ok && exchange.stage is SendingUpdate ==> after.stage is ReceivingUpdate
                && action == (KeyUpdateAction::Receive { operation: exchange.operation })
            &&& result is Ok && exchange.stage is ReceivingUpdate
                ==> after.stage is SendingVerification && action == (KeyUpdateAction::Send {
                operation: SpdmKeyUpdateOperation::SpdmVerifyNewKey,
                tag: 2,
            })
            &&& result is Ok && exchange.stage is SendingVerification
                ==> after.stage is ReceivingVerification && action == (KeyUpdateAction::Receive {
                operation: SpdmKeyUpdateOperation::SpdmVerifyNewKey,
            })
            &&& result is Ok && (exchange.stage is ReceivingVerification
                || exchange.stage is Finished) ==> after.stage is Finished && action == (
            KeyUpdateAction::Finish { result: Ok(()) })
        }),
{
}

} // verus!
