//! A whole key update: the order of its messages, and what both sides hold
//! when it is over.

use vstd::prelude::*;

use crate::codec::empty_writer;
use crate::common::{law_replacing_keeps_slots, law_slot_is_the_first, ContextView};
use crate::error::{SpdmResult, SpdmStatus};
use crate::message::{
    key_update_request, law_key_update_request_bytes, law_key_update_round_trip, message_bytes,
    SpdmKeyUpdateOperation,
};
use crate::protocol::law_version_byte_round_trip;
use crate::requester::key_update_req::{
    key_update_response_outcome, request_traced, session_secrets_created, updates_requester,
    updates_responder, KeyUpdateResponseOutcome,
};
use crate::requester::ResponseHandling;
use crate::responder::key_update_rsp::{
    buffers_reset, key_update_outcome, law_accepted_request_is_acknowledged,
    responder_session_after, secrets_available, KeyUpdateOutcome,
};
use crate::session::{derivation_succeeds, secrets_created, secrets_settled, DerivedView};
use crate::spdm_trace::{
    ack_can_count, gens_after_ack, gens_after_response, gens_in_step, response_can_count,
    traced_operation, TraceRuntimeView,
};

verus! {

/// How far a key update has come.
#[derive(Clone, Copy, Debug, PartialEq, Eq, Structural)]
pub enum KeyUpdateStage {
    SendingUpdate,
    ReceivingUpdate,
    SendingVerification,
    ReceivingVerification,
    Finished,
}

/// What is to be done next.
#[derive(Clone, Copy, Debug, PartialEq, Eq)]
pub enum KeyUpdateAction {
    /// Send a request with this operation and this tag.
    Send { operation: SpdmKeyUpdateOperation, tag: u8 },
    /// Receive the answer to a request with this operation.
    Receive { operation: SpdmKeyUpdateOperation },
    /// The key update is over with this result.
    Finish { result: SpdmResult },
}

/// A key update under way.
#[derive(Clone, Copy, Debug, PartialEq, Eq, Structural)]
pub struct KeyUpdateExchange {
    pub operation: SpdmKeyUpdateOperation,
    pub stage: KeyUpdateStage,
}

/// The stage that follows one that went well.
pub open spec fn next_stage(stage: KeyUpdateStage) -> KeyUpdateStage {
    match stage {
        KeyUpdateStage::SendingUpdate => KeyUpdateStage::ReceivingUpdate,
        KeyUpdateStage::ReceivingUpdate => KeyUpdateStage::SendingVerification,
        KeyUpdateStage::SendingVerification => KeyUpdateStage::ReceivingVerification,
        KeyUpdateStage::ReceivingVerification => KeyUpdateStage::Finished,
        KeyUpdateStage::Finished => KeyUpdateStage::Finished,
    }
}

/// What is to be done at a stage that was reached without an error.
pub open spec fn stage_action(
    operation: SpdmKeyUpdateOperation,
    stage: KeyUpdateStage,
) -> KeyUpdateAction {
    match stage {
        KeyUpdateStage::SendingUpdate => KeyUpdateAction::Send { operation, tag: 1 },
        KeyUpdateStage::ReceivingUpdate => KeyUpdateAction::Receive { operation },
        KeyUpdateStage::SendingVerification => KeyUpdateAction::Send {
            operation: SpdmKeyUpdateOperation::SpdmVerifyNewKey,
            tag: 2,
        },
        KeyUpdateStage::ReceivingVerification => KeyUpdateAction::Receive {
            operation: SpdmKeyUpdateOperation::SpdmVerifyNewKey,
        },
        KeyUpdateStage::Finished => KeyUpdateAction::Finish { result: Ok(()) },
    }
}

/// The key update after a step with this result.
pub open spec fn advanced(exchange: KeyUpdateExchange, result: SpdmResult) -> KeyUpdateExchange {
    KeyUpdateExchange {
        stage: if result is Ok {
            next_stage(exchange.stage)
        } else {
            KeyUpdateStage::Finished
        },
        ..exchange
    }
}

/// What is to be done after a step with this result.
pub open spec fn action_after(exchange: KeyUpdateExchange, result: SpdmResult) -> KeyUpdateAction {
    match result {
        Ok(_) => stage_action(exchange.operation, next_stage(exchange.stage)),
        Err(status) => KeyUpdateAction::Finish { result: Err(status) },
    }
}

/// A key update at its start, and what is to be done first. Only an update of the
/// keys of one direction or of both is started.
pub open spec fn key_update_started(
    operation: SpdmKeyUpdateOperation,
) -> (KeyUpdateExchange, KeyUpdateAction) {
    if updates_requester(operation) {
        (
            KeyUpdateExchange { operation, stage: KeyUpdateStage::SendingUpdate },
            stage_action(operation, KeyUpdateStage::SendingUpdate),
        )
    } else {
        (
            KeyUpdateExchange { operation, stage: KeyUpdateStage::Finished },
            KeyUpdateAction::Finish { result: Err(SpdmStatus::InvalidMsgField) },
        )
    }
}

impl KeyUpdateExchange {
    /// Starts a key update with the operation of one direction or of both.
    pub fn start(operation: SpdmKeyUpdateOperation) -> (started: (
        KeyUpdateExchange,
        KeyUpdateAction,
    ))
        ensures
            started == key_update_started(operation),
    {
        match operation {
            SpdmKeyUpdateOperation::SpdmUpdateSingleKey
            | SpdmKeyUpdateOperation::SpdmUpdateAllKeys => (
                KeyUpdateExchange { operation, stage: KeyUpdateStage::SendingUpdate },
                KeyUpdateAction::Send { operation, tag: 1 },
            ),
            _ => (
                KeyUpdateExchange { operation, stage: KeyUpdateStage::Finished },
                KeyUpdateAction::Finish { result: Err(SpdmStatus::InvalidMsgField) },
            ),
        }
    }

    /// Goes on after a step that had this result. The first error ends the key
    /// update.
    pub fn advance(&mut self, result: SpdmResult) -> (action: KeyUpdateAction)
        requires
            old(self).stage !is Finished,
        ensures
            *final(self) == advanced(*old(self), result),
            action == action_after(*old(self), result),
    {
        if let Err(status) = result {
            self.stage = KeyUpdateStage::Finished;
            return KeyUpdateAction::Finish { result: Err(status) };
        }
        match self.stage {
            KeyUpdateStage::SendingUpdate => {
                self.stage = KeyUpdateStage::ReceivingUpdate;
                KeyUpdateAction::Receive { operation: self.operation }
            },
            KeyUpdateStage::ReceivingUpdate => {
                self.stage = KeyUpdateStage::SendingVerification;
                KeyUpdateAction::Send {
                    operation: SpdmKeyUpdateOperation::SpdmVerifyNewKey,
                    tag: 2,
                }
            },
            KeyUpdateStage::SendingVerification => {
                self.stage = KeyUpdateStage::ReceivingVerification;
                KeyUpdateAction::Receive { operation: SpdmKeyUpdateOperation::SpdmVerifyNewKey }
            },
            KeyUpdateStage::ReceivingVerification | KeyUpdateStage::Finished => {
                self.stage = KeyUpdateStage::Finished;
                KeyUpdateAction::Finish { result: Ok(()) }
            },
        }
    }
}

/// A key update whose steps all go well sends the operation with the first tag,
/// receives its answer, sends the verification with the second tag, receives its
/// answer, and is over.
pub proof fn law_key_update_order(operation: SpdmKeyUpdateOperation)
    ensures
        ({
            let ok = Ok::<(), SpdmStatus>(());
            let first = KeyUpdateExchange { operation, stage: KeyUpdateStage::SendingUpdate };
            let second = advanced(first, ok);
            let third = advanced(second, ok);
            let fourth = advanced(third, ok);
            &&& action_after(first, ok) == (KeyUpdateAction::Receive { operation })
            &&& action_after(second, ok) == (KeyUpdateAction::Send {
                operation: SpdmKeyUpdateOperation::SpdmVerifyNewKey,
                tag: 2,
            })
            &&& action_after(third, ok) == (KeyUpdateAction::Receive {
                operation: SpdmKeyUpdateOperation::SpdmVerifyNewKey,
            })
            &&& action_after(fourth, ok) == (KeyUpdateAction::Finish { result: ok })
            &&& advanced(fourth, ok).stage is Finished
        }),
{
}

/// The first step that fails ends the key update with its error.
pub proof fn law_first_error_ends_key_update(exchange: KeyUpdateExchange, status: SpdmStatus)
    ensures
        advanced(exchange, Err(status)).stage is Finished,
        action_after(exchange, Err(status)) == (KeyUpdateAction::Finish { result: Err(status) }),
{
}

/// Both sides after one request of a key update and its answer.
#[verifier::ext_equal]
pub struct RoundView<C> {
    pub responder: KeyUpdateOutcome<C>,
    pub requester: KeyUpdateResponseOutcome<C>,
}

/// One request of a key update and its answer, with nothing lost in between: the
/// requester resets its buffers, the responder answers the bytes of the request into
/// an empty writer, the requester traces what it sent, creates its secrets and
/// handles the bytes of the answer. Each side has the secrets that it derived.
pub open spec fn key_update_round<C>(
    requester: ContextView,
    responder: ContextView,
    trace: TraceRuntimeView<C>,
    limit: nat,
    session_id: u32,
    operation: SpdmKeyUpdateOperation,
    tag: u8,
    mine: DerivedView,
    theirs: DerivedView,
) -> RoundView<C> {
    let version = requester.negotiated.spdm_version_sel;
    let request = message_bytes(key_update_request(version, operation, tag), version);
    let prepared = buffers_reset(requester, session_id);
    let answered = key_update_outcome(
        responder,
        trace,
        empty_writer(limit),
        session_id,
        request,
        theirs,
    );
    RoundView {
        responder: answered,
        requester: key_update_response_outcome(
            session_secrets_created(
                prepared,
                session_id,
                updates_requester(operation),
                updates_responder(operation),
                mine,
            ),
            request_traced(answered.trace, prepared, session_id, operation),
            session_id,
            updates_requester(operation),
            updates_responder(operation),
            answered.writer.used,
        ),
    }
}

/// What one request of a key update and its answer lead to where the operation is
/// defined, both sides agree on the version and have the session, and the requester
/// derived its secrets.
proof fn lemma_key_update_round<C>(
    requester: ContextView,
    responder: ContextView,
    trace: TraceRuntimeView<C>,
    limit: nat,
    session_id: u32,
    operation: SpdmKeyUpdateOperation,
    tag: u8,
    mine: DerivedView,
    theirs: DerivedView,
)
    requires
        operation !is Unknown,
        limit >= 4,
        requester.negotiated.spdm_version_sel == responder.negotiated.spdm_version_sel,
        requester.find(session_id) is Some,
        responder.find(session_id) is Some,
        derivation_succeeds(updates_requester(operation), updates_responder(operation), mine),
    ensures
        ({
            let round = key_update_round(
                requester,
                responder,
                trace,
                limit,
                session_id,
                operation,
                tag,
                mine,
                theirs,
            );
            let op = traced_operation(operation);
            let created = secrets_created(
                requester.find(session_id)->0,
                updates_requester(operation),
                updates_responder(operation),
                mine,
            );
            &&& round.responder.status == Ok::<(), SpdmStatus>(())
            &&& round.requester.handling == ResponseHandling::Done(Ok(()))
            &&& round.responder.context.find(session_id) == Some(
                responder_session_after(responder.find(session_id)->0, operation, theirs),
            )
            &&& round.requester.context.find(session_id) == Some(
                secrets_settled(
                    created,
                    updates_requester(operation),
                    updates_responder(operation),
                    true,
                ),
            )
            &&& round.requester.trace.key_gens == gens_after_ack(
                gens_after_response(
                    trace.key_gens,
                    op,
                    secrets_available(operation, theirs),
                    true,
                ),
                op,
            )
            &&& round.requester.context.negotiated == requester.negotiated
            &&& round.responder.context.negotiated == responder.negotiated
        }),
{
    let version = requester.negotiated.spdm_version_sel;
    let request = message_bytes(key_update_request(version, operation, tag), version);
    law_key_update_round_trip(version, operation, tag);
    law_key_update_request_bytes(version, operation, tag);
    law_version_byte_round_trip(version);
    let writer = empty_writer(limit);
    law_accepted_request_is_acknowledged(responder, trace, writer, session_id, request, theirs);
    let answer = key_update_outcome(
        responder,
        trace,
        writer,
        session_id,
        request,
        theirs,
    ).writer.used;
    assert(answer =~= seq![request[0], 0x69u8, request[2], request[3]]);

    let reset = buffers_reset(responder, session_id);
    law_slot_is_the_first(responder.sessions, session_id, 0);
    law_replacing_keeps_slots(
        reset,
        session_id,
        responder_session_after(reset.find(session_id)->0, operation, theirs),
        session_id,
    );

    let prepared = buffers_reset(requester, session_id);
    let created = session_secrets_created(
        prepared,
        session_id,
        updates_requester(operation),
        updates_responder(operation),
        mine,
    );
    let created_session = secrets_created(
        requester.find(session_id)->0,
        updates_requester(operation),
        updates_responder(operation),
        mine,
    );
    law_slot_is_the_first(requester.sessions, session_id, 0);
    law_replacing_keeps_slots(prepared, session_id, created_session, session_id);
    law_replacing_keeps_slots(
        created,
        session_id,
        secrets_settled(
            created_session,
            updates_requester(operation),
            updates_responder(operation),
            true,
        ),
        session_id,
    );
}

/// Where both sides have the same secrets in use, count the same generations and
/// derive the same secrets, one request of a key update and its answer end without
/// an error on either side, and both sides again have the same secrets in use and
/// count the same generations. The requester keeps no backup for the directions of
/// the operation.
pub proof fn law_key_update_round_keeps_both_sides_equal<C>(
    requester: ContextView,
    responder: ContextView,
    trace: TraceRuntimeView<C>,
    limit: nat,
    session_id: u32,
    operation: SpdmKeyUpdateOperation,
    tag: u8,
    derived: DerivedView,
)
    requires
        operation !is Unknown,
        limit >= 4,
        requester.negotiated.spdm_version_sel == responder.negotiated.spdm_version_sel,
        requester.find(session_id) is Some,
        responder.find(session_id) is Some,
        requester.find(session_id)->0.secret == responder.find(session_id)->0.secret,
        derivation_succeeds(updates_requester(operation), updates_responder(operation), derived),
        gens_in_step(trace.key_gens),
        response_can_count(trace.key_gens, traced_operation(operation), true, true),
        ack_can_count(trace.key_gens, traced_operation(operation)),
    ensures
        ({
            let round = key_update_round(
                requester,
                responder,
                trace,
                limit,
                session_id,
                operation,
                tag,
                derived,
                derived,
            );
            let mine = round.requester.context.find(session_id);
            let theirs = round.responder.context.find(session_id);
            &&& round.responder.status == Ok::<(), SpdmStatus>(())
            &&& round.requester.handling == ResponseHandling::Done(Ok(()))
            &&& mine is Some
            &&& theirs is Some
            &&& mine->0.secret == theirs->0.secret
            &&& updates_requester(operation) ==> !mine->0.requester_backup_valid
            &&& updates_responder(operation) ==> !mine->0.responder_backup_valid
            &&& gens_in_step(round.requester.trace.key_gens)
        }),
{
    lemma_key_update_round(
        requester,
        responder,
        trace,
        limit,
        session_id,
        operation,
        tag,
        derived,
        derived,
    );
}

/// Where the responder could not derive the next secret for requests, an update of
/// the keys still ends without an error on both sides. The responder keeps its
/// secret for requests while the requester moves on to the next one, and counts one
/// generation more than the responder.
pub proof fn law_underived_update_parts_both_sides<C>(
    requester: ContextView,
    responder: ContextView,
    trace: TraceRuntimeView<C>,
    limit: nat,
    session_id: u32,
    operation: SpdmKeyUpdateOperation,
    tag: u8,
    mine: DerivedView,
    theirs: DerivedView,
)
    requires
        updates_requester(operation),
        limit >= 4,
        requester.negotiated.spdm_version_sel == responder.negotiated.spdm_version_sel,
        requester.find(session_id) is Some,
        responder.find(session_id) is Some,
        derivation_succeeds(true, updates_responder(operation), mine),
        theirs.request is None,
        gens_in_step(trace.key_gens),
        response_can_count(trace.key_gens, traced_operation(operation), false, true),
        ack_can_count(trace.key_gens, traced_operation(operation)),
    ensures
        ({
            let round = key_update_round(
                requester,
                responder,
                trace,
                limit,
                session_id,
                operation,
                tag,
                mine,
                theirs,
            );
            let gens = round.requester.trace.key_gens;
            &&& round.responder.status == Ok::<(), SpdmStatus>(())
            &&& round.requester.handling == ResponseHandling::Done(Ok(()))
            &&& round.requester.context.find(session_id)->0.secret.request == mine.request->0
            &&& round.responder.context.find(session_id)->0.secret.request == responder.find(
                session_id,
            )->0.secret.request
            &&& gens.rq_req == gens.rs_req + 1
        }),
{
    lemma_key_update_round(
        requester,
        responder,
        trace,
        limit,
        session_id,
        operation,
        tag,
        mine,
        theirs,
    );
}

/// A whole key update, the operation and its verification, ends without an error
/// on either side. Both sides then have the derived secrets in use for the
/// directions of the operation, keep no backup for them, and count the same
/// generations: one more for each of these directions.
pub proof fn law_whole_key_update_leaves_both_sides_equal<C>(
    requester: ContextView,
    responder: ContextView,
    trace: TraceRuntimeView<C>,
    limit: nat,
    session_id: u32,
    operation: SpdmKeyUpdateOperation,
    derived: DerivedView,
    ignored: DerivedView,
)
    requires
        updates_requester(operation),
        limit >= 4,
        requester.negotiated.spdm_version_sel == responder.negotiated.spdm_version_sel,
        requester.find(session_id) is Some,
        responder.find(session_id) is Some,
        requester.find(session_id)->0.secret == responder.find(session_id)->0.secret,
        derivation_succeeds(true, updates_responder(operation), derived),
        gens_in_step(trace.key_gens),
        response_can_count(trace.key_gens, traced_operation(operation), true, true),
        ack_can_count(trace.key_gens, traced_operation(operation)),
    ensures
        ({
            let update = key_update_round(
                requester,
                responder,
                trace,
                limit,
                session_id,
                operation,
                1,
                derived,
                derived,
            );
            let verification = key_update_round(
                update.requester.context,
                update.responder.context,
                update.requester.trace,
                limit,
                session_id,
                SpdmKeyUpdateOperation::SpdmVerifyNewKey,
                2,
                ignored,
                ignored,
            );
            let mine = verification.requester.context.find(session_id)->0;
            let theirs = verification.responder.context.find(session_id)->0;
            let gens = verification.requester.trace.key_gens;
            &&& update.requester.handling == ResponseHandling::Done(Ok(()))
            &&& verification.requester.handling == ResponseHandling::Done(Ok(()))
            &&& verification.responder.status == Ok::<(), SpdmStatus>(())
            &&& mine.secret == theirs.secret
            &&& mine.secret.request == derived.request->0
            &&& mine.secret.response == if updates_responder(operation) {
                derived.response->0
            } else {
                requester.find(session_id)->0.secret.response
            }
            &&& !mine.requester_backup_valid && !theirs.requester_backup_valid
            &&& updates_responder(operation) ==> !mine.responder_backup_valid
                && !theirs.responder_backup_valid
            &&& gens_in_step(gens)
            &&& gens.rq_req == trace.key_gens.rq_req + 1
            &&& gens.rq_resp == trace.key_gens.rq_resp + if updates_responder(operation) {
                1int
            } else {
                0int
            }
        }),
{
    let verify = SpdmKeyUpdateOperation::SpdmVerifyNewKey;
    lemma_key_update_round(
        requester,
        responder,
        trace,
        limit,
        session_id,
        operation,
        1,
        derived,
        derived,
    );
    let update = key_update_round(
        requester,
        responder,
        trace,
        limit,
        session_id,
        operation,
        1,
        derived,
        derived,
    );
    lemma_key_update_round(
        update.requester.context,
        update.responder.context,
        update.requester.trace,
        limit,
        session_id,
        verify,
        2,
        ignored,
        ignored,
    );
}

} // verus!
