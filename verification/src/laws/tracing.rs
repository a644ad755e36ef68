//! What is noted, seen, queued and handed over.

use vstd::prelude::*;

use crate::common::{ContextView, SpdmConnectionState};
use crate::message::SpdmKeyUpdateOperation;
use crate::protocol::{
    version_byte, SpdmBaseHashAlgo, SpdmRequestCapabilityFlags, SpdmResponseCapabilityFlags,
    SpdmVersion,
};
use crate::session::SpdmSessionState;
use crate::spdm_trace::{
    ack_can_count, ack_noted, algo_text, backup_marks, bound, connection_noted,
    connection_state_text, data_secret_noted, drained, finish_event_emitted, fresh_runtime,
    gens_after_ack, gens_after_data_secret, gens_after_response, key_event_emitted,
    local_event_emitted, next_of, no_message, no_r2_fields, no_snapshot, observed_peer,
    operation_text, peer_noted, psk_mode, queued, r2_event, r2_event_emitted, r2_event_followed,
    receiver, registered, req_cap_names, response_can_count, response_noted, role_text,
    rsp_cap_names, session_state_text, state_event_emitted, traced_operation, traced_version,
    transcript_noted, unregistered, TraceDeliveryView, TraceEventView, TraceKeyGens,
    TraceKeyUpdateOp, TraceMessage, TracePeerState, TraceR2View, TraceRole, TraceRuntimeView,
    TraceTranscriptPhase,
};
use crate::trace_run::{step_taken, steps_taken, TraceStep};

verus! {

/// Noting a transcript sets that of the named side, and leaves the other side and all
/// the rest as it is.
pub proof fn law_noting_a_transcript_sets_that_side<C>(
    runtime: TraceRuntimeView<C>,
    role: TraceRole,
    phase: TraceTranscriptPhase,
)
    ensures
        ({
            let after = transcript_noted(runtime, role, phase);
            &&& role is Requester ==> after.requester_transcript == phase
                && after.responder_transcript == runtime.responder_transcript
            &&& role is Responder ==> after.responder_transcript == phase
                && after.requester_transcript == runtime.requester_transcript
            &&& after.callback == runtime.callback
            &&& after.requester_connection == runtime.requester_connection
            &&& after.key_gens == runtime.key_gens
            &&& after.requester_last == runtime.requester_last
            &&& after.responder_last == runtime.responder_last
            &&& after.pending == runtime.pending
        }),
{
}

/// Noting a connection state sets that of the requester; of the responder nothing is
/// noted. All the rest stays as it is.
pub proof fn law_noting_a_connection_sets_the_requester<C>(
    runtime: TraceRuntimeView<C>,
    role: TraceRole,
    connection_state: SpdmConnectionState,
)
    ensures
        ({
            let after = connection_noted(runtime, role, connection_state);
            &&& role is Requester ==> after.requester_connection == connection_state
            &&& role is Responder ==> after.requester_connection == runtime.requester_connection
            &&& after.callback == runtime.callback
            &&& after.requester_transcript == runtime.requester_transcript
            &&& after.responder_transcript == runtime.responder_transcript
            &&& after.key_gens == runtime.key_gens
            &&& after.requester_last == runtime.requester_last
            &&& after.responder_last == runtime.responder_last
            &&& after.pending == runtime.pending
        }),
{
}

/// 1 for yes and 0 for no.
pub open spec fn one_if(yes: bool) -> int {
    if yes {
        1
    } else {
        0
    }
}

/// A completed update counts the keys of the responder that it names and that did
/// change: both updates name the request direction, an update of all keys the response
/// direction too, and a verification names none. It can be counted unless a number to
/// count has reached its end.
pub proof fn law_completed_update_is_counted(
    gens: TraceKeyGens,
    op: TraceKeyUpdateOp,
    req_ok: bool,
    resp_ok: bool,
)
    ensures
        ({
            let after = gens_after_response(gens, op, req_ok, resp_ok);
            let req = one_if(req_ok && (op is UpdateSingle || op is UpdateAll));
            let resp = one_if(resp_ok && op is UpdateAll);
            &&& response_can_count(gens, op, req_ok, resp_ok) == (gens.rs_req + req
                <= 0xffff_ffff && gens.rs_resp + resp <= 0xffff_ffff)
            &&& response_can_count(gens, op, req_ok, resp_ok) ==> after.rs_req == gens.rs_req + req
                && after.rs_resp == gens.rs_resp + resp
            &&& after.rq_req == gens.rq_req && after.rq_resp == gens.rq_resp
        }),
{
}

/// An acknowledged update counts the keys of the requester that it names. It can be
/// counted unless a number to count has reached its end.
pub proof fn law_acknowledged_update_is_counted(gens: TraceKeyGens, op: TraceKeyUpdateOp)
    ensures
        ({
            let after = gens_after_ack(gens, op);
            let req = one_if(op is UpdateSingle || op is UpdateAll);
            let resp = one_if(op is UpdateAll);
            &&& ack_can_count(gens, op) == (gens.rq_req + req <= 0xffff_ffff && gens.rq_resp + resp
                <= 0xffff_ffff)
            &&& ack_can_count(gens, op) ==> after.rq_req == gens.rq_req + req && after.rq_resp
                == gens.rq_resp + resp
            &&& after.rs_req == gens.rs_req && after.rs_resp == gens.rs_resp
        }),
{
}

/// The first data secrets of a side are the first generation of both its keys, whatever
/// was counted before; those of the other side stay.
pub proof fn law_first_secrets_are_the_first_generation(gens: TraceKeyGens, role: TraceRole)
    ensures
        ({
            let after = gens_after_data_secret(gens, role);
            &&& role is Requester ==> after.rq_req == 1 && after.rq_resp == 1 && after.rs_req
                == gens.rs_req && after.rs_resp == gens.rs_resp
            &&& role is Responder ==> after.rs_req == 1 && after.rs_resp == 1 && after.rq_req
                == gens.rq_req && after.rq_resp == gens.rq_resp
        }),
{
}

/// Counting changes the generations and nothing else.
pub proof fn law_counting_changes_generations_alone<C>(
    runtime: TraceRuntimeView<C>,
    op: TraceKeyUpdateOp,
    req_ok: bool,
    resp_ok: bool,
    role: TraceRole,
)
    ensures
        ({
            let gens = gens_after_response(runtime.key_gens, op, req_ok, resp_ok);
            response_noted(runtime, op, req_ok, resp_ok) == (TraceRuntimeView {
                key_gens: gens,
                ..runtime
            })
        }),
        ({
            let gens = gens_after_ack(runtime.key_gens, op);
            ack_noted(runtime, op) == (TraceRuntimeView { key_gens: gens, ..runtime })
        }),
        ({
            let gens = gens_after_data_secret(runtime.key_gens, role);
            data_secret_noted(runtime, role) == (TraceRuntimeView { key_gens: gens, ..runtime })
        }),
{
}

/// A runtime that has seen nothing has no connection, empty transcripts, no keys and
/// nothing recorded of either side.
pub proof fn law_fresh_runtime_has_seen_nothing<C>(
    callback: Option<C>,
    pending: Seq<TraceDeliveryView<C>>,
)
    ensures
        ({
            let runtime = fresh_runtime(callback, pending);
            &&& runtime.callback == callback
            &&& runtime.pending == pending
            &&& runtime.requester_connection is SpdmConnectionNotStarted
            &&& runtime.requester_transcript is Empty
            &&& runtime.responder_transcript is Empty
            &&& runtime.key_gens.rq_req == 0 && runtime.key_gens.rq_resp == 0
            &&& runtime.key_gens.rs_req == 0 && runtime.key_gens.rs_resp == 0
            &&& runtime.requester_last.connection_state is None
            &&& runtime.requester_last.session_state is None
            &&& runtime.requester_last.transcript_phase is None
            &&& runtime.responder_last.connection_state is None
            &&& runtime.responder_last.session_state is None
            &&& runtime.responder_last.transcript_phase is None
        }),
{
}

/// Registering a callback and taking it back leave all that was noted and seen, and
/// every queued event with its callback; no queued event waits for another one then.
pub proof fn law_registering_keeps_what_is_queued<C>(
    runtime: TraceRuntimeView<C>,
    callback: C,
)
    ensures
        ({
            let with = registered(runtime, callback);
            let without = unregistered(runtime);
            &&& with.callback == Some(callback)
            &&& without.callback is None
            &&& with == (TraceRuntimeView {
                callback: with.callback,
                pending: with.pending,
                ..runtime
            })
            &&& without == (TraceRuntimeView {
                callback: without.callback,
                pending: without.pending,
                ..runtime
            })
            &&& with.pending == without.pending
            &&& with.pending.len() == runtime.pending.len()
            &&& forall|i: int|
                0 <= i < runtime.pending.len() ==> (#[trigger] with.pending[i]).callback
                    == runtime.pending[i].callback && with.pending[i].event
                    == runtime.pending[i].event && !with.pending[i].follows
            &&& bound(runtime.pending) == with.pending
            &&& drained(runtime).pending.len() == 0
            &&& drained(runtime) == (TraceRuntimeView {
                pending: drained(runtime).pending,
                ..runtime
            })
        }),
{
}

/// An event goes to the callback that it was queued for, unless it follows another
/// event: then it goes to the callback registered when its turn comes, or to none. The
/// events before the one that comes next follow another one and find no callback;
/// those behind it are left.
pub proof fn law_first_event_with_a_callback_is_next<C>(
    current: Option<C>,
    batch: Seq<TraceDeliveryView<C>>,
)
    ensures
        match next_of(current, batch) {
            (Some((callback, event)), rest) => {
                let i = batch.len() - rest.len() - 1;
                &&& 0 <= i < batch.len()
                &&& event == batch[i].event
                &&& !batch[i].follows ==> callback == batch[i].callback
                &&& batch[i].follows ==> current == Some(callback)
                &&& rest == batch.skip(i + 1)
                &&& forall|j: int| 0 <= j < i ==> (#[trigger] batch[j]).follows && current is None
            },
            (None, rest) => rest.len() == 0 && forall|j: int|
                0 <= j < batch.len() ==> (#[trigger] batch[j]).follows && current is None,
        },
    decreases batch.len(),
{
    if batch.len() > 0 {
        if receiver(current, batch[0]) is None {
            let behind = batch.drop_first();
            law_first_event_with_a_callback_is_next(current, behind);
            match next_of(current, behind) {
                (Some((callback, event)), rest) => {
                    let i = behind.len() - rest.len() - 1;
                    assert(behind[i] == batch[i + 1]);
                    assert(rest =~= batch.skip(i + 2));
                    assert forall|j: int| 0 <= j < i + 1 implies (#[trigger] batch[j]).follows
                        && current is None by {
                        if j > 0 {
                            assert(behind[j - 1] == batch[j]);
                        }
                    }
                },
                (None, rest) => {
                    assert forall|j: int| 0 <= j < batch.len() implies (
                    #[trigger] batch[j]).follows && current is None by {
                        if j > 0 {
                            assert(behind[j - 1] == batch[j]);
                        }
                    }
                },
            }
        } else {
            assert(batch.drop_first() =~= batch.skip(1));
        }
    }
}

/// What is seen of a side: the transcript noted for that side; the connection state
/// noted for the requester, or the one in the context of the responder; and the state
/// of the named session, or of the last one where none is named. A session that is not
/// there has not started.
pub proof fn law_observation_tells_the_side<C>(
    runtime: TraceRuntimeView<C>,
    role: TraceRole,
    context: ContextView,
    session_id: Option<u32>,
)
    ensures
        ({
            let seen = observed_peer(runtime, role, context, session_id);
            let id = if session_id is Some {
                session_id
            } else {
                context.last_session_id
            };
            &&& role is Requester ==> seen.transcript_phase == Some(runtime.requester_transcript)
                && seen.connection_state == Some(runtime.requester_connection)
            &&& role is Responder ==> seen.transcript_phase == Some(runtime.responder_transcript)
                && seen.connection_state == Some(context.connection_state)
            &&& seen.session_state is Some
            &&& id is Some && context.find(id->0) is Some ==> seen.session_state == Some(
                context.find(id->0)->0.session_state,
            )
            &&& id is None || context.find(id->0) is None
                ==> seen.session_state->0 is SpdmSessionNotStarted
        }),
{
}

/// What is recorded of a side replaces its record, and nothing else.
pub proof fn law_recording_replaces_one_record<C>(
    runtime: TraceRuntimeView<C>,
    role: TraceRole,
    peer: TracePeerState,
)
    ensures
        ({
            let after = peer_noted(runtime, role, peer);
            &&& role is Requester ==> after.requester_last == peer && after.responder_last
                == runtime.responder_last
            &&& role is Responder ==> after.responder_last == peer && after.requester_last
                == runtime.requester_last
            &&& after == (TraceRuntimeView {
                requester_last: after.requester_last,
                responder_last: after.responder_last,
                ..runtime
            })
        }),
{
}

/// With a callback an event is queued last, for that callback; without one it is not
/// queued. Nothing else changes.
pub proof fn law_event_is_queued_last<C>(
    runtime: TraceRuntimeView<C>,
    event: TraceEventView,
    follows: bool,
)
    ensures
        ({
            let after = queued(runtime, event, follows);
            &&& runtime.callback is None ==> after == runtime
            &&& runtime.callback is Some ==> after.pending.len() == runtime.pending.len() + 1
                && after.pending.drop_last() == runtime.pending && Some(
                after.pending.last().callback,
            ) == runtime.callback && after.pending.last().event == event
                && after.pending.last().follows == follows
            &&& after == (TraceRuntimeView { pending: after.pending, ..runtime })
        }),
{
    let after = queued(runtime, event, follows);
    if runtime.callback is Some {
        assert(after.pending.drop_last() =~= runtime.pending);
    }
}

/// The marks of a valid backup that an event reports are those of the session that it
/// names, each in its place; both are off where it names none or there is none.
pub proof fn law_marks_are_those_of_the_session(context: ContextView, session_id: Option<u32>)
    ensures
        session_id is Some && context.find(session_id->0) is Some ==> backup_marks(
            context,
            session_id,
        ).0 == context.find(session_id->0)->0.requester_backup_valid && backup_marks(
            context,
            session_id,
        ).1 == context.find(session_id->0)->0.responder_backup_valid,
        session_id is None || context.find(session_id->0) is None ==> !backup_marks(
            context,
            session_id,
        ).0 && !backup_marks(context, session_id).1,
{
}

/// An event about the state of a side carries its name, that side, and its message. It
/// reports that side as it is seen now; the other side as recorded before, and only
/// where asked for; the generations and the two marks only where asked for. What is
/// seen is recorded, with or without a callback.
pub proof fn law_state_event_reports_its_side<C>(
    runtime: TraceRuntimeView<C>,
    role: TraceRole,
    context: ContextView,
    session_id: Option<u32>,
    name: &'static str,
    msg: TraceMessage,
    with_remote: bool,
    with_keys: bool,
)
    ensures
        ({
            let after = state_event_emitted(
                runtime,
                role,
                context,
                session_id,
                name,
                msg,
                with_remote,
                with_keys,
            );
            let seen = observed_peer(runtime, role, context, session_id);
            let delivery = after.pending.last();
            let state = delivery.event.state;
            &&& after == (TraceRuntimeView {
                pending: after.pending,
                ..peer_noted(runtime, role, seen)
            })
            &&& runtime.callback is None ==> after.pending == runtime.pending
            &&& runtime.callback is Some ==> {
                &&& after.pending.len() == runtime.pending.len() + 1
                &&& after.pending.drop_last() == runtime.pending
                &&& runtime.callback == Some(delivery.callback)
                &&& !delivery.follows
                &&& delivery.event.name == name
                &&& delivery.event.msg == msg
                &&& delivery.event.r2 is None
                &&& role is Requester ==> delivery.event.nid == "requester" && state.requester
                    == Some(seen) && state.responder == if with_remote {
                    Some(runtime.responder_last)
                } else {
                    None
                }
                &&& role is Responder ==> delivery.event.nid == "responder" && state.responder
                    == Some(seen) && state.requester == if with_remote {
                    Some(runtime.requester_last)
                } else {
                    None
                }
                &&& with_keys ==> state.key_gens == Some(runtime.key_gens)
                    && state.req_backup_valid == Some(backup_marks(context, session_id).0)
                    && state.rsp_backup_valid == Some(backup_marks(context, session_id).1)
                &&& !with_keys ==> state.key_gens is None && state.req_backup_valid is None
                    && state.rsp_backup_valid is None
            }
        }),
{
    let after = state_event_emitted(
        runtime,
        role,
        context,
        session_id,
        name,
        msg,
        with_remote,
        with_keys,
    );
    if runtime.callback is Some {
        assert(after.pending.drop_last() =~= runtime.pending);
    }
}

/// A local event reports its side alone; a key event its side and the keys; a finish
/// event both sides, without keys and without a message.
pub proof fn law_kinds_of_state_events<C>(
    runtime: TraceRuntimeView<C>,
    role: TraceRole,
    context: ContextView,
    session_id: Option<u32>,
    id: u32,
    name: &'static str,
    msg: TraceMessage,
)
    requires
        runtime.callback is Some,
    ensures
        ({
            let event = local_event_emitted(
                runtime,
                role,
                context,
                session_id,
                name,
                msg,
            ).pending.last().event;
            &&& event.name == name && event.msg == msg && event.r2 is None
            &&& event.state.requester is Some == (role is Requester)
            &&& event.state.responder is Some == (role is Responder)
            &&& event.state.key_gens is None && event.state.req_backup_valid is None
                && event.state.rsp_backup_valid is None
        }),
        ({
            let event = key_event_emitted(
                runtime,
                role,
                context,
                id,
                name,
                msg,
            ).pending.last().event;
            &&& event.name == name && event.msg == msg && event.r2 is None
            &&& event.state.requester is Some == (role is Requester)
            &&& event.state.responder is Some == (role is Responder)
            &&& event.state.key_gens == Some(runtime.key_gens)
            &&& event.state.req_backup_valid == Some(backup_marks(context, Some(id)).0)
            &&& event.state.rsp_backup_valid == Some(backup_marks(context, Some(id)).1)
        }),
        ({
            let event = finish_event_emitted(
                runtime,
                role,
                context,
                id,
                name,
            ).pending.last().event;
            &&& event.name == name && event.r2 is None
            &&& event.msg == no_message()
            &&& event.state.requester is Some && event.state.responder is Some
            &&& event.state.key_gens is None && event.state.req_backup_valid is None
                && event.state.rsp_backup_valid is None
        }),
{
}

/// All kinds of events about the state of a side record what is seen of it, for the
/// session that they name, and change nothing else but the queue.
pub proof fn law_state_events_record_their_side<C>(
    runtime: TraceRuntimeView<C>,
    role: TraceRole,
    context: ContextView,
    session_id: Option<u32>,
    id: u32,
    name: &'static str,
    msg: TraceMessage,
)
    ensures
        ({
            let after = local_event_emitted(runtime, role, context, session_id, name, msg);
            let seen = observed_peer(runtime, role, context, session_id);
            &&& after == (TraceRuntimeView {
                pending: after.pending,
                ..peer_noted(runtime, role, seen)
            })
            &&& runtime.callback is Some ==> {
                let state = after.pending.last().event.state;
                role is Requester && state.requester == Some(seen) || role is Responder
                    && state.responder == Some(seen)
            }
        }),
        ({
            let after = key_event_emitted(runtime, role, context, id, name, msg);
            let seen = observed_peer(runtime, role, context, Some(id));
            &&& after == (TraceRuntimeView {
                pending: after.pending,
                ..peer_noted(runtime, role, seen)
            })
            &&& runtime.callback is Some ==> {
                let state = after.pending.last().event.state;
                role is Requester && state.requester == Some(seen) || role is Responder
                    && state.responder == Some(seen)
            }
        }),
        ({
            let after = finish_event_emitted(runtime, role, context, id, name);
            let seen = observed_peer(runtime, role, context, Some(id));
            &&& after == (TraceRuntimeView {
                pending: after.pending,
                ..peer_noted(runtime, role, seen)
            })
            &&& runtime.callback is Some ==> {
                let state = after.pending.last().event.state;
                &&& role is Requester ==> state.requester == Some(seen) && state.responder == Some(
                    runtime.responder_last,
                )
                &&& role is Responder ==> state.responder == Some(seen) && state.requester == Some(
                    runtime.requester_last,
                )
            }
        }),
{
}

/// An event with further fields carries its name, its side and those fields, and
/// neither a state nor a message. It follows another event exactly where it is said to.
pub proof fn law_further_fields_are_carried<C>(
    runtime: TraceRuntimeView<C>,
    role: TraceRole,
    name: &'static str,
    r2: TraceR2View,
)
    ensures
        ({
            let first = r2_event_emitted(runtime, role, name, r2);
            let following = r2_event_followed(runtime, role, name, r2);
            let event = r2_event(role, name, r2);
            &&& event.name == name
            &&& event.r2 == Some(r2)
            &&& role is Requester ==> event.nid == "requester"
            &&& role is Responder ==> event.nid == "responder"
            &&& event.state == no_snapshot() && event.msg == no_message()
            &&& runtime.callback is None ==> first == runtime && following == runtime
            &&& runtime.callback is Some ==> {
                let one = TraceDeliveryView {
                    callback: runtime.callback->0,
                    event,
                    follows: false,
                };
                let other = TraceDeliveryView { follows: true, ..one };
                &&& first.pending == runtime.pending + seq![one]
                &&& following.pending == runtime.pending + seq![other]
            }
            &&& first == (TraceRuntimeView { pending: first.pending, ..runtime })
            &&& following == (TraceRuntimeView { pending: following.pending, ..runtime })
        }),
{
}

/// An empty message, an empty snapshot and empty further fields hold nothing at all.
pub proof fn law_empty_parts_hold_nothing(role: TraceRole)
    ensures
        ({
            let msg = no_message();
            &&& msg.version is None && msg.slot is None && msg.op is None
            &&& msg.slot_mask is None && msg.error is None && msg.hmac_ok is None
            &&& msg.data_secret_ok is None && msg.req_ok is None && msg.resp_ok is None
        }),
        ({
            let state = no_snapshot();
            &&& state.requester is None && state.responder is None && state.key_gens is None
            &&& state.req_backup_valid is None && state.rsp_backup_valid is None
        }),
        ({
            let r2 = no_r2_fields();
            &&& r2.req_connection_state is None && r2.rsp_connection_state is None
            &&& r2.negotiated_version is None && r2.req_caps is None && r2.rsp_caps is None
            &&& r2.req_capabilities is None && r2.rsp_capabilities is None
            &&& r2.proposed is None && r2.rsp_supported is None && r2.negotiated_algo is None
            &&& r2.session_id is None && r2.session_state is None && r2.session_slot is None
            &&& r2.req_backup_valid is None && r2.rsp_backup_valid is None
            &&& r2.op is None && r2.error is None && r2.session_mode is None
            &&& r2.psk_cap_mode is None && r2.mut_auth_mode is None && r2.mut_auth_done is None
            &&& r2.encap_state is None && r2.chunk_status is None && r2.chunk_seq_num is None
            &&& r2.chunk_handle is None && r2.chunk_session_id is None
        }),
        role is Requester ==> role_text(role) == "requester",
        role is Responder ==> role_text(role) == "responder",
{
}

/// Whether a step notes no transcript of a side and forgets nothing.
pub open spec fn keeps_transcript<C>(step: TraceStep<C>, role: TraceRole) -> bool {
    &&& !(step is ResetShadowState || step is NoteReset)
    &&& step matches TraceStep::NoteTranscript { role: other, .. } ==> other != role
}

/// From the moment that a transcript is noted for a side, every observation and every
/// event of that side reports it, with or without keys, with or without the other
/// side, whatever happens in between, until another one is noted for that side or all
/// is forgotten.
pub proof fn law_last_noted_transcript_is_reported<C>(
    runtime: TraceRuntimeView<C>,
    role: TraceRole,
    phase: TraceTranscriptPhase,
    since: Seq<TraceStep<C>>,
    context: ContextView,
    session_id: Option<u32>,
    name: &'static str,
    msg: TraceMessage,
    with_remote: bool,
    with_keys: bool,
)
    requires
        forall|i: int| 0 <= i < since.len() ==> keeps_transcript(#[trigger] since[i], role),
    ensures
        ({
            let noted = step_taken(runtime, TraceStep::NoteTranscript { role, phase });
            let before = steps_taken(noted, since);
            let seen = step_taken(before, TraceStep::Observe { role, context, session_id });
            let told = step_taken(
                before,
                TraceStep::StateEvent {
                    role,
                    context,
                    session_id,
                    name,
                    msg,
                    with_remote,
                    with_keys,
                },
            );
            let event = told.pending.last().event;
            &&& observed_peer(before, role, context, session_id).transcript_phase == Some(phase)
            &&& role is Requester ==> {
                &&& seen.requester_last.transcript_phase == Some(phase)
                &&& told.requester_last.transcript_phase == Some(phase)
                &&& before.callback is Some ==> event.state.requester is Some
                    && event.state.requester->0.transcript_phase == Some(phase)
            }
            &&& role is Responder ==> {
                &&& seen.responder_last.transcript_phase == Some(phase)
                &&& told.responder_last.transcript_phase == Some(phase)
                &&& before.callback is Some ==> event.state.responder is Some
                    && event.state.responder->0.transcript_phase == Some(phase)
            }
        }),
{
    lemma_transcript_stays(
        step_taken(runtime, TraceStep::NoteTranscript { role, phase }),
        role,
        phase,
        since,
    );
}

proof fn lemma_transcript_stays<C>(
    runtime: TraceRuntimeView<C>,
    role: TraceRole,
    phase: TraceTranscriptPhase,
    steps: Seq<TraceStep<C>>,
)
    requires
        forall|i: int| 0 <= i < steps.len() ==> keeps_transcript(#[trigger] steps[i], role),
        role is Requester ==> runtime.requester_transcript == phase,
        role is Responder ==> runtime.responder_transcript == phase,
    ensures
        role is Requester ==> steps_taken(runtime, steps).requester_transcript == phase,
        role is Responder ==> steps_taken(runtime, steps).responder_transcript == phase,
    decreases steps.len(),
{
    if steps.len() > 0 {
        let front = steps.drop_last();
        assert forall|i: int| 0 <= i < front.len() implies keeps_transcript(
            #[trigger] front[i],
            role,
        ) by {
            assert(front[i] == steps[i]);
        }
        lemma_transcript_stays(runtime, role, phase, front);
        assert(keeps_transcript(steps[steps.len() - 1], role));
    }
}

/// Whether a step notes no connection state of the requester and forgets nothing.
pub open spec fn keeps_connection<C>(step: TraceStep<C>) -> bool {
    &&& !(step is ResetShadowState || step is NoteReset)
    &&& step matches TraceStep::NoteConnection { role, .. } ==> role is Responder
}

/// From the moment that a connection state is noted for the requester, every
/// observation and every event of the requester reports it, whatever its context says,
/// until another one is noted for it or all is forgotten. What the responder reports is
/// the connection state in its own context, whatever was noted.
pub proof fn law_last_noted_connection_is_reported<C>(
    runtime: TraceRuntimeView<C>,
    connection_state: SpdmConnectionState,
    since: Seq<TraceStep<C>>,
    context: ContextView,
    session_id: Option<u32>,
    name: &'static str,
    msg: TraceMessage,
    with_remote: bool,
    with_keys: bool,
)
    requires
        forall|i: int| 0 <= i < since.len() ==> keeps_connection(#[trigger] since[i]),
    ensures
        ({
            let noted = step_taken(
                runtime,
                TraceStep::NoteConnection { role: TraceRole::Requester, connection_state },
            );
            let before = steps_taken(noted, since);
            let seen = step_taken(
                before,
                TraceStep::Observe { role: TraceRole::Requester, context, session_id },
            );
            let told = step_taken(
                before,
                TraceStep::StateEvent {
                    role: TraceRole::Requester,
                    context,
                    session_id,
                    name,
                    msg,
                    with_remote,
                    with_keys,
                },
            );
            let answered = step_taken(
                before,
                TraceStep::StateEvent {
                    role: TraceRole::Responder,
                    context,
                    session_id,
                    name,
                    msg,
                    with_remote,
                    with_keys,
                },
            );
            &&& observed_peer(
                before,
                TraceRole::Requester,
                context,
                session_id,
            ).connection_state == Some(connection_state)
            &&& seen.requester_last.connection_state == Some(connection_state)
            &&& told.requester_last.connection_state == Some(connection_state)
            &&& answered.responder_last.connection_state == Some(context.connection_state)
            &&& before.callback is Some ==> {
                let requester = told.pending.last().event.state.requester;
                let responder = answered.pending.last().event.state.responder;
                &&& requester is Some && requester->0.connection_state == Some(connection_state)
                &&& responder is Some && responder->0.connection_state == Some(
                    context.connection_state,
                )
            }
        }),
{
    lemma_connection_stays(
        step_taken(
            runtime,
            TraceStep::NoteConnection { role: TraceRole::Requester, connection_state },
        ),
        since,
    );
}

proof fn lemma_connection_stays<C>(runtime: TraceRuntimeView<C>, steps: Seq<TraceStep<C>>)
    requires
        forall|i: int| 0 <= i < steps.len() ==> keeps_connection(#[trigger] steps[i]),
    ensures
        steps_taken(runtime, steps).requester_connection == runtime.requester_connection,
    decreases steps.len(),
{
    if steps.len() > 0 {
        let front = steps.drop_last();
        assert forall|i: int| 0 <= i < front.len() implies keeps_connection(
            #[trigger] front[i],
        ) by {
            assert(front[i] == steps[i]);
        }
        lemma_connection_stays(runtime, front);
        assert(keeps_connection(steps[steps.len() - 1]));
    }
}

/// The names of the capabilities of a requester stand in a fixed order, each exactly
/// where its flag is set, and no others.
pub proof fn law_requester_capabilities_are_named(flags: SpdmRequestCapabilityFlags)
    ensures
        ({
            let names = req_cap_names(flags);
            let hbeat = flags.has(SpdmRequestCapabilityFlags::HBEAT_CAP);
            let key_upd = flags.has(SpdmRequestCapabilityFlags::KEY_UPD_CAP);
            let clear = flags.has(SpdmRequestCapabilityFlags::HANDSHAKE_IN_THE_CLEAR_CAP);
            let psk = flags.has(SpdmRequestCapabilityFlags::PSK_CAP);
            let mut_auth = flags.has(SpdmRequestCapabilityFlags::MUT_AUTH_CAP);
            let chunk = flags.has(SpdmRequestCapabilityFlags::CHUNK_CAP);
            let a = one_if(hbeat);
            let b = a + one_if(key_upd);
            let c = b + one_if(clear);
            let d = c + one_if(psk);
            let e = d + one_if(mut_auth);
            &&& names.len() == e + one_if(chunk)
            &&& hbeat ==> names[0] == "HBEAT_CAP"
            &&& key_upd ==> names[a] == "KEY_UPD_CAP"
            &&& clear ==> names[b] == "HANDSHAKE_IN_THE_CLEAR_CAP"
            &&& psk ==> names[c] == "PSK_CAP"
            &&& mut_auth ==> names[d] == "MUT_AUTH_CAP"
            &&& chunk ==> names[e] == "CHUNK_CAP"
        }),
{
}

/// The names of the capabilities of a responder stand in a fixed order, each exactly
/// where its flag is set, and no others; both kinds of pre-shared key have one name.
pub proof fn law_responder_capabilities_are_named(flags: SpdmResponseCapabilityFlags)
    ensures
        ({
            let names = rsp_cap_names(flags);
            let hbeat = flags.has(SpdmResponseCapabilityFlags::HBEAT_CAP);
            let key_upd = flags.has(SpdmResponseCapabilityFlags::KEY_UPD_CAP);
            let clear = flags.has(SpdmResponseCapabilityFlags::HANDSHAKE_IN_THE_CLEAR_CAP);
            let with = flags.has(SpdmResponseCapabilityFlags::PSK_CAP_WITH_CONTEXT);
            let without = flags.has(SpdmResponseCapabilityFlags::PSK_CAP_WITHOUT_CONTEXT);
            let mut_auth = flags.has(SpdmResponseCapabilityFlags::MUT_AUTH_CAP);
            let chunk = flags.has(SpdmResponseCapabilityFlags::CHUNK_CAP);
            let a = one_if(hbeat);
            let b = a + one_if(key_upd);
            let c = b + one_if(clear);
            let d = c + one_if(with);
            let e = d + one_if(without);
            let f = e + one_if(mut_auth);
            &&& names.len() == f + one_if(chunk)
            &&& hbeat ==> names[0] == "HBEAT_CAP"
            &&& key_upd ==> names[a] == "KEY_UPD_CAP"
            &&& clear ==> names[b] == "HANDSHAKE_IN_THE_CLEAR_CAP"
            &&& with ==> names[c] == "PSK_CAP"
            &&& without ==> names[d] == "PSK_CAP"
            &&& mut_auth ==> names[e] == "MUT_AUTH_CAP"
            &&& chunk ==> names[f] == "CHUNK_CAP"
            &&& with ==> psk_mode(flags) == Some("WithContext")
            &&& !with && without ==> psk_mode(flags) == Some("WithoutContext")
            &&& !with && !without ==> psk_mode(flags) is None
        }),
{
}

/// The trace reports each operation, hash and version under its own name or number:
/// an operation that is not defined as a verification, a hash other than SHA-256 under
/// the other name, and a version by its two digits.
pub proof fn law_operations_hashes_and_versions_are_named(
    operation: SpdmKeyUpdateOperation,
    hash: SpdmBaseHashAlgo,
    version: SpdmVersion,
)
    ensures
        ({
            let op = traced_operation(operation);
            &&& operation is SpdmUpdateSingleKey ==> op is UpdateSingle && operation_text(op)
                == "OpUpdateSingle"
            &&& operation is SpdmUpdateAllKeys ==> op is UpdateAll && operation_text(op)
                == "OpUpdateAll"
            &&& operation is SpdmVerifyNewKey || operation is Unknown ==> op is VerifyNewKey
                && operation_text(op) == "OpVerifyNewKey"
        }),
        hash.bits == 1 ==> algo_text(hash) == "a2",
        hash.bits != 1 ==> algo_text(hash) == "a1",
        traced_version(version) == 10 + (version_byte(version) - 0x10),
{
}

/// The trace reports each state under its own name; a state without one goes by the
/// name of what has not started.
pub proof fn law_states_are_named(session: SpdmSessionState, connection: SpdmConnectionState)
    ensures
        ({
            let text = session_state_text(session);
            &&& session is SpdmSessionHandshaking ==> text == "Handshaking"
            &&& session is SpdmSessionEstablished ==> text == "Established"
            &&& !(session is SpdmSessionHandshaking || session is SpdmSessionEstablished) ==> text
                == "NotStarted"
        }),
        ({
            let text = connection_state_text(connection);
            &&& connection is SpdmConnectionAfterVersion ==> text == "AfterVersion"
            &&& connection is SpdmConnectionAfterCapabilities ==> text == "AfterCapabilities"
            &&& connection is SpdmConnectionNegotiated ==> text == "Negotiated"
            &&& connection is SpdmConnectionAfterCertificate ==> text == "AfterCertificate"
            &&& connection is SpdmConnectionAuthenticated ==> text == "Authenticated"
            &&& !(connection is SpdmConnectionAfterVersion
                || connection is SpdmConnectionAfterCapabilities
                || connection is SpdmConnectionNegotiated
                || connection is SpdmConnectionAfterCertificate
                || connection is SpdmConnectionAuthenticated) ==> text == "NotStarted"
        }),
{
}

} // verus!
