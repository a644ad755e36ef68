//! Runs of the trace: what holds over any number of its steps.

use vstd::prelude::*;

use crate::common::{ContextView, SpdmConnectionState};
use crate::spdm_trace::{
    ack_noted, bound, connection_noted, data_secret_noted, drained, fresh_runtime, next_of,
    no_peer_state, observed_peer, peer_noted, r2_event, r2_event_emitted, r2_event_followed,
    receiver, registered, reported_state, response_noted, role_text, state_event_emitted,
    transcript_noted, unregistered, TraceDeliveryView, TraceEventView, TraceKeyUpdateOp,
    TraceMessage, TracePeerState, TraceR2View, TraceRole, TraceRuntimeView, TraceStateSnapshot,
    TraceTranscriptPhase,
};

verus! {

/// One step of the trace: a call of one of its functions.
#[verifier::ext_equal]
pub enum TraceStep<C> {
    Register { callback: C },
    Clear,
    TakePending,
    ResetShadowState,
    NoteReset,
    NoteTranscript { role: TraceRole, phase: TraceTranscriptPhase },
    NoteConnection { role: TraceRole, connection_state: SpdmConnectionState },
    NoteResponse { op: TraceKeyUpdateOp, req_ok: bool, resp_ok: bool },
    NoteAck { op: TraceKeyUpdateOp },
    NoteRollback,
    NoteDataSecret { role: TraceRole },
    Observe { role: TraceRole, context: ContextView, session_id: Option<u32> },
    StateEvent {
        role: TraceRole,
        context: ContextView,
        session_id: Option<u32>,
        name: &'static str,
        msg: TraceMessage,
        with_remote: bool,
        with_keys: bool,
    },
    R2Event { role: TraceRole, name: &'static str, r2: TraceR2View },
    FollowingR2Event { role: TraceRole, name: &'static str, r2: TraceR2View },
}

/// The runtime after one step.
pub open spec fn step_taken<C>(
    runtime: TraceRuntimeView<C>,
    step: TraceStep<C>,
) -> TraceRuntimeView<C> {
    match step {
        TraceStep::Register { callback } => registered(runtime, callback),
        TraceStep::Clear => unregistered(runtime),
        TraceStep::TakePending => drained(runtime),
        TraceStep::ResetShadowState => fresh_runtime(runtime.callback, runtime.pending),
        TraceStep::NoteReset => fresh_runtime(runtime.callback, runtime.pending),
        TraceStep::NoteTranscript { role, phase } => transcript_noted(runtime, role, phase),
        TraceStep::NoteConnection { role, connection_state } => connection_noted(
            runtime,
            role,
            connection_state,
        ),
        TraceStep::NoteResponse { op, req_ok, resp_ok } => response_noted(
            runtime,
            op,
            req_ok,
            resp_ok,
        ),
        TraceStep::NoteAck { op } => ack_noted(runtime, op),
        TraceStep::NoteRollback => runtime,
        TraceStep::NoteDataSecret { role } => data_secret_noted(runtime, role),
        TraceStep::Observe { role, context, session_id } => peer_noted(
            runtime,
            role,
            observed_peer(runtime, role, context, session_id),
        ),
        TraceStep::StateEvent {
            role,
            context,
            session_id,
            name,
            msg,
            with_remote,
            with_keys,
        } => state_event_emitted(
            runtime,
            role,
            context,
            session_id,
            name,
            msg,
            with_remote,
            with_keys,
        ),
        TraceStep::R2Event { role, name, r2 } => r2_event_emitted(runtime, role, name, r2),
        TraceStep::FollowingR2Event { role, name, r2 } => r2_event_followed(
            runtime,
            role,
            name,
            r2,
        ),
    }
}

/// The runtime after a run of steps.
pub open spec fn steps_taken<C>(
    runtime: TraceRuntimeView<C>,
    steps: Seq<TraceStep<C>>,
) -> TraceRuntimeView<C>
    decreases steps.len(),
{
    if steps.len() == 0 {
        runtime
    } else {
        step_taken(steps_taken(runtime, steps.drop_last()), steps.last())
    }
}

/// The side whose state a step records, if it records one: an observation, and every
/// event but one with further fields.
pub open spec fn recorded_role<C>(step: TraceStep<C>) -> Option<TraceRole> {
    match step {
        TraceStep::Observe { role, .. } => Some(role),
        TraceStep::StateEvent { role, .. } => Some(role),
        _ => None,
    }
}

/// What a step records of its side, given the runtime before it.
pub open spec fn recorded_peer<C>(
    runtime: TraceRuntimeView<C>,
    step: TraceStep<C>,
) -> TracePeerState {
    match step {
        TraceStep::Observe { role, context, session_id } => observed_peer(
            runtime,
            role,
            context,
            session_id,
        ),
        TraceStep::StateEvent { role, context, session_id, .. } => observed_peer(
            runtime,
            role,
            context,
            session_id,
        ),
        _ => no_peer_state(),
    }
}

/// Whether a step forgets what was seen.
pub open spec fn forgets<C>(step: TraceStep<C>) -> bool {
    step is ResetShadowState || step is NoteReset
}

/// Whether a step leaves the record of a side alone.
pub open spec fn keeps_record<C>(step: TraceStep<C>, role: TraceRole) -> bool {
    recorded_role(step) != Some(role) && !forgets(step)
}

/// Whether every step of a run leaves the record of a side alone.
pub open spec fn run_keeps_record<C>(steps: Seq<TraceStep<C>>, role: TraceRole) -> bool {
    forall|i: int| 0 <= i < steps.len() ==> keeps_record(#[trigger] steps[i], role)
}

/// The record of a side: what was last seen of it.
pub open spec fn record_of<C>(runtime: TraceRuntimeView<C>, role: TraceRole) -> TracePeerState {
    match role {
        TraceRole::Requester => runtime.requester_last,
        TraceRole::Responder => runtime.responder_last,
    }
}

/// The other side.
pub open spec fn other_role(role: TraceRole) -> TraceRole {
    match role {
        TraceRole::Requester => TraceRole::Responder,
        TraceRole::Responder => TraceRole::Requester,
    }
}

/// What an event reports of a side.
pub open spec fn reported_of(
    state: TraceStateSnapshot,
    role: TraceRole,
) -> Option<TracePeerState> {
    match role {
        TraceRole::Requester => state.requester,
        TraceRole::Responder => state.responder,
    }
}

/// The record of a side stays as it is over any run of notes, registrations, events
/// with further fields, and observations and events of the other side.
pub proof fn law_record_stays<C>(
    runtime: TraceRuntimeView<C>,
    role: TraceRole,
    steps: Seq<TraceStep<C>>,
)
    requires
        run_keeps_record(steps, role),
    ensures
        record_of(steps_taken(runtime, steps), role) == record_of(runtime, role),
    decreases steps.len(),
{
    if steps.len() > 0 {
        let front = steps.drop_last();
        assert forall|i: int| 0 <= i < front.len() implies keeps_record(
            #[trigger] front[i],
            role,
        ) by {
            assert(front[i] == steps[i]);
        }
        law_record_stays(runtime, role, front);
        assert(keeps_record(steps[steps.len() - 1], role));
    }
}

/// An event with the state of both sides reports the other side exactly as that side
/// was at its own latest observation or event, with or without a callback at that
/// time, and whatever was noted, registered, or done by the reporting side since. It
/// records the state of its own side, and leaves the record of the other side, the
/// generations, the transcripts and the callback as they are.
pub proof fn law_other_side_is_reported_as_last_recorded<C>(
    runtime: TraceRuntimeView<C>,
    record: TraceStep<C>,
    since: Seq<TraceStep<C>>,
    role: TraceRole,
    context: ContextView,
    session_id: Option<u32>,
    name: &'static str,
    msg: TraceMessage,
    with_keys: bool,
)
    requires
        recorded_role(record) == Some(other_role(role)),
        run_keeps_record(since, other_role(role)),
        steps_taken(step_taken(runtime, record), since).callback is Some,
    ensures
        ({
            let before = steps_taken(step_taken(runtime, record), since);
            let after = state_event_emitted(
                before,
                role,
                context,
                session_id,
                name,
                msg,
                true,
                with_keys,
            );
            let event = after.pending.last().event;
            &&& after.pending.len() == before.pending.len() + 1
            &&& reported_of(event.state, other_role(role)) == Some(recorded_peer(runtime, record))
            &&& record_of(after, other_role(role)) == recorded_peer(runtime, record)
            &&& record_of(after, role) == observed_peer(before, role, context, session_id)
            &&& after.key_gens == before.key_gens
            &&& after.requester_transcript == before.requester_transcript
            &&& after.responder_transcript == before.responder_transcript
            &&& after.requester_connection == before.requester_connection
            &&& after.callback == before.callback
        }),
{
    law_record_stays(step_taken(runtime, record), other_role(role), since);
}

/// Where the other side has neither been observed nor emitted an event since all was
/// forgotten, an event with the state of both sides reports nothing of it.
pub proof fn law_unseen_side_is_reported_empty<C>(
    runtime: TraceRuntimeView<C>,
    reset: TraceStep<C>,
    since: Seq<TraceStep<C>>,
    role: TraceRole,
    context: ContextView,
    session_id: Option<u32>,
    name: &'static str,
    msg: TraceMessage,
    with_keys: bool,
)
    requires
        forgets(reset),
        run_keeps_record(since, other_role(role)),
        steps_taken(step_taken(runtime, reset), since).callback is Some,
    ensures
        reported_of(
            state_event_emitted(
                steps_taken(step_taken(runtime, reset), since),
                role,
                context,
                session_id,
                name,
                msg,
                true,
                with_keys,
            ).pending.last().event.state,
            other_role(role),
        ) == Some(no_peer_state()),
{
    law_record_stays(step_taken(runtime, reset), other_role(role), since);
}

/// Whether a run registers no callback and takes none back.
pub open spec fn run_keeps_callback<C>(steps: Seq<TraceStep<C>>) -> bool {
    forall|i: int| 0 <= i < steps.len() ==> !((#[trigger] steps[i]) is Register) && !(
    steps[i] is Clear)
}

/// Whether a run takes the queued events out.
pub open spec fn run_takes_pending<C>(steps: Seq<TraceStep<C>>) -> bool {
    exists|i: int| 0 <= i < steps.len() && (#[trigger] steps[i]) is TakePending
}

/// The events that are still queued after a run and were queued before it.
pub open spec fn still_pending<C>(
    runtime: TraceRuntimeView<C>,
    steps: Seq<TraceStep<C>>,
) -> Seq<TraceDeliveryView<C>> {
    if run_takes_pending(steps) {
        Seq::empty()
    } else {
        runtime.pending
    }
}

/// Over any run that leaves the callback alone, every event that is queued is queued
/// for the callback that was registered before the run, and none is queued where there
/// was none. The events queued before stay in front until they are taken out.
pub proof fn law_run_queues_for_its_callback<C>(
    runtime: TraceRuntimeView<C>,
    steps: Seq<TraceStep<C>>,
)
    requires
        run_keeps_callback(steps),
    ensures
        ({
            let after = steps_taken(runtime, steps);
            let kept = still_pending(runtime, steps);
            &&& after.callback == runtime.callback
            &&& kept.is_prefix_of(after.pending)
            &&& forall|i: int|
                kept.len() <= i < after.pending.len() ==> runtime.callback == Some(
                    (#[trigger] after.pending[i]).callback,
                )
        }),
    decreases steps.len(),
{
    if steps.len() > 0 {
        let front = steps.drop_last();
        let last = steps.last();
        assert forall|i: int| 0 <= i < front.len() implies !((#[trigger] front[i]) is Register)
            && !(front[i] is Clear) by {
            assert(front[i] == steps[i]);
        }
        law_run_queues_for_its_callback(runtime, front);
        assert(!(steps[steps.len() - 1] is Register) && !(steps[steps.len() - 1] is Clear));
        if last is TakePending {
            assert(steps[steps.len() - 1] is TakePending);
            assert(run_takes_pending(steps));
        } else {
            if run_takes_pending(steps) {
                let i = choose|i: int| 0 <= i < steps.len() && (#[trigger] steps[i]) is TakePending;
                assert(front[i] is TakePending);
            }
            if run_takes_pending(front) {
                let i = choose|i: int| 0 <= i < front.len() && (#[trigger] front[i]) is TakePending;
                assert(steps[i] is TakePending);
            }
            assert(run_takes_pending(steps) == run_takes_pending(front));
        }
    }
}

/// The latest registration replaces the earlier one: all that is queued in any run
/// after it is queued for the later callback.
pub proof fn law_latest_registration_receives<C>(
    runtime: TraceRuntimeView<C>,
    earlier: C,
    later: C,
    between: Seq<TraceStep<C>>,
    steps: Seq<TraceStep<C>>,
)
    requires
        run_keeps_callback(steps),
    ensures
        ({
            let replaced = registered(
                steps_taken(registered(runtime, earlier), between),
                later,
            );
            let after = steps_taken(replaced, steps);
            let kept = still_pending(replaced, steps);
            &&& after.callback == Some(later)
            &&& kept.is_prefix_of(after.pending)
            &&& forall|i: int|
                kept.len() <= i < after.pending.len() ==> (#[trigger] after.pending[i]).callback
                    == later
        }),
{
    law_run_queues_for_its_callback(
        registered(steps_taken(registered(runtime, earlier), between), later),
        steps,
    );
}

/// After the callback is taken back, nothing is queued in any run until the next
/// registration. Taking it back keeps all that was noted and seen so far.
pub proof fn law_cleared_callback_receives_nothing<C>(
    runtime: TraceRuntimeView<C>,
    steps: Seq<TraceStep<C>>,
)
    requires
        run_keeps_callback(steps),
    ensures
        ({
            let cleared = unregistered(runtime);
            let after = steps_taken(cleared, steps);
            &&& after.callback is None
            &&& after.pending == still_pending(cleared, steps)
            &&& cleared.key_gens == runtime.key_gens
            &&& cleared.requester_connection == runtime.requester_connection
            &&& cleared.requester_transcript == runtime.requester_transcript
            &&& cleared.responder_transcript == runtime.responder_transcript
            &&& cleared.requester_last == runtime.requester_last
            &&& cleared.responder_last == runtime.responder_last
            &&& cleared.pending == bound(runtime.pending)
        }),
{
    let cleared = unregistered(runtime);
    law_run_queues_for_its_callback(cleared, steps);
    let after = steps_taken(cleared, steps);
    let kept = still_pending(cleared, steps);
    if after.pending.len() > kept.len() {
        assert(cleared.callback == Some(after.pending[kept.len() as int].callback));
    }
    assert(after.pending =~= kept);
}

/// What a callback does to the runtime when it is called with an event: it may note
/// things, emit events of its own, or register another callback or none.
pub type Reaction<C> = spec_fn(C, TraceEventView, TraceRuntimeView<C>) -> TraceRuntimeView<C>;

/// The runtime after an event is handed to the callback that is registered at that
/// moment, if there is one, and the callback has reacted.
pub open spec fn fired<C>(
    runtime: TraceRuntimeView<C>,
    event: TraceEventView,
    react: Reaction<C>,
) -> TraceRuntimeView<C> {
    match runtime.callback {
        Some(callback) => react(callback, event, runtime),
        None => runtime,
    }
}

/// The runtime after the events of a batch are handed over, one after the other, and
/// each callback has reacted before the turn of the next event.
pub open spec fn handed_over<C>(
    runtime: TraceRuntimeView<C>,
    batch: Seq<TraceDeliveryView<C>>,
    react: Reaction<C>,
) -> TraceRuntimeView<C>
    decreases batch.len(),
{
    if batch.len() == 0 {
        runtime
    } else {
        match receiver(runtime.callback, batch[0]) {
            Some(callback) => handed_over(
                react(callback, batch[0].event, runtime),
                batch.drop_first(),
                react,
            ),
            None => handed_over(runtime, batch.drop_first(), react),
        }
    }
}

/// The calls that handing a batch over makes: each callback with its event.
pub open spec fn calls_made<C>(
    runtime: TraceRuntimeView<C>,
    batch: Seq<TraceDeliveryView<C>>,
    react: Reaction<C>,
) -> Seq<(C, TraceEventView)>
    decreases batch.len(),
{
    if batch.len() == 0 {
        Seq::empty()
    } else {
        match receiver(runtime.callback, batch[0]) {
            Some(callback) => seq![(callback, batch[0].event)] + calls_made(
                react(callback, batch[0].event, runtime),
                batch.drop_first(),
                react,
            ),
            None => calls_made(runtime, batch.drop_first(), react),
        }
    }
}

/// The next event of a batch, as it is taken out, is the next call that handing the
/// batch over makes; where there is none, no call is left.
pub proof fn law_next_event_is_the_next_call<C>(
    runtime: TraceRuntimeView<C>,
    batch: Seq<TraceDeliveryView<C>>,
    react: Reaction<C>,
)
    ensures
        match next_of(runtime.callback, batch) {
            (Some((callback, event)), rest) => {
                let reacted = react(callback, event, runtime);
                &&& calls_made(runtime, batch, react) == seq![(callback, event)] + calls_made(
                    reacted,
                    rest,
                    react,
                )
                &&& handed_over(runtime, batch, react) == handed_over(reacted, rest, react)
            },
            (None, _) => {
                &&& calls_made(runtime, batch, react) == Seq::<(C, TraceEventView)>::empty()
                &&& handed_over(runtime, batch, react) == runtime
            },
        },
    decreases batch.len(),
{
    if batch.len() > 0 && receiver(runtime.callback, batch[0]) is None {
        law_next_event_is_the_next_call(runtime, batch.drop_first(), react);
    }
}

/// The two events of a step: the one with the state of its side, and the one with
/// further fields that follows it.
pub open spec fn step_events<C>(
    runtime: TraceRuntimeView<C>,
    role: TraceRole,
    context: ContextView,
    session_id: Option<u32>,
    name: &'static str,
    msg: TraceMessage,
    with_keys: bool,
    following: &'static str,
    r2: TraceR2View,
) -> (TraceEventView, TraceEventView) {
    (
        TraceEventView {
            name,
            nid: role_text(role),
            state: reported_state(runtime, role, context, session_id, false, with_keys),
            msg,
            r2: None,
        },
        r2_event(role, following, r2),
    )
}

/// A step that emits an event with the state of its side and then one with further
/// fields is the same as handing each event over at the moment it is emitted: the
/// first one to the callback registered then, and the second one to the callback that
/// is registered after the first one was called and has reacted. A callback that takes
/// itself back on the first event does not get the second one; one that registers
/// another callback passes the second one on to it.
pub proof fn law_events_of_a_step_fire_in_turn<C>(
    runtime: TraceRuntimeView<C>,
    role: TraceRole,
    context: ContextView,
    session_id: Option<u32>,
    name: &'static str,
    msg: TraceMessage,
    with_keys: bool,
    following: &'static str,
    r2: TraceR2View,
    react: Reaction<C>,
)
    requires
        runtime.pending.len() == 0,
    ensures
        ({
            let noted = peer_noted(
                runtime,
                role,
                observed_peer(runtime, role, context, session_id),
            );
            let (first, second) = step_events(
                runtime,
                role,
                context,
                session_id,
                name,
                msg,
                with_keys,
                following,
                r2,
            );
            let after = r2_event_followed(
                state_event_emitted(
                    runtime,
                    role,
                    context,
                    session_id,
                    name,
                    msg,
                    false,
                    with_keys,
                ),
                role,
                following,
                r2,
            );
            let calls = calls_made(drained(after), after.pending, react);
            &&& handed_over(drained(after), after.pending, react) == fired(
                fired(noted, first, react),
                second,
                react,
            )
            &&& match runtime.callback {
                None => calls == Seq::<(C, TraceEventView)>::empty(),
                Some(callback) => match react(callback, first, noted).callback {
                    None => calls == seq![(callback, first)],
                    Some(other) => calls == seq![(callback, first), (other, second)],
                },
            }
        }),
{
    let noted = peer_noted(runtime, role, observed_peer(runtime, role, context, session_id));
    let (first, second) = step_events(
        runtime,
        role,
        context,
        session_id,
        name,
        msg,
        with_keys,
        following,
        r2,
    );
    if let Some(callback) = runtime.callback {
        let one = TraceDeliveryView { callback, event: first, follows: false };
        let two = TraceDeliveryView { callback, event: second, follows: true };
        let batch = runtime.pending.push(one).push(two);
        assert(batch =~= seq![one, two]);
        assert(batch.drop_first() =~= seq![two]);
        assert(seq![two].drop_first() =~= Seq::empty());
        assert(noted.pending =~= Seq::empty());
        let reacted = react(callback, first, noted);
        reveal_with_fuel(handed_over, 3);
        reveal_with_fuel(calls_made, 3);
        let calls = calls_made(noted, batch, react);
        match reacted.callback {
            None => {
                assert(calls =~= seq![(callback, first)]);
            },
            Some(other) => {
                assert(calls =~= seq![(callback, first), (other, second)]);
            },
        }
    } else {
        assert(noted.pending =~= Seq::empty());
    }
}

} // verus!
