//! Tracing of the protocol. A runtime keeps a shadow of what both sides have
//! done, builds an event for each step, and queues it for the callback that is
//! registered at that moment.

use vstd::prelude::*;

use crate::common::{ContextView, SpdmConnectionState, SpdmContext};
use crate::message::SpdmKeyUpdateOperation;
use crate::protocol::{
    version_byte, SpdmBaseHashAlgo, SpdmRequestCapabilityFlags, SpdmResponseCapabilityFlags,
    SpdmVersion,
};
use crate::session::{SpdmSession, SpdmSessionState};

verus! {

/// The side that an event belongs to.
#[derive(Clone, Copy, Debug, PartialEq, Eq, Structural)]
pub enum TraceRole {
    Requester,
    Responder,
}

/// The part of the transcript that is being built.
#[derive(Clone, Copy, Debug, PartialEq, Eq, Structural)]
pub enum TraceTranscriptPhase {
    Empty,
    A,
    B,
    C,
    K,
    Established,
}

/// The generation of each key, per side and per direction: 0 for no key, 1 for
/// the first one, 2 and up after key updates.
#[derive(Clone, Copy, Debug, PartialEq, Eq, Structural)]
pub struct TraceKeyGens {
    pub rq_req: u32,
    pub rq_resp: u32,
    pub rs_req: u32,
    pub rs_resp: u32,
}

/// The operation of a key update.
#[derive(Clone, Copy, Debug, PartialEq, Eq, Structural)]
pub enum TraceKeyUpdateOp {
    UpdateSingle,
    UpdateAll,
    VerifyNewKey,
}

/// What went wrong in a step.
#[derive(Clone, Copy, Debug, PartialEq, Eq, Structural)]
pub enum TraceErrorKind {
    Unexpected,
    Unsupported,
    Invalid,
}

/// What is known of one side.
#[derive(Clone, Copy, Debug)]
pub struct TracePeerState {
    pub connection_state: Option<SpdmConnectionState>,
    pub session_state: Option<SpdmSessionState>,
    pub transcript_phase: Option<TraceTranscriptPhase>,
}

/// The state that an event reports.
#[derive(Clone, Copy, Debug)]
pub struct TraceStateSnapshot {
    pub requester: Option<TracePeerState>,
    pub responder: Option<TracePeerState>,
    pub key_gens: Option<TraceKeyGens>,
    pub req_backup_valid: Option<bool>,
    pub rsp_backup_valid: Option<bool>,
}

/// The parts of a message that an event reports.
#[derive(Clone, Copy, Debug)]
pub struct TraceMessage {
    pub version: Option<u8>,
    pub slot: Option<u8>,
    pub op: Option<TraceKeyUpdateOp>,
    pub slot_mask: Option<u8>,
    pub error: Option<TraceErrorKind>,
    pub hmac_ok: Option<bool>,
    pub data_secret_ok: Option<bool>,
    pub req_ok: Option<bool>,
    pub resp_ok: Option<bool>,
}

/// Further fields of an event: capabilities, algorithms, sessions, mutual
/// authentication and chunks. Only the fields that are set are reported.
#[derive(Clone, Debug)]
pub struct TraceR2Fields {
    pub req_connection_state: Option<SpdmConnectionState>,
    pub rsp_connection_state: Option<SpdmConnectionState>,
    pub negotiated_version: Option<u8>,
    pub req_caps: Option<Vec<&'static str>>,
    pub rsp_caps: Option<Vec<&'static str>>,
    pub req_capabilities: Option<Vec<&'static str>>,
    pub rsp_capabilities: Option<Vec<&'static str>>,
    pub proposed: Option<Vec<&'static str>>,
    pub rsp_supported: Option<Vec<&'static str>>,
    pub negotiated_algo: Option<&'static str>,
    pub session_id: Option<u32>,
    pub session_state: Option<&'static str>,
    pub session_slot: Option<u32>,
    pub req_backup_valid: Option<bool>,
    pub rsp_backup_valid: Option<bool>,
    pub op: Option<&'static str>,
    pub error: Option<&'static str>,
    pub session_mode: Option<&'static str>,
    pub psk_cap_mode: Option<&'static str>,
    pub mut_auth_mode: Option<&'static str>,
    pub mut_auth_done: Option<bool>,
    pub encap_state: Option<&'static str>,
    pub chunk_status: Option<&'static str>,
    pub chunk_seq_num: Option<u32>,
    pub chunk_handle: Option<u8>,
    pub chunk_session_id: Option<u32>,
}

/// An event of the trace.
#[derive(Clone, Debug)]
pub struct TraceEvent {
    pub name: &'static str,
    pub nid: &'static str,
    pub state: TraceStateSnapshot,
    pub msg: TraceMessage,
    /// The further fields, where the event has them.
    pub r2: Option<TraceR2Fields>,
}

/// An event, and the callback that was registered when it was built. An event that
/// follows another one of the same step comes after that one was handed over, so it
/// goes to the callback that is registered by then.
#[derive(Clone, Debug)]
pub struct TraceDelivery<C> {
    pub callback: C,
    pub event: TraceEvent,
    pub follows: bool,
}

/// The shadow of both sides, the callback, and the events that still have to be
/// handed to their callbacks, the oldest first.
#[derive(Clone, Debug)]
pub struct TraceRuntime<C> {
    pub callback: Option<C>,
    pub requester_connection: SpdmConnectionState,
    pub requester_transcript: TraceTranscriptPhase,
    pub responder_transcript: TraceTranscriptPhase,
    pub key_gens: TraceKeyGens,
    pub requester_last: TracePeerState,
    pub responder_last: TracePeerState,
    pub pending: Vec<TraceDelivery<C>>,
}

/// What a list of names holds, where there is one.
pub open spec fn names_view(names: Option<Vec<&'static str>>) -> Option<Seq<&'static str>> {
    match names {
        Some(list) => Some(list@),
        None => None,
    }
}

/// What the further fields of an event hold.
#[verifier::ext_equal]
pub struct TraceR2View {
    pub req_connection_state: Option<SpdmConnectionState>,
    pub rsp_connection_state: Option<SpdmConnectionState>,
    pub negotiated_version: Option<u8>,
    pub req_caps: Option<Seq<&'static str>>,
    pub rsp_caps: Option<Seq<&'static str>>,
    pub req_capabilities: Option<Seq<&'static str>>,
    pub rsp_capabilities: Option<Seq<&'static str>>,
    pub proposed: Option<Seq<&'static str>>,
    pub rsp_supported: Option<Seq<&'static str>>,
    pub negotiated_algo: Option<&'static str>,
    pub session_id: Option<u32>,
    pub session_state: Option<&'static str>,
    pub session_slot: Option<u32>,
    pub req_backup_valid: Option<bool>,
    pub rsp_backup_valid: Option<bool>,
    pub op: Option<&'static str>,
    pub error: Option<&'static str>,
    pub session_mode: Option<&'static str>,
    pub psk_cap_mode: Option<&'static str>,
    pub mut_auth_mode: Option<&'static str>,
    pub mut_auth_done: Option<bool>,
    pub encap_state: Option<&'static str>,
    pub chunk_status: Option<&'static str>,
    pub chunk_seq_num: Option<u32>,
    pub chunk_handle: Option<u8>,
    pub chunk_session_id: Option<u32>,
}

impl View for TraceR2Fields {
    type V = TraceR2View;

    open spec fn view(&self) -> TraceR2View {
        TraceR2View {
            req_connection_state: self.req_connection_state,
            rsp_connection_state: self.rsp_connection_state,
            negotiated_version: self.negotiated_version,
            req_caps: names_view(self.req_caps),
            rsp_caps: names_view(self.rsp_caps),
            req_capabilities: names_view(self.req_capabilities),
            rsp_capabilities: names_view(self.rsp_capabilities),
            proposed: names_view(self.proposed),
            rsp_supported: names_view(self.rsp_supported),
            negotiated_algo: self.negotiated_algo,
            session_id: self.session_id,
            session_state: self.session_state,
            session_slot: self.session_slot,
            req_backup_valid: self.req_backup_valid,
            rsp_backup_valid: self.rsp_backup_valid,
            op: self.op,
            error: self.error,
            session_mode: self.session_mode,
            psk_cap_mode: self.psk_cap_mode,
            mut_auth_mode: self.mut_auth_mode,
            mut_auth_done: self.mut_auth_done,
            encap_state: self.encap_state,
            chunk_status: self.chunk_status,
            chunk_seq_num: self.chunk_seq_num,
            chunk_handle: self.chunk_handle,
            chunk_session_id: self.chunk_session_id,
        }
    }
}

/// What an event holds.
#[verifier::ext_equal]
pub struct TraceEventView {
    pub name: &'static str,
    pub nid: &'static str,
    pub state: TraceStateSnapshot,
    pub msg: TraceMessage,
    pub r2: Option<TraceR2View>,
}

impl View for TraceEvent {
    type V = TraceEventView;

    open spec fn view(&self) -> TraceEventView {
        TraceEventView {
            name: self.name,
            nid: self.nid,
            state: self.state,
            msg: self.msg,
            r2: match self.r2 {
                Some(fields) => Some(fields@),
                None => None,
            },
        }
    }
}

/// What a queued event holds.
#[verifier::ext_equal]
pub struct TraceDeliveryView<C> {
    pub callback: C,
    pub event: TraceEventView,
    pub follows: bool,
}

impl<C> View for TraceDelivery<C> {
    type V = TraceDeliveryView<C>;

    open spec fn view(&self) -> TraceDeliveryView<C> {
        TraceDeliveryView {
            callback: self.callback,
            event: self.event@,
            follows: self.follows,
        }
    }
}

/// What a queue of events holds.
pub open spec fn delivery_views<C>(pending: Seq<TraceDelivery<C>>) -> Seq<TraceDeliveryView<C>> {
    pending.map_values(|delivery: TraceDelivery<C>| delivery@)
}

/// What a runtime holds.
#[verifier::ext_equal]
pub struct TraceRuntimeView<C> {
    pub callback: Option<C>,
    pub requester_connection: SpdmConnectionState,
    pub requester_transcript: TraceTranscriptPhase,
    pub responder_transcript: TraceTranscriptPhase,
    pub key_gens: TraceKeyGens,
    pub requester_last: TracePeerState,
    pub responder_last: TracePeerState,
    pub pending: Seq<TraceDeliveryView<C>>,
}

impl<C> View for TraceRuntime<C> {
    type V = TraceRuntimeView<C>;

    open spec fn view(&self) -> TraceRuntimeView<C> {
        TraceRuntimeView {
            callback: self.callback,
            requester_connection: self.requester_connection,
            requester_transcript: self.requester_transcript,
            responder_transcript: self.responder_transcript,
            key_gens: self.key_gens,
            requester_last: self.requester_last,
            responder_last: self.responder_last,
            pending: delivery_views(self.pending@),
        }
    }
}

/// No key on either side.
pub open spec fn no_keys() -> TraceKeyGens {
    TraceKeyGens { rq_req: 0, rq_resp: 0, rs_req: 0, rs_resp: 0 }
}

/// Nothing known of a side.
pub open spec fn no_peer_state() -> TracePeerState {
    TracePeerState { connection_state: None, session_state: None, transcript_phase: None }
}

/// Nothing to report of the state.
pub open spec fn no_snapshot() -> TraceStateSnapshot {
    TraceStateSnapshot {
        requester: None,
        responder: None,
        key_gens: None,
        req_backup_valid: None,
        rsp_backup_valid: None,
    }
}

/// Nothing to report of a message.
pub open spec fn no_message() -> TraceMessage {
    TraceMessage {
        version: None,
        slot: None,
        op: None,
        slot_mask: None,
        error: None,
        hmac_ok: None,
        data_secret_ok: None,
        req_ok: None,
        resp_ok: None,
    }
}

/// No further field.
pub open spec fn no_r2_fields() -> TraceR2View {
    TraceR2View {
        req_connection_state: None,
        rsp_connection_state: None,
        negotiated_version: None,
        req_caps: None,
        rsp_caps: None,
        req_capabilities: None,
        rsp_capabilities: None,
        proposed: None,
        rsp_supported: None,
        negotiated_algo: None,
        session_id: None,
        session_state: None,
        session_slot: None,
        req_backup_valid: None,
        rsp_backup_valid: None,
        op: None,
        error: None,
        session_mode: None,
        psk_cap_mode: None,
        mut_auth_mode: None,
        mut_auth_done: None,
        encap_state: None,
        chunk_status: None,
        chunk_seq_num: None,
        chunk_handle: None,
        chunk_session_id: None,
    }
}

/// A runtime that has seen nothing, with the given callback and queue.
pub open spec fn fresh_runtime<C>(
    callback: Option<C>,
    pending: Seq<TraceDeliveryView<C>>,
) -> TraceRuntimeView<C> {
    TraceRuntimeView {
        callback,
        requester_connection: SpdmConnectionState::SpdmConnectionNotStarted,
        requester_transcript: TraceTranscriptPhase::Empty,
        responder_transcript: TraceTranscriptPhase::Empty,
        key_gens: no_keys(),
        requester_last: no_peer_state(),
        responder_last: no_peer_state(),
        pending,
    }
}

impl Default for TraceKeyGens {
    fn default() -> (gens: TraceKeyGens)
        ensures
            gens == no_keys(),
    {
        TraceKeyGens { rq_req: 0, rq_resp: 0, rs_req: 0, rs_resp: 0 }
    }
}

impl Default for TracePeerState {
    fn default() -> (peer: TracePeerState)
        ensures
            peer == no_peer_state(),
    {
        TracePeerState { connection_state: None, session_state: None, transcript_phase: None }
    }
}

impl Default for TraceStateSnapshot {
    fn default() -> (snapshot: TraceStateSnapshot)
        ensures
            snapshot == no_snapshot(),
    {
        TraceStateSnapshot {
            requester: None,
            responder: None,
            key_gens: None,
            req_backup_valid: None,
            rsp_backup_valid: None,
        }
    }
}

impl Default for TraceMessage {
    fn default() -> (message: TraceMessage)
        ensures
            message == no_message(),
    {
        TraceMessage {
            version: None,
            slot: None,
            op: None,
            slot_mask: None,
            error: None,
            hmac_ok: None,
            data_secret_ok: None,
            req_ok: None,
            resp_ok: None,
        }
    }
}

impl Default for TraceR2Fields {
    fn default() -> (fields: TraceR2Fields)
        ensures
            fields@ == no_r2_fields(),
    {
        TraceR2Fields {
            req_connection_state: None,
            rsp_connection_state: None,
            negotiated_version: None,
            req_caps: None,
            rsp_caps: None,
            req_capabilities: None,
            rsp_capabilities: None,
            proposed: None,
            rsp_supported: None,
            negotiated_algo: None,
            session_id: None,
            session_state: None,
            session_slot: None,
            req_backup_valid: None,
            rsp_backup_valid: None,
            op: None,
            error: None,
            session_mode: None,
            psk_cap_mode: None,
            mut_auth_mode: None,
            mut_auth_done: None,
            encap_state: None,
            chunk_status: None,
            chunk_seq_num: None,
            chunk_handle: None,
            chunk_session_id: None,
        }
    }
}

impl<C> Default for TraceRuntime<C> {
    fn default() -> (runtime: TraceRuntime<C>)
        ensures
            runtime@ == fresh_runtime::<C>(None, Seq::empty()),
    {
        let runtime = TraceRuntime {
            callback: None,
            requester_connection: SpdmConnectionState::SpdmConnectionNotStarted,
            requester_transcript: TraceTranscriptPhase::Empty,
            responder_transcript: TraceTranscriptPhase::Empty,
            key_gens: TraceKeyGens::default(),
            requester_last: TracePeerState::default(),
            responder_last: TracePeerState::default(),
            pending: Vec::new(),
        };
        assert(runtime@.pending =~= Seq::empty());
        runtime
    }
}

/// The runtime with an empty queue.
pub open spec fn drained<C>(runtime: TraceRuntimeView<C>) -> TraceRuntimeView<C> {
    TraceRuntimeView { pending: Seq::empty(), ..runtime }
}

impl<C> TraceRuntime<C> {
    /// Takes the queued events out, the oldest first.
    pub fn take_pending(&mut self) -> (pending: Vec<TraceDelivery<C>>)
        ensures
            delivery_views(pending@) == old(self)@.pending,
            final(self)@ == drained(old(self)@),
    {
        let mut pending: Vec<TraceDelivery<C>> = Vec::new();
        std::mem::swap(&mut self.pending, &mut pending);
        assert(self@.pending =~= Seq::empty());
        pending
    }
}

/// The callback that an event goes to when its turn comes, given the one that is
/// registered then.
pub open spec fn receiver<C>(registered: Option<C>, delivery: TraceDeliveryView<C>) -> Option<C> {
    if delivery.follows {
        registered
    } else {
        Some(delivery.callback)
    }
}

/// The first event of a batch that goes to a callback, with that callback, and what
/// is left of the batch behind it. Events without a callback are dropped.
pub open spec fn next_of<C>(
    registered: Option<C>,
    batch: Seq<TraceDeliveryView<C>>,
) -> (Option<(C, TraceEventView)>, Seq<TraceDeliveryView<C>>)
    decreases batch.len(),
{
    if batch.len() == 0 {
        (None, batch)
    } else {
        match receiver(registered, batch[0]) {
            Some(callback) => (Some((callback, batch[0].event)), batch.drop_first()),
            None => next_of(registered, batch.drop_first()),
        }
    }
}

/// Takes the next event out of a batch of events that were taken from the queue, with
/// the callback that it goes to.
pub fn next_delivery<C: Copy>(
    runtime: &TraceRuntime<C>,
    batch: &mut Vec<TraceDelivery<C>>,
) -> (next: Option<(C, TraceEvent)>)
    ensures
        ({
            let (expected, rest) = next_of(runtime@.callback, delivery_views(old(batch)@));
            &&& delivery_views(final(batch)@) == rest
            &&& match next {
                Some((callback, event)) => expected == Some((callback, event@)),
                None => expected is None,
            }
        }),
{
    let ghost start = delivery_views(batch@);
    while batch.len() > 0
        invariant
            start == delivery_views(old(batch)@),
            next_of(runtime@.callback, start) == next_of(
                runtime@.callback,
                delivery_views(batch@),
            ),
        decreases batch@.len(),
    {
        let ghost before = batch@;
        let delivery = batch.remove(0);
        assert(delivery@ == delivery_views(before)[0]);
        assert(delivery_views(batch@) =~= delivery_views(before).drop_first());
        if !delivery.follows {
            return Some((delivery.callback, delivery.event));
        }
        if let Some(callback) = runtime.callback {
            return Some((callback, delivery.event));
        }
    }
    None
}

/// The queue with each event bound to the callback that was registered when it was
/// built.
pub open spec fn bound<C>(pending: Seq<TraceDeliveryView<C>>) -> Seq<TraceDeliveryView<C>> {
    pending.map_values(|delivery: TraceDeliveryView<C>|
        TraceDeliveryView { follows: false, ..delivery })
}

/// The runtime with another callback registered. What is queued stays with the
/// callback that it was queued for.
pub open spec fn registered<C>(runtime: TraceRuntimeView<C>, callback: C) -> TraceRuntimeView<C> {
    TraceRuntimeView { callback: Some(callback), pending: bound(runtime.pending), ..runtime }
}

/// The runtime without a callback. What is queued stays with the callback that it was
/// queued for.
pub open spec fn unregistered<C>(runtime: TraceRuntimeView<C>) -> TraceRuntimeView<C> {
    TraceRuntimeView { callback: None, pending: bound(runtime.pending), ..runtime }
}

/// Binds each queued event to the callback that was registered when it was built.
fn bind_pending<C>(runtime: &mut TraceRuntime<C>)
    ensures
        final(runtime)@ == (TraceRuntimeView {
            pending: bound(old(runtime)@.pending),
            ..old(runtime)@
        }),
{
    let ghost before = runtime@;
    let mut i: usize = 0;
    while i < runtime.pending.len()
        invariant
            before == old(runtime)@,
            i <= runtime.pending@.len() == before.pending.len(),
            runtime@ == (TraceRuntimeView { pending: runtime@.pending, ..before }),
            forall|j: int|
                0 <= j < before.pending.len() ==> (#[trigger] runtime@.pending[j]) == (if j < i {
                    bound(before.pending)[j]
                } else {
                    before.pending[j]
                }),
        decreases runtime.pending@.len() - i,
    {
        let ghost current = runtime@.pending;
        runtime.pending[i].follows = false;
        assert(runtime@.pending =~= current.update(
            i as int,
            TraceDeliveryView { follows: false, ..current[i as int] },
        ));
        i = i + 1;
    }
    assert(runtime@.pending =~= bound(before.pending));
}

/// Registers the callback for the events that follow.
pub fn register_callback<C>(runtime: &mut TraceRuntime<C>, callback: C)
    ensures
        final(runtime)@ == registered(old(runtime)@, callback),
{
    bind_pending(runtime);
    runtime.callback = Some(callback);
}

/// Takes the callback back: the events that follow are dropped.
pub fn clear_callback<C>(runtime: &mut TraceRuntime<C>)
    ensures
        final(runtime)@ == unregistered(old(runtime)@),
{
    bind_pending(runtime);
    runtime.callback = None;
}

/// Forgets all that was seen of both sides; the callback stays registered.
pub fn reset_shadow_state<C>(runtime: &mut TraceRuntime<C>)
    ensures
        final(runtime)@ == fresh_runtime(old(runtime)@.callback, old(runtime)@.pending),
{
    runtime.requester_connection = SpdmConnectionState::SpdmConnectionNotStarted;
    runtime.requester_transcript = TraceTranscriptPhase::Empty;
    runtime.responder_transcript = TraceTranscriptPhase::Empty;
    runtime.key_gens = TraceKeyGens::default();
    runtime.requester_last = TracePeerState::default();
    runtime.responder_last = TracePeerState::default();
}

/// The runtime with another transcript phase of one side.
pub open spec fn transcript_noted<C>(
    runtime: TraceRuntimeView<C>,
    role: TraceRole,
    phase: TraceTranscriptPhase,
) -> TraceRuntimeView<C> {
    match role {
        TraceRole::Requester => TraceRuntimeView { requester_transcript: phase, ..runtime },
        TraceRole::Responder => TraceRuntimeView { responder_transcript: phase, ..runtime },
    }
}

/// Notes the transcript phase of one side.
pub fn note_transcript<C>(
    runtime: &mut TraceRuntime<C>,
    role: TraceRole,
    phase: TraceTranscriptPhase,
)
    ensures
        final(runtime)@ == transcript_noted(old(runtime)@, role, phase),
{
    match role {
        TraceRole::Requester => {
            runtime.requester_transcript = phase;
        },
        TraceRole::Responder => {
            runtime.responder_transcript = phase;
        },
    }
}

/// The runtime with another connection state of the requester. That of the responder
/// is read from its own context, so nothing is noted for it.
pub open spec fn connection_noted<C>(
    runtime: TraceRuntimeView<C>,
    role: TraceRole,
    connection_state: SpdmConnectionState,
) -> TraceRuntimeView<C> {
    match role {
        TraceRole::Requester => TraceRuntimeView {
            requester_connection: connection_state,
            ..runtime
        },
        TraceRole::Responder => runtime,
    }
}

/// Notes the connection state of the requester. That of the responder is read
/// from its own context, so nothing is noted for it.
pub fn note_connection<C>(
    runtime: &mut TraceRuntime<C>,
    role: TraceRole,
    connection_state: SpdmConnectionState,
)
    ensures
        final(runtime)@ == connection_noted(old(runtime)@, role, connection_state),
{
    match role {
        TraceRole::Requester => {
            runtime.requester_connection = connection_state;
        },
        TraceRole::Responder => {},
    }
}

/// Whether the generations of the responder have room for this update.
pub open spec fn response_can_count(
    gens: TraceKeyGens,
    op: TraceKeyUpdateOp,
    req_ok: bool,
    resp_ok: bool,
) -> bool {
    &&& op !is VerifyNewKey && req_ok ==> gens.rs_req < u32::MAX
    &&& op is UpdateAll && resp_ok ==> gens.rs_resp < u32::MAX
}

/// Whether the generations of the requester have room for this update.
pub open spec fn ack_can_count(gens: TraceKeyGens, op: TraceKeyUpdateOp) -> bool {
    &&& op !is VerifyNewKey ==> gens.rq_req < u32::MAX
    &&& op is UpdateAll ==> gens.rq_resp < u32::MAX
}

/// One more if `grows`.
pub open spec fn grown(gen: u32, grows: bool) -> u32 {
    if grows {
        (gen + 1) as u32
    } else {
        gen
    }
}

/// The generations after the responder completed a key update: those of its
/// keys that the operation names and that did change are one further.
pub open spec fn gens_after_response(
    gens: TraceKeyGens,
    op: TraceKeyUpdateOp,
    req_ok: bool,
    resp_ok: bool,
) -> TraceKeyGens {
    TraceKeyGens {
        rs_req: grown(gens.rs_req, !(op is VerifyNewKey) && req_ok),
        rs_resp: grown(gens.rs_resp, op is UpdateAll && resp_ok),
        ..gens
    }
}

/// The generations after the requester received the acknowledgement of a key
/// update: those of its keys that the operation names are one further.
pub open spec fn gens_after_ack(gens: TraceKeyGens, op: TraceKeyUpdateOp) -> TraceKeyGens {
    TraceKeyGens {
        rq_req: grown(gens.rq_req, !(op is VerifyNewKey)),
        rq_resp: grown(gens.rq_resp, op is UpdateAll),
        ..gens
    }
}

/// The generations after the first data secrets of one side.
pub open spec fn gens_after_data_secret(gens: TraceKeyGens, role: TraceRole) -> TraceKeyGens {
    match role {
        TraceRole::Requester => TraceKeyGens { rq_req: 1, rq_resp: 1, ..gens },
        TraceRole::Responder => TraceKeyGens { rs_req: 1, rs_resp: 1, ..gens },
    }
}

/// The runtime after the responder completed a key update.
pub open spec fn response_noted<C>(
    runtime: TraceRuntimeView<C>,
    op: TraceKeyUpdateOp,
    req_ok: bool,
    resp_ok: bool,
) -> TraceRuntimeView<C> {
    TraceRuntimeView {
        key_gens: gens_after_response(runtime.key_gens, op, req_ok, resp_ok),
        ..runtime
    }
}

/// The runtime after the requester received an acknowledgement.
pub open spec fn ack_noted<C>(
    runtime: TraceRuntimeView<C>,
    op: TraceKeyUpdateOp,
) -> TraceRuntimeView<C> {
    TraceRuntimeView { key_gens: gens_after_ack(runtime.key_gens, op), ..runtime }
}

/// The runtime after the first data secrets of one side.
pub open spec fn data_secret_noted<C>(
    runtime: TraceRuntimeView<C>,
    role: TraceRole,
) -> TraceRuntimeView<C> {
    TraceRuntimeView { key_gens: gens_after_data_secret(runtime.key_gens, role), ..runtime }
}

/// Whether the generations of the responder have room for this update.
pub fn can_count_response(
    gens: TraceKeyGens,
    op: TraceKeyUpdateOp,
    req_ok: bool,
    resp_ok: bool,
) -> (fits: bool)
    ensures
        fits == response_can_count(gens, op, req_ok, resp_ok),
{
    match op {
        TraceKeyUpdateOp::UpdateSingle => !req_ok || gens.rs_req < u32::MAX,
        TraceKeyUpdateOp::UpdateAll => (!req_ok || gens.rs_req < u32::MAX) && (!resp_ok
            || gens.rs_resp < u32::MAX),
        TraceKeyUpdateOp::VerifyNewKey => true,
    }
}

/// Whether the generations of the requester have room for this update.
pub fn can_count_ack(gens: TraceKeyGens, op: TraceKeyUpdateOp) -> (fits: bool)
    ensures
        fits == ack_can_count(gens, op),
{
    match op {
        TraceKeyUpdateOp::UpdateSingle => gens.rq_req < u32::MAX,
        TraceKeyUpdateOp::UpdateAll => gens.rq_req < u32::MAX && gens.rq_resp < u32::MAX,
        TraceKeyUpdateOp::VerifyNewKey => true,
    }
}

/// Notes that the responder completed a key update.
pub fn note_key_update_response<C>(
    runtime: &mut TraceRuntime<C>,
    op: TraceKeyUpdateOp,
    req_ok: bool,
    resp_ok: bool,
)
    requires
        response_can_count(old(runtime)@.key_gens, op, req_ok, resp_ok),
    ensures
        final(runtime)@ == response_noted(old(runtime)@, op, req_ok, resp_ok),
{
    match op {
        TraceKeyUpdateOp::UpdateSingle => {
            if req_ok {
                runtime.key_gens.rs_req = runtime.key_gens.rs_req + 1;
            }
        },
        TraceKeyUpdateOp::UpdateAll => {
            if req_ok {
                runtime.key_gens.rs_req = runtime.key_gens.rs_req + 1;
            }
            if resp_ok {
                runtime.key_gens.rs_resp = runtime.key_gens.rs_resp + 1;
            }
        },
        TraceKeyUpdateOp::VerifyNewKey => {},
    }
}

/// Notes that the requester received the acknowledgement of a key update.
pub fn note_key_update_ack<C>(runtime: &mut TraceRuntime<C>, op: TraceKeyUpdateOp)
    requires
        ack_can_count(old(runtime)@.key_gens, op),
    ensures
        final(runtime)@ == ack_noted(old(runtime)@, op),
{
    match op {
        TraceKeyUpdateOp::UpdateSingle => {
            runtime.key_gens.rq_req = runtime.key_gens.rq_req + 1;
        },
        TraceKeyUpdateOp::UpdateAll => {
            runtime.key_gens.rq_req = runtime.key_gens.rq_req + 1;
            runtime.key_gens.rq_resp = runtime.key_gens.rq_resp + 1;
        },
        TraceKeyUpdateOp::VerifyNewKey => {},
    }
}

/// Notes that the requester went back to the former keys. The generations stay:
/// the key in use is again the one that they count.
pub fn note_key_update_rollback<C>(
    runtime: &mut TraceRuntime<C>,
    _req_backup_valid: bool,
    _rsp_backup_valid: bool,
)
    ensures
        final(runtime)@ == old(runtime)@,
{
}

/// Notes the first data secrets of one side.
pub fn note_data_secret_generated<C>(runtime: &mut TraceRuntime<C>, role: TraceRole)
    ensures
        final(runtime)@ == data_secret_noted(old(runtime)@, role),
{
    match role {
        TraceRole::Requester => {
            runtime.key_gens.rq_req = 1;
            runtime.key_gens.rq_resp = 1;
        },
        TraceRole::Responder => {
            runtime.key_gens.rs_req = 1;
            runtime.key_gens.rs_resp = 1;
        },
    }
}

/// Notes a new connection: all state starts over, the keys and what was last seen
/// of each side included; the callback stays registered.
pub fn note_reset<C>(runtime: &mut TraceRuntime<C>)
    ensures
        final(runtime)@ == fresh_runtime(old(runtime)@.callback, old(runtime)@.pending),
{
    runtime.key_gens = TraceKeyGens::default();
    runtime.requester_transcript = TraceTranscriptPhase::Empty;
    runtime.responder_transcript = TraceTranscriptPhase::Empty;
    runtime.requester_connection = SpdmConnectionState::SpdmConnectionNotStarted;
    runtime.requester_last = TracePeerState::default();
    runtime.responder_last = TracePeerState::default();
}

/// The session that an event is about: the one named, or else the last one.
pub open spec fn session_in_question(context: ContextView, session_id: Option<u32>) -> Option<
    u32,
> {
    match session_id {
        Some(id) => Some(id),
        None => context.last_session_id,
    }
}

/// How far the session that an event is about has come.
pub open spec fn observed_session_state(
    context: ContextView,
    session_id: Option<u32>,
) -> SpdmSessionState {
    match session_in_question(context, session_id) {
        Some(id) => match context.find(id) {
            Some(session) => session.session_state,
            None => SpdmSessionState::SpdmSessionNotStarted,
        },
        None => SpdmSessionState::SpdmSessionNotStarted,
    }
}

/// What is seen of one side at this moment. The connection state of the
/// requester is the one that was noted, that of the responder the one in its
/// context.
pub open spec fn observed_peer<C>(
    runtime: TraceRuntimeView<C>,
    role: TraceRole,
    context: ContextView,
    session_id: Option<u32>,
) -> TracePeerState {
    TracePeerState {
        connection_state: Some(
            match role {
                TraceRole::Requester => runtime.requester_connection,
                TraceRole::Responder => context.connection_state,
            },
        ),
        session_state: Some(observed_session_state(context, session_id)),
        transcript_phase: Some(
            match role {
                TraceRole::Requester => runtime.requester_transcript,
                TraceRole::Responder => runtime.responder_transcript,
            },
        ),
    }
}

/// The runtime with what was last seen of one side.
pub open spec fn peer_noted<C>(
    runtime: TraceRuntimeView<C>,
    role: TraceRole,
    peer: TracePeerState,
) -> TraceRuntimeView<C> {
    match role {
        TraceRole::Requester => TraceRuntimeView { requester_last: peer, ..runtime },
        TraceRole::Responder => TraceRuntimeView { responder_last: peer, ..runtime },
    }
}

/// The runtime with one more event in its queue, if a callback is registered.
pub open spec fn queued<C>(
    runtime: TraceRuntimeView<C>,
    event: TraceEventView,
    follows: bool,
) -> TraceRuntimeView<C> {
    match runtime.callback {
        Some(callback) => TraceRuntimeView {
            pending: runtime.pending.push(TraceDeliveryView { callback, event, follows }),
            ..runtime
        },
        None => runtime,
    }
}

/// The two marks of a valid backup in the session of this id; both are off
/// where there is no such session.
pub open spec fn backup_marks(context: ContextView, session_id: Option<u32>) -> (bool, bool) {
    match session_id {
        Some(id) => match context.find(id) {
            Some(session) => (session.requester_backup_valid, session.responder_backup_valid),
            None => (false, false),
        },
        None => (false, false),
    }
}

/// The state that an event reports: the side it belongs to, the other side as
/// it was last seen if asked for, and the keys if asked for.
pub open spec fn reported_state<C>(
    runtime: TraceRuntimeView<C>,
    role: TraceRole,
    context: ContextView,
    session_id: Option<u32>,
    with_remote: bool,
    with_keys: bool,
) -> TraceStateSnapshot {
    let local = observed_peer(runtime, role, context, session_id);
    TraceStateSnapshot {
        requester: match role {
            TraceRole::Requester => Some(local),
            TraceRole::Responder => if with_remote {
                Some(runtime.requester_last)
            } else {
                None
            },
        },
        responder: match role {
            TraceRole::Responder => Some(local),
            TraceRole::Requester => if with_remote {
                Some(runtime.responder_last)
            } else {
                None
            },
        },
        key_gens: if with_keys {
            Some(runtime.key_gens)
        } else {
            None
        },
        req_backup_valid: if with_keys {
            Some(backup_marks(context, session_id).0)
        } else {
            None
        },
        rsp_backup_valid: if with_keys {
            Some(backup_marks(context, session_id).1)
        } else {
            None
        },
    }
}

/// The name of a side in an event.
pub open spec fn role_text(role: TraceRole) -> &'static str {
    match role {
        TraceRole::Requester => "requester",
        TraceRole::Responder => "responder",
    }
}

/// The runtime after an event about the state of one side.
pub open spec fn state_event_emitted<C>(
    runtime: TraceRuntimeView<C>,
    role: TraceRole,
    context: ContextView,
    session_id: Option<u32>,
    name: &'static str,
    msg: TraceMessage,
    with_remote: bool,
    with_keys: bool,
) -> TraceRuntimeView<C> {
    queued(
        peer_noted(runtime, role, observed_peer(runtime, role, context, session_id)),
        TraceEventView {
            name,
            nid: role_text(role),
            state: reported_state(runtime, role, context, session_id, with_remote, with_keys),
            msg,
            r2: None,
        },
        false,
    )
}

/// The runtime after an event with the state of one side alone.
pub open spec fn local_event_emitted<C>(
    runtime: TraceRuntimeView<C>,
    role: TraceRole,
    context: ContextView,
    session_id: Option<u32>,
    name: &'static str,
    msg: TraceMessage,
) -> TraceRuntimeView<C> {
    state_event_emitted(runtime, role, context, session_id, name, msg, false, false)
}

/// The runtime after an event with the state of one side and the keys.
pub open spec fn key_event_emitted<C>(
    runtime: TraceRuntimeView<C>,
    role: TraceRole,
    context: ContextView,
    session_id: u32,
    name: &'static str,
    msg: TraceMessage,
) -> TraceRuntimeView<C> {
    state_event_emitted(runtime, role, context, Some(session_id), name, msg, false, true)
}

/// The runtime after an event with the state of both sides.
pub open spec fn finish_event_emitted<C>(
    runtime: TraceRuntimeView<C>,
    role: TraceRole,
    context: ContextView,
    session_id: u32,
    name: &'static str,
) -> TraceRuntimeView<C> {
    state_event_emitted(runtime, role, context, Some(session_id), name, no_message(), true, false)
}

/// An event with further fields.
pub open spec fn r2_event(role: TraceRole, name: &'static str, r2: TraceR2View) -> TraceEventView {
    TraceEventView {
        name,
        nid: role_text(role),
        state: no_snapshot(),
        msg: no_message(),
        r2: Some(r2),
    }
}

/// The runtime after an event with further fields.
pub open spec fn r2_event_emitted<C>(
    runtime: TraceRuntimeView<C>,
    role: TraceRole,
    name: &'static str,
    r2: TraceR2View,
) -> TraceRuntimeView<C> {
    queued(runtime, r2_event(role, name, r2), false)
}

/// The runtime after an event with further fields that follows another event of the
/// same step.
pub open spec fn r2_event_followed<C>(
    runtime: TraceRuntimeView<C>,
    role: TraceRole,
    name: &'static str,
    r2: TraceR2View,
) -> TraceRuntimeView<C> {
    queued(runtime, r2_event(role, name, r2), true)
}

/// Queues an event for the callback, if one is registered.
fn queue<C: Copy>(runtime: &mut TraceRuntime<C>, event: TraceEvent, follows: bool)
    ensures
        final(runtime)@ == queued(old(runtime)@, event@, follows),
{
    if let Some(callback) = runtime.callback {
        let ghost before = runtime@;
        runtime.pending.push(TraceDelivery { callback, event, follows });
        assert(runtime@.pending =~= before.pending.push(
            TraceDeliveryView { callback, event: event@, follows },
        ));
    }
}

/// Notes what is seen of one side at this moment.
pub fn observe_local_state<C>(
    runtime: &mut TraceRuntime<C>,
    role: TraceRole,
    context: &SpdmContext,
    session_id: Option<u32>,
)
    ensures
        final(runtime)@ == peer_noted(
            old(runtime)@,
            role,
            observed_peer(old(runtime)@, role, context@, session_id),
        ),
{
    let peer = local_peer_state(runtime, role, context, session_id);
    match role {
        TraceRole::Requester => {
            runtime.requester_last = peer;
        },
        TraceRole::Responder => {
            runtime.responder_last = peer;
        },
    }
}

/// Emits an event with the state of one side alone.
pub fn emit_local_event<C: Copy>(
    runtime: &mut TraceRuntime<C>,
    role: TraceRole,
    context: &SpdmContext,
    session_id: Option<u32>,
    name: &'static str,
    msg: TraceMessage,
)
    ensures
        final(runtime)@ == local_event_emitted(
            old(runtime)@,
            role,
            context@,
            session_id,
            name,
            msg,
        ),
{
    emit_event(runtime, role, context, session_id, name, msg, false, false);
}

/// Emits an event with the state of one side and the keys.
pub fn emit_key_event<C: Copy>(
    runtime: &mut TraceRuntime<C>,
    role: TraceRole,
    context: &SpdmContext,
    session_id: u32,
    name: &'static str,
    msg: TraceMessage,
)
    ensures
        final(runtime)@ == key_event_emitted(
            old(runtime)@,
            role,
            context@,
            session_id,
            name,
            msg,
        ),
{
    emit_event(runtime, role, context, Some(session_id), name, msg, false, true);
}

/// Emits an event with the state of both sides.
pub fn emit_finish_event<C: Copy>(
    runtime: &mut TraceRuntime<C>,
    role: TraceRole,
    context: &SpdmContext,
    session_id: u32,
    name: &'static str,
)
    ensures
        final(runtime)@ == finish_event_emitted(old(runtime)@, role, context@, session_id, name),
{
    emit_event(
        runtime,
        role,
        context,
        Some(session_id),
        name,
        TraceMessage::default(),
        true,
        false,
    );
}

/// Emits an event about the state of one side.
pub fn emit_event<C: Copy>(
    runtime: &mut TraceRuntime<C>,
    role: TraceRole,
    context: &SpdmContext,
    session_id: Option<u32>,
    name: &'static str,
    msg: TraceMessage,
    with_remote: bool,
    with_keys: bool,
)
    ensures
        final(runtime)@ == state_event_emitted(
            old(runtime)@,
            role,
            context@,
            session_id,
            name,
            msg,
            with_remote,
            with_keys,
        ),
{
    let local = local_peer_state(runtime, role, context, session_id);
    let remote = match role {
        TraceRole::Requester => runtime.responder_last,
        TraceRole::Responder => runtime.requester_last,
    };
    match role {
        TraceRole::Requester => {
            runtime.requester_last = local;
        },
        TraceRole::Responder => {
            runtime.responder_last = local;
        },
    }
    let mut state = TraceStateSnapshot::default();
    match role {
        TraceRole::Requester => {
            state.requester = Some(local);
            if with_remote {
                state.responder = Some(remote);
            }
        },
        TraceRole::Responder => {
            state.responder = Some(local);
            if with_remote {
                state.requester = Some(remote);
            }
        },
    }
    if with_keys {
        let (req_backup_valid, rsp_backup_valid) = match session_id {
            Some(id) => session_backup_marks(context, id),
            None => (false, false),
        };
        state.key_gens = Some(runtime.key_gens);
        state.req_backup_valid = Some(req_backup_valid);
        state.rsp_backup_valid = Some(rsp_backup_valid);
    }
    queue(runtime, TraceEvent { name, nid: role_name(role), state, msg, r2: None }, false);
}

/// The two marks of a valid backup in the session of this id; both are off
/// where there is no such session.
pub fn session_backup_marks(context: &SpdmContext, session_id: u32) -> (marks: (bool, bool))
    ensures
        marks == backup_marks(context@, Some(session_id)),
{
    match context.get_immutable_session_via_id(session_id) {
        Some(session) => (
            session.get_requester_backup_valid(),
            session.get_responder_backup_valid(),
        ),
        None => (false, false),
    }
}

/// What is seen of one side at this moment.
fn local_peer_state<C>(
    runtime: &TraceRuntime<C>,
    role: TraceRole,
    context: &SpdmContext,
    session_id: Option<u32>,
) -> (peer: TracePeerState)
    ensures
        peer == observed_peer(runtime@, role, context@, session_id),
{
    TracePeerState {
        connection_state: Some(
            match role {
                TraceRole::Requester => runtime.requester_connection,
                TraceRole::Responder => context.runtime_info.connection_state,
            },
        ),
        session_state: Some(
            match active_session(context, session_id) {
                Some(session) => session.get_session_state(),
                None => SpdmSessionState::SpdmSessionNotStarted,
            },
        ),
        transcript_phase: Some(
            match role {
                TraceRole::Requester => runtime.requester_transcript,
                TraceRole::Responder => runtime.responder_transcript,
            },
        ),
    }
}

/// The session that an event is about: the one named, or else the last one.
fn active_session(context: &SpdmContext, session_id: Option<u32>) -> (session: Option<&SpdmSession>)
    ensures
        match (session, session_in_question(context@, session_id)) {
            (Some(session), Some(id)) => context@.find(id) == Some(session@),
            (Some(session), None) => false,
            (None, Some(id)) => context@.find(id) is None,
            (None, None) => true,
        },
{
    let wanted: Option<u32> = match session_id {
        Some(id) => Some(id),
        None => context.runtime_info.last_session_id,
    };
    match wanted {
        Some(id) => context.get_immutable_session_via_id(id),
        None => None,
    }
}

/// The name of a side in an event.
pub fn role_name(role: TraceRole) -> (name: &'static str)
    ensures
        name == role_text(role),
{
    match role {
        TraceRole::Requester => "requester",
        TraceRole::Responder => "responder",
    }
}

/// The name alone if `present`, nothing otherwise.
pub open spec fn listed(present: bool, name: &'static str) -> Seq<&'static str> {
    if present {
        seq![name]
    } else {
        Seq::empty()
    }
}

/// The names of the capabilities of a requester that the trace reports.
pub open spec fn req_cap_names(flags: SpdmRequestCapabilityFlags) -> Seq<&'static str> {
    listed(flags.has(SpdmRequestCapabilityFlags::HBEAT_CAP), "HBEAT_CAP") + listed(
        flags.has(SpdmRequestCapabilityFlags::KEY_UPD_CAP),
        "KEY_UPD_CAP",
    ) + listed(
        flags.has(SpdmRequestCapabilityFlags::HANDSHAKE_IN_THE_CLEAR_CAP),
        "HANDSHAKE_IN_THE_CLEAR_CAP",
    ) + listed(flags.has(SpdmRequestCapabilityFlags::PSK_CAP), "PSK_CAP") + listed(
        flags.has(SpdmRequestCapabilityFlags::MUT_AUTH_CAP),
        "MUT_AUTH_CAP",
    ) + listed(flags.has(SpdmRequestCapabilityFlags::CHUNK_CAP), "CHUNK_CAP")
}

/// The names of the capabilities of a responder that the trace reports. Both
/// kinds of pre-shared key go by one name, which is listed once for each.
pub open spec fn rsp_cap_names(flags: SpdmResponseCapabilityFlags) -> Seq<&'static str> {
    listed(flags.has(SpdmResponseCapabilityFlags::HBEAT_CAP), "HBEAT_CAP") + listed(
        flags.has(SpdmResponseCapabilityFlags::KEY_UPD_CAP),
        "KEY_UPD_CAP",
    ) + listed(
        flags.has(SpdmResponseCapabilityFlags::HANDSHAKE_IN_THE_CLEAR_CAP),
        "HANDSHAKE_IN_THE_CLEAR_CAP",
    ) + listed(flags.has(SpdmResponseCapabilityFlags::PSK_CAP_WITH_CONTEXT), "PSK_CAP") + listed(
        flags.has(SpdmResponseCapabilityFlags::PSK_CAP_WITHOUT_CONTEXT),
        "PSK_CAP",
    ) + listed(flags.has(SpdmResponseCapabilityFlags::MUT_AUTH_CAP), "MUT_AUTH_CAP") + listed(
        flags.has(SpdmResponseCapabilityFlags::CHUNK_CAP),
        "CHUNK_CAP",
    )
}

/// Appends the name if `present`.
fn list_name(names: &mut Vec<&'static str>, present: bool, name: &'static str)
    ensures
        final(names)@ == old(names)@ + listed(present, name),
{
    let ghost before = names@;
    if present {
        names.push(name);
    }
    assert(names@ =~= before + listed(present, name));
}

/// The names of the capabilities of a requester that the trace reports.
pub fn req_cap_flags(flags: SpdmRequestCapabilityFlags) -> (names: Vec<&'static str>)
    ensures
        names@ == req_cap_names(flags),
{
    let mut names: Vec<&'static str> = Vec::new();
    list_name(&mut names, flags.contains(SpdmRequestCapabilityFlags::HBEAT_CAP), "HBEAT_CAP");
    list_name(&mut names, flags.contains(SpdmRequestCapabilityFlags::KEY_UPD_CAP), "KEY_UPD_CAP");
    list_name(
        &mut names,
        flags.contains(SpdmRequestCapabilityFlags::HANDSHAKE_IN_THE_CLEAR_CAP),
        "HANDSHAKE_IN_THE_CLEAR_CAP",
    );
    list_name(&mut names, flags.contains(SpdmRequestCapabilityFlags::PSK_CAP), "PSK_CAP");
    list_name(&mut names, flags.contains(SpdmRequestCapabilityFlags::MUT_AUTH_CAP), "MUT_AUTH_CAP");
    list_name(&mut names, flags.contains(SpdmRequestCapabilityFlags::CHUNK_CAP), "CHUNK_CAP");
    assert(names@ =~= req_cap_names(flags));
    names
}

/// The names of the capabilities of a responder that the trace reports.
pub fn rsp_cap_flags(flags: SpdmResponseCapabilityFlags) -> (names: Vec<&'static str>)
    ensures
        names@ == rsp_cap_names(flags),
{
    let mut names: Vec<&'static str> = Vec::new();
    list_name(&mut names, flags.contains(SpdmResponseCapabilityFlags::HBEAT_CAP), "HBEAT_CAP");
    list_name(&mut names, flags.contains(SpdmResponseCapabilityFlags::KEY_UPD_CAP), "KEY_UPD_CAP");
    list_name(
        &mut names,
        flags.contains(SpdmResponseCapabilityFlags::HANDSHAKE_IN_THE_CLEAR_CAP),
        "HANDSHAKE_IN_THE_CLEAR_CAP",
    );
    list_name(
        &mut names,
        flags.contains(SpdmResponseCapabilityFlags::PSK_CAP_WITH_CONTEXT),
        "PSK_CAP",
    );
    list_name(
        &mut names,
        flags.contains(SpdmResponseCapabilityFlags::PSK_CAP_WITHOUT_CONTEXT),
        "PSK_CAP",
    );
    list_name(
        &mut names,
        flags.contains(SpdmResponseCapabilityFlags::MUT_AUTH_CAP),
        "MUT_AUTH_CAP",
    );
    list_name(&mut names, flags.contains(SpdmResponseCapabilityFlags::CHUNK_CAP), "CHUNK_CAP");
    assert(names@ =~= rsp_cap_names(flags));
    names
}

/// Which kind of pre-shared key a responder offers; with a context comes first.
pub open spec fn psk_mode(flags: SpdmResponseCapabilityFlags) -> Option<&'static str> {
    if flags.has(SpdmResponseCapabilityFlags::PSK_CAP_WITH_CONTEXT) {
        Some("WithContext")
    } else if flags.has(SpdmResponseCapabilityFlags::PSK_CAP_WITHOUT_CONTEXT) {
        Some("WithoutContext")
    } else {
        None
    }
}

/// Which kind of pre-shared key a responder offers.
pub fn rsp_psk_cap_mode(flags: SpdmResponseCapabilityFlags) -> (mode: Option<&'static str>)
    ensures
        mode == psk_mode(flags),
{
    if flags.contains(SpdmResponseCapabilityFlags::PSK_CAP_WITH_CONTEXT) {
        Some("WithContext")
    } else if flags.contains(SpdmResponseCapabilityFlags::PSK_CAP_WITHOUT_CONTEXT) {
        Some("WithoutContext")
    } else {
        None
    }
}

/// The name under which the trace reports a hash algorithm: one name for
/// SHA-256 alone, another for all the rest.
pub open spec fn algo_text(hash: SpdmBaseHashAlgo) -> &'static str {
    if hash.bits == SpdmBaseHashAlgo::TPM_ALG_SHA_256 {
        "a2"
    } else {
        "a1"
    }
}

/// The name under which the trace reports a hash algorithm.
pub fn algo_name(hash: SpdmBaseHashAlgo) -> (name: &'static str)
    ensures
        name == algo_text(hash),
{
    if hash.bits == SpdmBaseHashAlgo::TPM_ALG_SHA_384 {
        "a1"
    } else if hash.bits == SpdmBaseHashAlgo::TPM_ALG_SHA_256 {
        "a2"
    } else {
        "a1"
    }
}

/// The operation of a key update as the trace reports it. One that is not
/// defined is reported as the verification of a new key.
pub open spec fn traced_operation(operation: SpdmKeyUpdateOperation) -> TraceKeyUpdateOp {
    match operation {
        SpdmKeyUpdateOperation::SpdmUpdateSingleKey => TraceKeyUpdateOp::UpdateSingle,
        SpdmKeyUpdateOperation::SpdmUpdateAllKeys => TraceKeyUpdateOp::UpdateAll,
        _ => TraceKeyUpdateOp::VerifyNewKey,
    }
}

/// The operation of a key update as the trace reports it.
pub fn trace_operation(operation: SpdmKeyUpdateOperation) -> (op: TraceKeyUpdateOp)
    ensures
        op == traced_operation(operation),
{
    match operation {
        SpdmKeyUpdateOperation::SpdmUpdateSingleKey => TraceKeyUpdateOp::UpdateSingle,
        SpdmKeyUpdateOperation::SpdmUpdateAllKeys => TraceKeyUpdateOp::UpdateAll,
        SpdmKeyUpdateOperation::SpdmVerifyNewKey => TraceKeyUpdateOp::VerifyNewKey,
        SpdmKeyUpdateOperation::Unknown(_) => TraceKeyUpdateOp::VerifyNewKey,
    }
}

/// The name of an operation of a key update.
pub open spec fn operation_text(op: TraceKeyUpdateOp) -> &'static str {
    match op {
        TraceKeyUpdateOp::UpdateSingle => "OpUpdateSingle",
        TraceKeyUpdateOp::UpdateAll => "OpUpdateAll",
        TraceKeyUpdateOp::VerifyNewKey => "OpVerifyNewKey",
    }
}

/// The name of an operation of a key update.
pub fn key_update_op_name(op: TraceKeyUpdateOp) -> (name: &'static str)
    ensures
        name == operation_text(op),
{
    match op {
        TraceKeyUpdateOp::UpdateSingle => "OpUpdateSingle",
        TraceKeyUpdateOp::UpdateAll => "OpUpdateAll",
        TraceKeyUpdateOp::VerifyNewKey => "OpVerifyNewKey",
    }
}

/// The name of a session state. A state that is not known goes by the name of a
/// session that has not started.
pub open spec fn session_state_text(state: SpdmSessionState) -> &'static str {
    match state {
        SpdmSessionState::SpdmSessionHandshaking => "Handshaking",
        SpdmSessionState::SpdmSessionEstablished => "Established",
        _ => "NotStarted",
    }
}

/// The name of a session state.
pub fn session_state_str(state: SpdmSessionState) -> (name: &'static str)
    ensures
        name == session_state_text(state),
{
    match state {
        SpdmSessionState::SpdmSessionNotStarted => "NotStarted",
        SpdmSessionState::SpdmSessionHandshaking => "Handshaking",
        SpdmSessionState::SpdmSessionEstablished => "Established",
        _ => "NotStarted",
    }
}

/// The name of a connection state. A state without a name of its own goes by
/// the name of a connection that has not started.
pub open spec fn connection_state_text(state: SpdmConnectionState) -> &'static str {
    match state {
        SpdmConnectionState::SpdmConnectionAfterVersion => "AfterVersion",
        SpdmConnectionState::SpdmConnectionAfterCapabilities => "AfterCapabilities",
        SpdmConnectionState::SpdmConnectionNegotiated => "Negotiated",
        SpdmConnectionState::SpdmConnectionAfterCertificate => "AfterCertificate",
        SpdmConnectionState::SpdmConnectionAuthenticated => "Authenticated",
        _ => "NotStarted",
    }
}

/// The name of a connection state.
pub fn connection_state_str(state: SpdmConnectionState) -> (name: &'static str)
    ensures
        name == connection_state_text(state),
{
    match state {
        SpdmConnectionState::SpdmConnectionNotStarted => "NotStarted",
        SpdmConnectionState::SpdmConnectionAfterVersion => "AfterVersion",
        SpdmConnectionState::SpdmConnectionAfterCapabilities => "AfterCapabilities",
        SpdmConnectionState::SpdmConnectionNegotiated => "Negotiated",
        SpdmConnectionState::SpdmConnectionAfterCertificate => "AfterCertificate",
        SpdmConnectionState::SpdmConnectionAuthenticated => "Authenticated",
        _ => "NotStarted",
    }
}

/// The number under which the trace reports a version: the major and the minor
/// number as the two digits of a decimal number.
pub open spec fn traced_version(version: SpdmVersion) -> int {
    10 * (version_byte(version) / 0x10) + version_byte(version) % 0x10
}

/// The number under which the trace reports a version.
pub fn version_number(version: SpdmVersion) -> (number: u8)
    ensures
        number == traced_version(version),
{
    match version {
        SpdmVersion::SpdmVersion10 => 10,
        SpdmVersion::SpdmVersion11 => 11,
        SpdmVersion::SpdmVersion12 => 12,
        SpdmVersion::SpdmVersion13 => 13,
        SpdmVersion::SpdmVersion14 => 14,
    }
}

/// Emits an event with further fields.
pub fn emit_r2_event<C: Copy>(
    runtime: &mut TraceRuntime<C>,
    role: TraceRole,
    name: &'static str,
    r2: TraceR2Fields,
)
    ensures
        final(runtime)@ == r2_event_emitted(old(runtime)@, role, name, r2@),
{
    let event = build_r2_event(role, name, r2);
    queue(runtime, event, false);
}

/// Emits an event with further fields that follows another event of the same step.
pub fn emit_following_r2_event<C: Copy>(
    runtime: &mut TraceRuntime<C>,
    role: TraceRole,
    name: &'static str,
    r2: TraceR2Fields,
)
    ensures
        final(runtime)@ == r2_event_followed(old(runtime)@, role, name, r2@),
{
    let event = build_r2_event(role, name, r2);
    queue(runtime, event, true);
}

/// An event with further fields.
fn build_r2_event(role: TraceRole, name: &'static str, r2: TraceR2Fields) -> (event: TraceEvent)
    ensures
        event@ == r2_event(role, name, r2@),
{
    TraceEvent {
        name,
        nid: role_name(role),
        state: TraceStateSnapshot::default(),
        msg: TraceMessage::default(),
        r2: Some(r2),
    }
}

/// Whether both sides count the same generation of each key.
pub open spec fn gens_in_step(gens: TraceKeyGens) -> bool {
    gens.rq_req == gens.rs_req && gens.rq_resp == gens.rs_resp
}

/// A key update that the responder completes in every direction and that the
/// requester sees acknowledged keeps both sides in step.
pub proof fn law_completed_update_keeps_step(gens: TraceKeyGens, op: TraceKeyUpdateOp)
    requires
        gens_in_step(gens),
        response_can_count(gens, op, true, true),
        ack_can_count(gens, op),
    ensures
        gens_in_step(gens_after_ack(gens_after_response(gens, op, true, true), op)),
{
}

/// Where the responder acknowledges an update of the request direction that it
/// did not make, the requester is one generation ahead from then on.
pub proof fn law_unmade_update_loses_step(
    gens: TraceKeyGens,
    op: TraceKeyUpdateOp,
    resp_ok: bool,
)
    requires
        gens_in_step(gens),
        ack_can_count(gens, op),
        response_can_count(gens, op, false, resp_ok),
        op !is VerifyNewKey,
    ensures
        ({
            let after = gens_after_ack(gens_after_response(gens, op, false, resp_ok), op);
            after.rq_req == after.rs_req + 1
        }),
{
}

/// Verifying a new key starts no generation, on either side.
pub proof fn law_verifying_starts_no_generation(gens: TraceKeyGens, req_ok: bool, resp_ok: bool)
    ensures
        gens_after_response(gens, TraceKeyUpdateOp::VerifyNewKey, req_ok, resp_ok) == gens,
        gens_after_ack(gens, TraceKeyUpdateOp::VerifyNewKey) == gens,
{
}

/// No step of a key update makes a generation smaller, and each side only
/// touches its own two.
pub proof fn law_generations_only_grow(
    gens: TraceKeyGens,
    op: TraceKeyUpdateOp,
    req_ok: bool,
    resp_ok: bool,
)
    requires
        response_can_count(gens, op, req_ok, resp_ok),
        ack_can_count(gens, op),
    ensures
        ({
            let after = gens_after_response(gens, op, req_ok, resp_ok);
            &&& gens.rs_req <= after.rs_req <= gens.rs_req + 1
            &&& gens.rs_resp <= after.rs_resp <= gens.rs_resp + 1
            &&& after.rq_req == gens.rq_req && after.rq_resp == gens.rq_resp
        }),
        ({
            let after = gens_after_ack(gens, op);
            &&& gens.rq_req <= after.rq_req <= gens.rq_req + 1
            &&& gens.rq_resp <= after.rq_resp <= gens.rq_resp + 1
            &&& after.rs_req == gens.rs_req && after.rs_resp == gens.rs_resp
        }),
{
}

/// Once both sides have their first data secrets, every key is in its first
/// generation, whatever was counted before.
pub proof fn law_first_secrets_are_in_step(gens: TraceKeyGens)
    ensures
        gens_after_data_secret(
            gens_after_data_secret(gens, TraceRole::Requester),
            TraceRole::Responder,
        ) == (TraceKeyGens { rq_req: 1, rq_resp: 1, rs_req: 1, rs_resp: 1 }),
        gens_after_data_secret(
            gens_after_data_secret(gens, TraceRole::Responder),
            TraceRole::Requester,
        ) == (TraceKeyGens { rq_req: 1, rq_resp: 1, rs_req: 1, rs_resp: 1 }),
{
}

/// An event observes and reports, and does nothing else: the shadow state
/// changes at most in what was last seen of the side the event belongs to, and
/// the events already queued stay in front.
pub proof fn law_events_only_observe<C>(
    runtime: TraceRuntimeView<C>,
    role: TraceRole,
    context: ContextView,
    session_id: Option<u32>,
    name: &'static str,
    msg: TraceMessage,
    with_remote: bool,
    with_keys: bool,
)
    ensures
        ({
            let after = state_event_emitted(
                runtime,
                role,
                context,
                session_id,
                name,
                msg,
                with_remote,
                with_keys,
            );
            &&& after.callback == runtime.callback
            &&& after.requester_connection == runtime.requester_connection
            &&& after.requester_transcript == runtime.requester_transcript
            &&& after.responder_transcript == runtime.responder_transcript
            &&& after.key_gens == runtime.key_gens
            &&& role is Requester ==> after.responder_last == runtime.responder_last
            &&& role is Responder ==> after.requester_last == runtime.requester_last
            &&& runtime.pending.is_prefix_of(after.pending)
            &&& after.pending.len() == runtime.pending.len() + if runtime.callback is Some {
                1nat
            } else {
                0nat
            }
        }),
{
}

/// An event with further fields leaves the shadow state as it is, whether or not it
/// follows another event.
pub proof fn law_further_fields_only_report<C>(
    runtime: TraceRuntimeView<C>,
    role: TraceRole,
    name: &'static str,
    r2: TraceR2View,
)
    ensures
        ({
            let after = r2_event_emitted(runtime, role, name, r2);
            &&& after == (TraceRuntimeView { pending: after.pending, ..runtime })
            &&& runtime.pending.is_prefix_of(after.pending)
        }),
        ({
            let after = r2_event_followed(runtime, role, name, r2);
            &&& after == (TraceRuntimeView { pending: after.pending, ..runtime })
            &&& runtime.pending.is_prefix_of(after.pending)
        }),
{
}

/// Without a callback nothing is queued, and an event with further fields
/// changes nothing at all.
pub proof fn law_no_callback_no_event<C>(
    runtime: TraceRuntimeView<C>,
    event: TraceEventView,
    follows: bool,
    role: TraceRole,
    name: &'static str,
    r2: TraceR2View,
)
    requires
        runtime.callback is None,
    ensures
        queued(runtime, event, follows).pending == runtime.pending,
        r2_event_emitted(runtime, role, name, r2) == runtime,
        r2_event_followed(runtime, role, name, r2) == runtime,
{
}

/// A reset leaves nothing behind: whatever was seen before, two runtimes with the
/// same callback and the same queue are equal after it, no side has a record or a
/// key, and a second reset changes nothing more.
pub proof fn law_reset_is_complete<C>(first: TraceRuntimeView<C>, second: TraceRuntimeView<C>)
    requires
        first.callback == second.callback,
        first.pending == second.pending,
    ensures
        ({
            let reset = fresh_runtime(first.callback, first.pending);
            &&& fresh_runtime(second.callback, second.pending) == reset
            &&& fresh_runtime(reset.callback, reset.pending) == reset
            &&& reset.requester_last == no_peer_state()
            &&& reset.responder_last == no_peer_state()
            &&& reset.key_gens == no_keys()
        }),
{
}

/// A name is in two lists joined together exactly where it is in one of them.
proof fn lemma_joined_names(front: Seq<&'static str>, back: Seq<&'static str>, name: &'static str)
    ensures
        (front + back).contains(name) == (front.contains(name) || back.contains(name)),
{
    let all = front + back;
    if front.contains(name) {
        let i = choose|i: int| 0 <= i < front.len() && front[i] == name;
        assert(all[i] == name);
    }
    if back.contains(name) {
        let i = choose|i: int| 0 <= i < back.len() && back[i] == name;
        assert(all[front.len() + i] == name);
    }
    if all.contains(name) {
        let i = choose|i: int| 0 <= i < all.len() && all[i] == name;
        if i < front.len() {
            assert(front[i] == name);
        } else {
            assert(back[i - front.len()] == name);
        }
    }
}

/// Appending a name that may be left out adds that name alone.
proof fn lemma_one_more_name(
    front: Seq<&'static str>,
    present: bool,
    last: &'static str,
    name: &'static str,
)
    ensures
        (front + listed(present, last)).contains(name) == (front.contains(name) || (present && last
            == name)),
{
    lemma_joined_names(front, listed(present, last), name);
    if present {
        assert(listed(present, last)[0] == last);
    }
}

/// The names of the capabilities are all different.
proof fn lemma_cap_names_differ()
    ensures
        "HBEAT_CAP" != "KEY_UPD_CAP",
        "HBEAT_CAP" != "HANDSHAKE_IN_THE_CLEAR_CAP",
        "HBEAT_CAP" != "PSK_CAP",
        "HBEAT_CAP" != "MUT_AUTH_CAP",
        "HBEAT_CAP" != "CHUNK_CAP",
        "KEY_UPD_CAP" != "HANDSHAKE_IN_THE_CLEAR_CAP",
        "KEY_UPD_CAP" != "PSK_CAP",
        "KEY_UPD_CAP" != "MUT_AUTH_CAP",
        "KEY_UPD_CAP" != "CHUNK_CAP",
        "HANDSHAKE_IN_THE_CLEAR_CAP" != "PSK_CAP",
        "HANDSHAKE_IN_THE_CLEAR_CAP" != "MUT_AUTH_CAP",
        "HANDSHAKE_IN_THE_CLEAR_CAP" != "CHUNK_CAP",
        "PSK_CAP" != "MUT_AUTH_CAP",
        "PSK_CAP" != "CHUNK_CAP",
        "MUT_AUTH_CAP" != "CHUNK_CAP",
{
    reveal_strlit("HBEAT_CAP");
    reveal_strlit("KEY_UPD_CAP");
    reveal_strlit("HANDSHAKE_IN_THE_CLEAR_CAP");
    reveal_strlit("PSK_CAP");
    reveal_strlit("MUT_AUTH_CAP");
    reveal_strlit("CHUNK_CAP");
    assert("HBEAT_CAP"@[0] == 'H' && "HBEAT_CAP"@.len() == 9);
    assert("KEY_UPD_CAP"@[0] == 'K');
    assert("HANDSHAKE_IN_THE_CLEAR_CAP"@[0] == 'H' && "HANDSHAKE_IN_THE_CLEAR_CAP"@.len() == 26);
    assert("PSK_CAP"@[0] == 'P');
    assert("MUT_AUTH_CAP"@[0] == 'M');
    assert("CHUNK_CAP"@[0] == 'C');
}

/// Which names a list of requester capabilities holds.
proof fn lemma_req_cap_names(flags: SpdmRequestCapabilityFlags, name: &'static str)
    ensures
        req_cap_names(flags).contains(name) == {
            ||| flags.has(SpdmRequestCapabilityFlags::HBEAT_CAP) && "HBEAT_CAP" == name
            ||| flags.has(SpdmRequestCapabilityFlags::KEY_UPD_CAP) && "KEY_UPD_CAP" == name
            ||| flags.has(SpdmRequestCapabilityFlags::HANDSHAKE_IN_THE_CLEAR_CAP)
                && "HANDSHAKE_IN_THE_CLEAR_CAP" == name
            ||| flags.has(SpdmRequestCapabilityFlags::PSK_CAP) && "PSK_CAP" == name
            ||| flags.has(SpdmRequestCapabilityFlags::MUT_AUTH_CAP) && "MUT_AUTH_CAP" == name
            ||| flags.has(SpdmRequestCapabilityFlags::CHUNK_CAP) && "CHUNK_CAP" == name
        },
{
    let b0 = flags.has(SpdmRequestCapabilityFlags::HBEAT_CAP);
    let b1 = flags.has(SpdmRequestCapabilityFlags::KEY_UPD_CAP);
    let b2 = flags.has(SpdmRequestCapabilityFlags::HANDSHAKE_IN_THE_CLEAR_CAP);
    let b3 = flags.has(SpdmRequestCapabilityFlags::PSK_CAP);
    let b4 = flags.has(SpdmRequestCapabilityFlags::MUT_AUTH_CAP);
    let b5 = flags.has(SpdmRequestCapabilityFlags::CHUNK_CAP);
    let s0 = listed(b0, "HBEAT_CAP");
    let s1 = s0 + listed(b1, "KEY_UPD_CAP");
    let s2 = s1 + listed(b2, "HANDSHAKE_IN_THE_CLEAR_CAP");
    let s3 = s2 + listed(b3, "PSK_CAP");
    let s4 = s3 + listed(b4, "MUT_AUTH_CAP");
    lemma_one_more_name(Seq::empty(), b0, "HBEAT_CAP", name);
    assert(Seq::empty() + s0 =~= s0);
    lemma_one_more_name(s0, b1, "KEY_UPD_CAP", name);
    lemma_one_more_name(s1, b2, "HANDSHAKE_IN_THE_CLEAR_CAP", name);
    lemma_one_more_name(s2, b3, "PSK_CAP", name);
    lemma_one_more_name(s3, b4, "MUT_AUTH_CAP", name);
    lemma_one_more_name(s4, b5, "CHUNK_CAP", name);
}

/// Which names a list of responder capabilities holds.
proof fn lemma_rsp_cap_names(flags: SpdmResponseCapabilityFlags, name: &'static str)
    ensures
        rsp_cap_names(flags).contains(name) == {
            ||| flags.has(SpdmResponseCapabilityFlags::HBEAT_CAP) && "HBEAT_CAP" == name
            ||| flags.has(SpdmResponseCapabilityFlags::KEY_UPD_CAP) && "KEY_UPD_CAP" == name
            ||| flags.has(SpdmResponseCapabilityFlags::HANDSHAKE_IN_THE_CLEAR_CAP)
                && "HANDSHAKE_IN_THE_CLEAR_CAP" == name
            ||| flags.has(SpdmResponseCapabilityFlags::PSK_CAP_WITH_CONTEXT) && "PSK_CAP" == name
            ||| flags.has(SpdmResponseCapabilityFlags::PSK_CAP_WITHOUT_CONTEXT) && "PSK_CAP" == name
            ||| flags.has(SpdmResponseCapabilityFlags::MUT_AUTH_CAP) && "MUT_AUTH_CAP" == name
            ||| flags.has(SpdmResponseCapabilityFlags::CHUNK_CAP) && "CHUNK_CAP" == name
        },
{
    let b0 = flags.has(SpdmResponseCapabilityFlags::HBEAT_CAP);
    let b1 = flags.has(SpdmResponseCapabilityFlags::KEY_UPD_CAP);
    let b2 = flags.has(SpdmResponseCapabilityFlags::HANDSHAKE_IN_THE_CLEAR_CAP);
    let b3 = flags.has(SpdmResponseCapabilityFlags::PSK_CAP_WITH_CONTEXT);
    let b4 = flags.has(SpdmResponseCapabilityFlags::PSK_CAP_WITHOUT_CONTEXT);
    let b5 = flags.has(SpdmResponseCapabilityFlags::MUT_AUTH_CAP);
    let b6 = flags.has(SpdmResponseCapabilityFlags::CHUNK_CAP);
    let s0 = listed(b0, "HBEAT_CAP");
    let s1 = s0 + listed(b1, "KEY_UPD_CAP");
    let s2 = s1 + listed(b2, "HANDSHAKE_IN_THE_CLEAR_CAP");
    let s3 = s2 + listed(b3, "PSK_CAP");
    let s4 = s3 + listed(b4, "PSK_CAP");
    let s5 = s4 + listed(b5, "MUT_AUTH_CAP");
    lemma_one_more_name(Seq::empty(), b0, "HBEAT_CAP", name);
    assert(Seq::empty() + s0 =~= s0);
    lemma_one_more_name(s0, b1, "KEY_UPD_CAP", name);
    lemma_one_more_name(s1, b2, "HANDSHAKE_IN_THE_CLEAR_CAP", name);
    lemma_one_more_name(s2, b3, "PSK_CAP", name);
    lemma_one_more_name(s3, b4, "PSK_CAP", name);
    lemma_one_more_name(s4, b5, "MUT_AUTH_CAP", name);
    lemma_one_more_name(s5, b6, "CHUNK_CAP", name);
}

/// Each capability of a requester is listed exactly where its bit is set.
pub proof fn law_requester_names_are_exact(flags: SpdmRequestCapabilityFlags)
    ensures
        ({
            let names = req_cap_names(flags);
            &&& names.contains("HBEAT_CAP") == flags.has(SpdmRequestCapabilityFlags::HBEAT_CAP)
            &&& names.contains("KEY_UPD_CAP") == flags.has(SpdmRequestCapabilityFlags::KEY_UPD_CAP)
            &&& names.contains("HANDSHAKE_IN_THE_CLEAR_CAP") == flags.has(
                SpdmRequestCapabilityFlags::HANDSHAKE_IN_THE_CLEAR_CAP,
            )
            &&& names.contains("PSK_CAP") == flags.has(SpdmRequestCapabilityFlags::PSK_CAP)
            &&& names.contains("MUT_AUTH_CAP") == flags.has(
                SpdmRequestCapabilityFlags::MUT_AUTH_CAP,
            )
            &&& names.contains("CHUNK_CAP") == flags.has(SpdmRequestCapabilityFlags::CHUNK_CAP)
        }),
{
    lemma_cap_names_differ();
    lemma_req_cap_names(flags, "HBEAT_CAP");
    lemma_req_cap_names(flags, "KEY_UPD_CAP");
    lemma_req_cap_names(flags, "HANDSHAKE_IN_THE_CLEAR_CAP");
    lemma_req_cap_names(flags, "PSK_CAP");
    lemma_req_cap_names(flags, "MUT_AUTH_CAP");
    lemma_req_cap_names(flags, "CHUNK_CAP");
}

/// Each capability of a responder is listed exactly where its bit is set; a
/// pre-shared key is listed exactly where the responder offers a kind of one.
pub proof fn law_responder_names_are_exact(flags: SpdmResponseCapabilityFlags)
    ensures
        ({
            let names = rsp_cap_names(flags);
            &&& names.contains("HBEAT_CAP") == flags.has(SpdmResponseCapabilityFlags::HBEAT_CAP)
            &&& names.contains("KEY_UPD_CAP") == flags.has(
                SpdmResponseCapabilityFlags::KEY_UPD_CAP,
            )
            &&& names.contains("HANDSHAKE_IN_THE_CLEAR_CAP") == flags.has(
                SpdmResponseCapabilityFlags::HANDSHAKE_IN_THE_CLEAR_CAP,
            )
            &&& names.contains("PSK_CAP") == (psk_mode(flags) is Some)
            &&& names.contains("MUT_AUTH_CAP") == flags.has(
                SpdmResponseCapabilityFlags::MUT_AUTH_CAP,
            )
            &&& names.contains("CHUNK_CAP") == flags.has(SpdmResponseCapabilityFlags::CHUNK_CAP)
        }),
{
    lemma_cap_names_differ();
    lemma_rsp_cap_names(flags, "HBEAT_CAP");
    lemma_rsp_cap_names(flags, "KEY_UPD_CAP");
    lemma_rsp_cap_names(flags, "HANDSHAKE_IN_THE_CLEAR_CAP");
    lemma_rsp_cap_names(flags, "PSK_CAP");
    lemma_rsp_cap_names(flags, "MUT_AUTH_CAP");
    lemma_rsp_cap_names(flags, "CHUNK_CAP");
}

/// Different versions are reported under different numbers, and the numbers
/// keep the order of the versions.
pub proof fn law_version_numbers_keep_order(first: SpdmVersion, second: SpdmVersion)
    ensures
        (traced_version(first) < traced_version(second)) == (version_byte(first) < version_byte(
            second,
        )),
        traced_version(first) == traced_version(second) ==> first == second,
{
}

} // verus!
