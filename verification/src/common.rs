//! What both sides of a connection keep: configuration, the result of the
//! negotiation, running state and sessions.

use vstd::prelude::*;

use crate::error::{SpdmResult, SpdmStatus};
use crate::message::SpdmRequestResponseCode;
use crate::protocol::{
    SpdmBaseHashAlgo, SpdmRequestCapabilityFlags, SpdmResponseCapabilityFlags, SpdmVersion,
};
use crate::session::{
    backups_present, derivation_succeeds, secrets_created, secrets_settled, DerivedSecrets,
    SessionView, SpdmSession,
};

verus! {

/// The largest message that is sent or received.
pub const MAX_SPDM_MSG_SIZE: usize = 0x1200;

/// How far a connection has come.
#[derive(Clone, Copy, Debug, PartialEq, Eq, Structural)]
pub enum SpdmConnectionState {
    SpdmConnectionNotStarted,
    SpdmConnectionAfterVersion,
    SpdmConnectionAfterCapabilities,
    SpdmConnectionNegotiated,
    SpdmConnectionAfterDigest,
    SpdmConnectionAfterCertificate,
    SpdmConnectionAuthenticated,
    Unknown(u8),
}

/// What a requester offers.
#[derive(Clone, Copy, Debug, PartialEq, Eq, Structural)]
pub struct SpdmConfigInfo {
    pub req_ct_exponent: u8,
    pub req_capabilities: SpdmRequestCapabilityFlags,
    pub data_transfer_size: u32,
    pub max_spdm_msg_size: u32,
}

/// What the two sides agreed on.
#[derive(Clone, Copy, Debug, PartialEq, Eq, Structural)]
pub struct SpdmNegotiateInfo {
    pub spdm_version_sel: SpdmVersion,
    pub req_ct_exponent_sel: u8,
    pub req_capabilities_sel: SpdmRequestCapabilityFlags,
    pub rsp_ct_exponent_sel: u8,
    pub rsp_capabilities_sel: SpdmResponseCapabilityFlags,
    pub req_data_transfer_size_sel: u32,
    pub req_max_spdm_msg_size_sel: u32,
    pub rsp_data_transfer_size_sel: u32,
    pub rsp_max_spdm_msg_size_sel: u32,
    pub base_hash_sel: SpdmBaseHashAlgo,
}

/// A request to reset the message buffers that a request of this code makes
/// stale. The owner of those buffers takes these requests in order.
#[derive(Clone, Copy, Debug, PartialEq, Eq, Structural)]
pub struct BufferReset {
    pub request_code: SpdmRequestResponseCode,
    pub session_id: Option<u32>,
}

/// The running state of a connection.
#[derive(Debug)]
pub struct SpdmRuntimeInfo {
    pub connection_state: SpdmConnectionState,
    pub last_session_id: Option<u32>,
    /// The transcript of version, capability and algorithm messages.
    pub message_a: Vec<u8>,
    /// How many bytes that transcript holds at most.
    pub message_a_limit: usize,
    /// The resets that the owner of the other message buffers still has to make.
    pub buffer_resets: Vec<BufferReset>,
}

/// One side of a connection.
#[derive(Debug)]
pub struct SpdmContext {
    pub config_info: SpdmConfigInfo,
    pub negotiate_info: SpdmNegotiateInfo,
    pub runtime_info: SpdmRuntimeInfo,
    pub session: Vec<SpdmSession>,
}

/// What one side of a connection holds.
#[verifier::ext_equal]
pub struct ContextView {
    pub config: SpdmConfigInfo,
    pub negotiated: SpdmNegotiateInfo,
    pub connection_state: SpdmConnectionState,
    pub last_session_id: Option<u32>,
    pub message_a: Seq<u8>,
    pub message_a_limit: nat,
    pub resets: Seq<BufferReset>,
    pub sessions: Seq<SessionView>,
}

/// What a list of sessions holds.
pub open spec fn session_views(sessions: Seq<SpdmSession>) -> Seq<SessionView> {
    sessions.map_values(|session: SpdmSession| session@)
}

impl View for SpdmContext {
    type V = ContextView;

    open spec fn view(&self) -> ContextView {
        ContextView {
            config: self.config_info,
            negotiated: self.negotiate_info,
            connection_state: self.runtime_info.connection_state,
            last_session_id: self.runtime_info.last_session_id,
            message_a: self.runtime_info.message_a@,
            message_a_limit: self.runtime_info.message_a_limit as nat,
            resets: self.runtime_info.buffer_resets@,
            sessions: session_views(self.session@),
        }
    }
}

/// The first slot from `start` on that holds the session of this id.
pub open spec fn slot_from(sessions: Seq<SessionView>, session_id: u32, start: nat) -> Option<nat>
    decreases sessions.len() - start,
{
    if start >= sessions.len() {
        None
    } else if sessions[start as int].session_id == session_id {
        Some(start)
    } else {
        slot_from(sessions, session_id, start + 1)
    }
}

/// The first slot that holds the session of this id.
pub open spec fn slot_of(sessions: Seq<SessionView>, session_id: u32) -> Option<nat> {
    slot_from(sessions, session_id, 0)
}

impl ContextView {
    /// The slot of a session.
    pub open spec fn slot(self, session_id: u32) -> Option<nat> {
        slot_of(self.sessions, session_id)
    }

    /// The session of this id.
    pub open spec fn find(self, session_id: u32) -> Option<SessionView> {
        match self.slot(session_id) {
            Some(slot) => Some(self.sessions[slot as int]),
            None => None,
        }
    }

    /// The context with another session in the slot of this id.
    pub open spec fn with_session(self, session_id: u32, session: SessionView) -> ContextView {
        match self.slot(session_id) {
            Some(slot) => ContextView {
                sessions: self.sessions.update(slot as int, session),
                ..self
            },
            None => self,
        }
    }

    /// The context with one more request to reset buffers.
    pub open spec fn with_reset(
        self,
        request_code: SpdmRequestResponseCode,
        session_id: Option<u32>,
    ) -> ContextView {
        ContextView { resets: self.resets.push(BufferReset { request_code, session_id }), ..self }
    }
}

/// The slot that is found holds a session of the id asked for, no slot before
/// it does, and where none is found no slot at all does.
pub proof fn law_slot_is_the_first(sessions: Seq<SessionView>, session_id: u32, start: nat)
    ensures
        match slot_from(sessions, session_id, start) {
            Some(slot) => {
                &&& start <= slot < sessions.len()
                &&& sessions[slot as int].session_id == session_id
                &&& forall|i: int|
                    start <= i < slot ==> (#[trigger] sessions[i]).session_id != session_id
            },
            None => forall|i: int|
                start <= i < sessions.len() ==> (#[trigger] sessions[i]).session_id != session_id,
        },
    decreases sessions.len() - start,
{
    if start < sessions.len() && sessions[start as int].session_id != session_id {
        law_slot_is_the_first(sessions, session_id, start + 1);
    }
}

/// Putting a session of the same id back into its slot changes no lookup: that
/// id is found in the same slot, and every other id where it was before.
pub proof fn law_replacing_keeps_slots(
    context: ContextView,
    session_id: u32,
    session: SessionView,
    other: u32,
)
    requires
        session.session_id == session_id,
    ensures
        context.with_session(session_id, session).slot(other) == context.slot(other),
        context.slot(session_id) is Some ==> context.with_session(session_id, session).find(
            session_id,
        ) == Some(session),
        other != session_id ==> context.with_session(session_id, session).find(other)
            == context.find(other),
{
    lemma_replacing_keeps_slots(context.sessions, session_id, session, other, 0);
    lemma_replacing_keeps_slots(context.sessions, session_id, session, session_id, 0);
    law_slot_is_the_first(context.sessions, session_id, 0);
    law_slot_is_the_first(context.sessions, other, 0);
}

proof fn lemma_replacing_keeps_slots(
    sessions: Seq<SessionView>,
    session_id: u32,
    session: SessionView,
    other: u32,
    start: nat,
)
    requires
        session.session_id == session_id,
    ensures
        slot_of(sessions, session_id) matches Some(slot) ==> slot_from(
            sessions.update(slot as int, session),
            other,
            start,
        ) == slot_from(sessions, other, start),
    decreases sessions.len() - start,
{
    law_slot_is_the_first(sessions, session_id, 0);
    if start < sessions.len() {
        lemma_replacing_keeps_slots(sessions, session_id, session, other, start + 1);
    }
}

impl SpdmContext {
    /// The slot of the first session with this id.
    pub fn session_slot(&self, session_id: u32) -> (slot: Option<usize>)
        ensures
            match slot {
                Some(slot) => self@.slot(session_id) == Some(slot as nat) && slot
                    < self.session@.len(),
                None => self@.slot(session_id) is None,
            },
    {
        let ghost views = session_views(self.session@);
        let mut i: usize = 0;
        while i < self.session.len()
            invariant
                i <= self.session@.len(),
                views == session_views(self.session@),
                slot_of(views, session_id) == slot_from(views, session_id, i as nat),
            decreases self.session@.len() - i,
        {
            assert(views[i as int] == self.session@[i as int]@);
            if self.session[i].get_session_id() == session_id {
                return Some(i);
            }
            i = i + 1;
        }
        None
    }

    /// The first session with this id.
    pub fn get_immutable_session_via_id(&self, session_id: u32) -> (session: Option<&SpdmSession>)
        ensures
            match session {
                Some(session) => self@.find(session_id) == Some(session@),
                None => self@.find(session_id) is None,
            },
    {
        match self.session_slot(session_id) {
            Some(slot) => Some(&self.session[slot]),
            None => None,
        }
    }

    /// Creates new secrets in the session of a slot.
    pub fn create_secrets_at(
        &mut self,
        slot: usize,
        update_requester: bool,
        update_responder: bool,
        derived: DerivedSecrets,
    ) -> (result: SpdmResult)
        requires
            slot < old(self)@.sessions.len(),
        ensures
            final(self)@ == (ContextView {
                sessions: old(self)@.sessions.update(
                    slot as int,
                    secrets_created(
                        old(self)@.sessions[slot as int],
                        update_requester,
                        update_responder,
                        derived@,
                    ),
                ),
                ..old(self)@
            }),
            derivation_succeeds(update_requester, update_responder, derived@) ==> result is Ok,
            !derivation_succeeds(update_requester, update_responder, derived@) ==> result == Err::<
                (),
                SpdmStatus,
            >(SpdmStatus::CryptoError),
    {
        self.session[slot].create_data_secret_update(update_requester, update_responder, derived)
    }

    /// Settles the secrets in the session of a slot.
    pub fn settle_secrets_at(
        &mut self,
        slot: usize,
        update_requester: bool,
        update_responder: bool,
        use_new_key: bool,
    ) -> (result: SpdmResult)
        requires
            slot < old(self)@.sessions.len(),
        ensures
            ({
                let session = old(self)@.sessions[slot as int];
                let settles = use_new_key || backups_present(
                    session,
                    update_requester,
                    update_responder,
                );
                &&& settles ==> result is Ok && final(self)@ == (ContextView {
                    sessions: old(self)@.sessions.update(
                        slot as int,
                        secrets_settled(session, update_requester, update_responder, use_new_key),
                    ),
                    ..old(self)@
                })
                &&& !settles ==> result == Err::<(), SpdmStatus>(SpdmStatus::InvalidStateLocal)
                    && final(self)@ == old(self)@
            }),
    {
        self.session[slot].activate_data_secret_update(
            update_requester,
            update_responder,
            use_new_key,
        )
    }

    /// Asks for a reset of the message buffers that this request makes stale.
    pub fn reset_buffer_via_request_code(
        &mut self,
        request_code: SpdmRequestResponseCode,
        session_id: Option<u32>,
    )
        ensures
            final(self)@ == old(self)@.with_reset(request_code, session_id),
    {
        self.runtime_info.buffer_resets.push(BufferReset { request_code, session_id });
    }

    /// Appends a message to the transcript of version, capability and algorithm
    /// messages, if all of it has room.
    pub fn append_message_a(&mut self, message: &[u8]) -> (result: SpdmResult)
        ensures
            old(self)@.message_a.len() + message@.len() <= old(self)@.message_a_limit
                ==> result is Ok && final(self)@ == (ContextView {
                message_a: old(self)@.message_a + message@,
                ..old(self)@
            }),
            old(self)@.message_a.len() + message@.len() > old(self)@.message_a_limit ==> result
                == Err::<(), SpdmStatus>(SpdmStatus::BufferFull) && final(self)@ == old(self)@,
    {
        let used: usize = self.runtime_info.message_a.len();
        let limit: usize = self.runtime_info.message_a_limit;
        if used > limit || message.len() > limit - used {
            return Err(SpdmStatus::BufferFull);
        }
        let mut i: usize = 0;
        let ghost before = self@;
        assert(before.message_a + message@.take(0) =~= before.message_a);
        while i < message.len()
            invariant
                i <= message@.len(),
                self@ == (ContextView {
                    message_a: before.message_a + message@.take(i as int),
                    ..before
                }),
            decreases message@.len() - i,
        {
            self.runtime_info.message_a.push(message[i]);
            i = i + 1;
            assert(self@.message_a =~= before.message_a + message@.take(i as int));
        }
        assert(message@.take(i as int) =~= message@);
        Ok(())
    }
}

} // verus!
