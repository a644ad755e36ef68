//! Finding and replacing sessions, and what becomes of their secrets.

use vstd::prelude::*;

use crate::common::{law_slot_is_the_first, ContextView};
use crate::message::SpdmRequestResponseCode;
use crate::session::{
    backups_present, cleared, derivation_succeeds, fresh_session, no_crypto_param, no_digest,
    no_secrets, secrets_created, secrets_settled, DerivedView, SessionView,
};
use crate::trace_harness::{established_session, established_slots};

verus! {

/// A session is found exactly where a slot has its id; the first such slot holds it.
pub proof fn law_first_session_with_the_id_is_found(context: ContextView, session_id: u32)
    ensures
        match context.find(session_id) {
            Some(session) => exists|slot: int|
                0 <= slot < context.sessions.len() && #[trigger] context.sessions[slot] == session
                    && session.session_id == session_id && context.slot(session_id) == Some(
                    slot as nat,
                ) && forall|i: int|
                    0 <= i < slot ==> (#[trigger] context.sessions[i]).session_id != session_id,
            None => context.slot(session_id) is None && forall|i: int|
                0 <= i < context.sessions.len() ==> (#[trigger] context.sessions[i]).session_id
                    != session_id,
        },
{
    law_slot_is_the_first(context.sessions, session_id, 0);
    if let Some(slot) = context.slot(session_id) {
        assert(context.sessions[slot as int] == context.find(session_id)->0);
    }
}

/// Replacing a session changes its slot and nothing else; where there is no such
/// session, it changes nothing.
pub proof fn law_replacing_changes_one_slot(
    context: ContextView,
    session_id: u32,
    session: SessionView,
)
    ensures
        ({
            let after = context.with_session(session_id, session);
            &&& after.sessions.len() == context.sessions.len()
            &&& forall|i: int|
                0 <= i < context.sessions.len() ==> #[trigger] after.sessions[i]
                    == if context.slot(session_id) == Some(i as nat) {
                    session
                } else {
                    context.sessions[i]
                }
            &&& after.config == context.config
            &&& after.negotiated == context.negotiated
            &&& after.connection_state == context.connection_state
            &&& after.last_session_id == context.last_session_id
            &&& after.message_a == context.message_a
            &&& after.message_a_limit == context.message_a_limit
            &&& after.resets == context.resets
        }),
{
    law_slot_is_the_first(context.sessions, session_id, 0);
}

/// A reset is queued behind those that are queued already, with its code and its
/// session, and nothing else changes.
pub proof fn law_reset_is_queued_last(
    context: ContextView,
    request_code: SpdmRequestResponseCode,
    session_id: Option<u32>,
)
    ensures
        ({
            let after = context.with_reset(request_code, session_id);
            &&& after.resets.len() == context.resets.len() + 1
            &&& after.resets.drop_last() == context.resets
            &&& after.resets.last().request_code == request_code
            &&& after.resets.last().session_id == session_id
            &&& after == (ContextView { resets: after.resets, ..context })
        }),
{
    let after = context.with_reset(request_code, session_id);
    assert(after.resets.drop_last() =~= context.resets);
}

/// A slot that never held a session has no id, no state, no algorithm, no secret, no
/// backup and no hash.
pub proof fn law_fresh_slot_is_empty()
    ensures
        ({
            let session = fresh_session();
            &&& session.session_id == 0
            &&& session.session_state is SpdmSessionNotStarted
            &&& session.mut_auth_requested.bits == 0
            &&& session.crypto_param.base_hash_algo.bits == 0
            &&& session.crypto_param.dhe_algo.bits == 0
            &&& session.crypto_param.kem_algo.bits == 0
            &&& session.crypto_param.aead_algo.bits == 0
            &&& session.crypto_param.key_schedule_algo.bits == 0
            &&& session.secret.request.len() == 0 && session.secret.response.len() == 0
            &&& session.backup.request.len() == 0 && session.backup.response.len() == 0
            &&& !session.requester_backup_valid && !session.responder_backup_valid
            &&& session.th1.data_size == 0 && session.th1.data.len() == 0
            &&& session.th2.data_size == 0 && session.th2.data.len() == 0
            &&& no_crypto_param() == session.crypto_param
            &&& no_secrets() == session.secret
            &&& no_digest() == session.th1
        }),
{
}

/// Clearing a session empties all of it but the two hashes and the two marks of a
/// valid backup, which stay.
pub proof fn law_clearing_empties_all_but_hashes_and_marks(session: SessionView)
    ensures
        ({
            let after = cleared(session);
            &&& after.session_id == 0
            &&& after.session_state is SpdmSessionNotStarted
            &&& after.mut_auth_requested.bits == 0
            &&& after.crypto_param == fresh_session().crypto_param
            &&& after.secret.request.len() == 0 && after.secret.response.len() == 0
            &&& after.backup.request.len() == 0 && after.backup.response.len() == 0
            &&& after.th1 == session.th1 && after.th2 == session.th2
            &&& after.requester_backup_valid == session.requester_backup_valid
            &&& after.responder_backup_valid == session.responder_backup_valid
        }),
{
}

/// Creating secrets moves each named direction on to the secret derived for it, keeps
/// the former one as the backup and marks it; the request direction comes first, and
/// where it is named without a secret, nothing moves. A direction that does not move
/// stays as it is.
pub proof fn law_creation_moves_named_directions_on(
    session: SessionView,
    update_requester: bool,
    update_responder: bool,
    derived: DerivedView,
)
    ensures
        ({
            let after = secrets_created(session, update_requester, update_responder, derived);
            let blocked = update_requester && derived.request is None;
            let request_moves = update_requester && derived.request is Some;
            let response_moves = update_responder && derived.response is Some && !blocked;
            &&& request_moves ==> after.secret.request == derived.request->0
                && after.backup.request == session.secret.request && after.requester_backup_valid
            &&& !request_moves ==> after.secret.request == session.secret.request
                && after.backup.request == session.backup.request && after.requester_backup_valid
                == session.requester_backup_valid
            &&& response_moves ==> after.secret.response == derived.response->0
                && after.backup.response == session.secret.response && after.responder_backup_valid
            &&& !response_moves ==> after.secret.response == session.secret.response
                && after.backup.response == session.backup.response && after.responder_backup_valid
                == session.responder_backup_valid
            &&& derivation_succeeds(update_requester, update_responder, derived) == ((
            update_requester ==> derived.request is Some) && (update_responder
                ==> derived.response is Some))
            &&& after.session_id == session.session_id
            &&& after.session_state == session.session_state
            &&& after.mut_auth_requested == session.mut_auth_requested
            &&& after.crypto_param == session.crypto_param
            &&& after.th1 == session.th1 && after.th2 == session.th2
        }),
{
}

/// Settling drops the backup and the mark of each named direction. With the new key
/// the secret in use stays; without it the backup comes back into use. A direction
/// that is not named stays as it is.
pub proof fn law_settling_decides_named_directions(
    session: SessionView,
    update_requester: bool,
    update_responder: bool,
    use_new_key: bool,
)
    ensures
        ({
            let after = secrets_settled(
                session,
                update_requester,
                update_responder,
                use_new_key,
            );
            &&& update_requester ==> after.backup.request.len() == 0
                && !after.requester_backup_valid
            &&& update_requester && use_new_key ==> after.secret.request == session.secret.request
            &&& update_requester && !use_new_key ==> after.secret.request == session.backup.request
            &&& !update_requester ==> after.secret.request == session.secret.request
                && after.backup.request == session.backup.request && after.requester_backup_valid
                == session.requester_backup_valid
            &&& update_responder ==> after.backup.response.len() == 0
                && !after.responder_backup_valid
            &&& update_responder && use_new_key ==> after.secret.response
                == session.secret.response
            &&& update_responder && !use_new_key ==> after.secret.response
                == session.backup.response
            &&& !update_responder ==> after.secret.response == session.secret.response
                && after.backup.response == session.backup.response && after.responder_backup_valid
                == session.responder_backup_valid
            &&& backups_present(session, update_requester, update_responder) == ((
            update_requester ==> session.requester_backup_valid) && (update_responder
                ==> session.responder_backup_valid))
            &&& after.session_id == session.session_id
            &&& after.session_state == session.session_state
            &&& after.mut_auth_requested == session.mut_auth_requested
            &&& after.crypto_param == session.crypto_param
            &&& after.th1 == session.th1 && after.th2 == session.th2
        }),
{
}

/// A side that is set up for key updates has four slots; the first one holds an
/// established session with its id, its algorithms and the derived secrets, and the
/// others are empty.
pub proof fn law_set_up_side_has_one_established_session(
    session_id: u32,
    derived: DerivedView,
    slot: int,
)
    requires
        0 < slot < 4,
    ensures
        ({
            let slots = established_slots(session_id, derived);
            let session = slots[0];
            &&& slots.len() == 4
            &&& slots[slot] == fresh_session()
            &&& session == established_session(session_id, derived)
            &&& session.session_id == session_id
            &&& session.session_state is SpdmSessionEstablished
            &&& session.crypto_param.base_hash_algo.bits == 0x2
            &&& session.crypto_param.dhe_algo.bits == 0x10
            &&& session.crypto_param.kem_algo.bits == 0
            &&& session.crypto_param.aead_algo.bits == 0x2
            &&& session.crypto_param.key_schedule_algo.bits == 0x1
            &&& derived.request is Some && derived.response is Some ==> session.secret.request
                == derived.request->0 && session.secret.response == derived.response->0
            &&& derived.request is None || derived.response is None ==> session.secret.request.len()
                == 0 && session.secret.response.len() == 0
            &&& session.backup == fresh_session().backup
            &&& !session.requester_backup_valid && !session.responder_backup_valid
            &&& session.mut_auth_requested.bits == 0
            &&& session.th1 == fresh_session().th1 && session.th2 == fresh_session().th2
        }),
{
}

} // verus!
