//! A secure session: its state, its data secrets and their update.

use vstd::prelude::*;

use crate::error::{SpdmResult, SpdmStatus};
use crate::message::SpdmKeyExchangeMutAuthAttributes;
use crate::protocol::{
    SpdmAeadAlgo, SpdmBaseHashAlgo, SpdmDheAlgo, SpdmKemAlgo, SpdmKeyScheduleAlgo,
};

verus! {

/// The id of a slot that holds no session.
pub const INVALID_SESSION_ID: u32 = 0;

/// How far a session has come.
#[derive(Clone, Copy, Debug, PartialEq, Eq, Structural)]
pub enum SpdmSessionState {
    SpdmSessionNotStarted,
    SpdmSessionHandshaking,
    SpdmSessionEstablished,
    Unknown(u8),
}

/// A transcript hash.
#[derive(Debug)]
pub struct SpdmDigestStruct {
    pub data_size: u16,
    pub data: Vec<u8>,
}

/// What a transcript hash holds.
#[verifier::ext_equal]
pub struct DigestView {
    pub data_size: u16,
    pub data: Seq<u8>,
}

impl View for SpdmDigestStruct {
    type V = DigestView;

    open spec fn view(&self) -> DigestView {
        DigestView { data_size: self.data_size, data: self.data@ }
    }
}

/// The secrets that protect the data of a session, one for each direction.
#[derive(Debug)]
pub struct SpdmSessionDataSecret {
    pub request_data_secret: Vec<u8>,
    pub response_data_secret: Vec<u8>,
}

/// What a pair of data secrets holds.
#[verifier::ext_equal]
pub struct DataSecretView {
    pub request: Seq<u8>,
    pub response: Seq<u8>,
}

impl View for SpdmSessionDataSecret {
    type V = DataSecretView;

    open spec fn view(&self) -> DataSecretView {
        DataSecretView {
            request: self.request_data_secret@,
            response: self.response_data_secret@,
        }
    }
}

/// What the key schedule derived for each direction. There is no secret where
/// the derivation failed.
#[derive(Debug)]
pub struct DerivedSecrets {
    pub request: Option<Vec<u8>>,
    pub response: Option<Vec<u8>>,
}

/// What a derivation gave.
#[verifier::ext_equal]
pub struct DerivedView {
    pub request: Option<Seq<u8>>,
    pub response: Option<Seq<u8>>,
}

/// The bytes of a secret that may be missing.
pub open spec fn secret_view(secret: Option<Vec<u8>>) -> Option<Seq<u8>> {
    match secret {
        Some(bytes) => Some(bytes@),
        None => None,
    }
}

impl View for DerivedSecrets {
    type V = DerivedView;

    open spec fn view(&self) -> DerivedView {
        DerivedView { request: secret_view(self.request), response: secret_view(self.response) }
    }
}

impl DerivedSecrets {
    /// No secret for either direction.
    pub fn none() -> (derived: DerivedSecrets)
        ensures
            derived@ == (DerivedView { request: None, response: None }),
    {
        DerivedSecrets { request: None, response: None }
    }
}

/// The algorithms that a session uses.
#[derive(Clone, Copy, Debug, PartialEq, Eq, Structural)]
pub struct SpdmSessionCryptoParam {
    pub base_hash_algo: SpdmBaseHashAlgo,
    pub dhe_algo: SpdmDheAlgo,
    pub kem_algo: SpdmKemAlgo,
    pub aead_algo: SpdmAeadAlgo,
    pub key_schedule_algo: SpdmKeyScheduleAlgo,
}

/// No algorithm at all.
pub open spec fn no_crypto_param() -> SpdmSessionCryptoParam {
    SpdmSessionCryptoParam {
        base_hash_algo: SpdmBaseHashAlgo { bits: 0 },
        dhe_algo: SpdmDheAlgo { bits: 0 },
        kem_algo: SpdmKemAlgo { bits: 0 },
        aead_algo: SpdmAeadAlgo { bits: 0 },
        key_schedule_algo: SpdmKeyScheduleAlgo { bits: 0 },
    }
}

impl Default for SpdmSessionCryptoParam {
    fn default() -> (crypto_param: SpdmSessionCryptoParam)
        ensures
            crypto_param == no_crypto_param(),
    {
        SpdmSessionCryptoParam {
            base_hash_algo: SpdmBaseHashAlgo { bits: 0 },
            dhe_algo: SpdmDheAlgo { bits: 0 },
            kem_algo: SpdmKemAlgo { bits: 0 },
            aead_algo: SpdmAeadAlgo { bits: 0 },
            key_schedule_algo: SpdmKeyScheduleAlgo { bits: 0 },
        }
    }
}

/// A session, or a free slot for one.
#[derive(Debug)]
pub struct SpdmSession {
    pub session_id: u32,
    pub session_state: SpdmSessionState,
    pub mut_auth_requested: SpdmKeyExchangeMutAuthAttributes,
    pub crypto_param: SpdmSessionCryptoParam,
    pub application_secret: SpdmSessionDataSecret,
    pub application_secret_backup: SpdmSessionDataSecret,
    pub requester_backup_valid: bool,
    pub responder_backup_valid: bool,
    pub th1: SpdmDigestStruct,
    pub th2: SpdmDigestStruct,
}

/// What a session holds.
#[verifier::ext_equal]
pub struct SessionView {
    pub session_id: u32,
    pub session_state: SpdmSessionState,
    pub mut_auth_requested: SpdmKeyExchangeMutAuthAttributes,
    pub crypto_param: SpdmSessionCryptoParam,
    pub secret: DataSecretView,
    pub backup: DataSecretView,
    pub requester_backup_valid: bool,
    pub responder_backup_valid: bool,
    pub th1: DigestView,
    pub th2: DigestView,
}

impl View for SpdmSession {
    type V = SessionView;

    open spec fn view(&self) -> SessionView {
        SessionView {
            session_id: self.session_id,
            session_state: self.session_state,
            mut_auth_requested: self.mut_auth_requested,
            crypto_param: self.crypto_param,
            secret: self.application_secret@,
            backup: self.application_secret_backup@,
            requester_backup_valid: self.requester_backup_valid,
            responder_backup_valid: self.responder_backup_valid,
            th1: self.th1@,
            th2: self.th2@,
        }
    }
}

/// A pair of empty secrets.
pub open spec fn no_secrets() -> DataSecretView {
    DataSecretView { request: Seq::empty(), response: Seq::empty() }
}

/// An empty transcript hash.
pub open spec fn no_digest() -> DigestView {
    DigestView { data_size: 0, data: Seq::empty() }
}

/// A slot that never held a session.
pub open spec fn fresh_session() -> SessionView {
    SessionView {
        session_id: INVALID_SESSION_ID,
        session_state: SpdmSessionState::SpdmSessionNotStarted,
        mut_auth_requested: SpdmKeyExchangeMutAuthAttributes { bits: 0 },
        crypto_param: no_crypto_param(),
        secret: no_secrets(),
        backup: no_secrets(),
        requester_backup_valid: false,
        responder_backup_valid: false,
        th1: no_digest(),
        th2: no_digest(),
    }
}

/// A session after it has been cleared. The two transcript hashes and the two
/// marks of a valid backup stay as they are; all the rest is as in a slot that
/// never held a session.
pub open spec fn cleared(session: SessionView) -> SessionView {
    SessionView {
        requester_backup_valid: session.requester_backup_valid,
        responder_backup_valid: session.responder_backup_valid,
        th1: session.th1,
        th2: session.th2,
        ..fresh_session()
    }
}

/// The session after the request direction moved on to the next secret; the
/// former one is the backup.
pub open spec fn request_moved_on(session: SessionView, next: Seq<u8>) -> SessionView {
    SessionView {
        secret: DataSecretView { request: next, ..session.secret },
        backup: DataSecretView { request: session.secret.request, ..session.backup },
        requester_backup_valid: true,
        ..session
    }
}

/// The session after the response direction moved on to the next secret; the
/// former one is the backup.
pub open spec fn response_moved_on(session: SessionView, next: Seq<u8>) -> SessionView {
    SessionView {
        secret: DataSecretView { response: next, ..session.secret },
        backup: DataSecretView { response: session.secret.response, ..session.backup },
        responder_backup_valid: true,
        ..session
    }
}

/// Whether a secret was derived for every direction that is to move on.
pub open spec fn derivation_succeeds(
    update_requester: bool,
    update_responder: bool,
    derived: DerivedView,
) -> bool {
    &&& update_requester ==> derived.request is Some
    &&& update_responder ==> derived.response is Some
}

/// The session after new secrets were created: the request direction moves on
/// first, and the first direction without a secret ends the step.
pub open spec fn secrets_created(
    session: SessionView,
    update_requester: bool,
    update_responder: bool,
    derived: DerivedView,
) -> SessionView {
    if update_requester && derived.request is None {
        session
    } else {
        let first = if update_requester {
            request_moved_on(session, derived.request->0)
        } else {
            session
        };
        if update_responder && derived.response is Some {
            response_moved_on(first, derived.response->0)
        } else {
            first
        }
    }
}

/// Whether there is a backup for every direction that is to go back.
pub open spec fn backups_present(
    session: SessionView,
    update_requester: bool,
    update_responder: bool,
) -> bool {
    &&& update_requester ==> session.requester_backup_valid
    &&& update_responder ==> session.responder_backup_valid
}

/// The session after the new secrets were settled: with the new key they stay,
/// without it the backup comes back; the backup of a direction that was settled
/// is dropped.
pub open spec fn secrets_settled(
    session: SessionView,
    update_requester: bool,
    update_responder: bool,
    use_new_key: bool,
) -> SessionView {
    SessionView {
        secret: DataSecretView {
            request: if update_requester && !use_new_key {
                session.backup.request
            } else {
                session.secret.request
            },
            response: if update_responder && !use_new_key {
                session.backup.response
            } else {
                session.secret.response
            },
        },
        backup: DataSecretView {
            request: if update_requester {
                Seq::empty()
            } else {
                session.backup.request
            },
            response: if update_responder {
                Seq::empty()
            } else {
                session.backup.response
            },
        },
        requester_backup_valid: session.requester_backup_valid && !update_requester,
        responder_backup_valid: session.responder_backup_valid && !update_responder,
        ..session
    }
}

impl SpdmSession {
    /// A slot that never held a session.
    pub fn new() -> (session: SpdmSession)
        ensures
            session@ == fresh_session(),
    {
        SpdmSession {
            session_id: INVALID_SESSION_ID,
            session_state: SpdmSessionState::SpdmSessionNotStarted,
            mut_auth_requested: SpdmKeyExchangeMutAuthAttributes::from_bits(0),
            crypto_param: SpdmSessionCryptoParam::default(),
            application_secret: SpdmSessionDataSecret {
                request_data_secret: Vec::new(),
                response_data_secret: Vec::new(),
            },
            application_secret_backup: SpdmSessionDataSecret {
                request_data_secret: Vec::new(),
                response_data_secret: Vec::new(),
            },
            requester_backup_valid: false,
            responder_backup_valid: false,
            th1: SpdmDigestStruct { data_size: 0, data: Vec::new() },
            th2: SpdmDigestStruct { data_size: 0, data: Vec::new() },
        }
    }

    /// Clears the session, except for the transcript hashes and the marks of a
    /// valid backup.
    pub fn set_default(&mut self)
        ensures
            final(self)@ == cleared(old(self)@),
    {
        self.session_id = INVALID_SESSION_ID;
        self.session_state = SpdmSessionState::SpdmSessionNotStarted;
        self.mut_auth_requested = SpdmKeyExchangeMutAuthAttributes::from_bits(0);
        self.crypto_param = SpdmSessionCryptoParam::default();
        self.application_secret.request_data_secret = Vec::new();
        self.application_secret.response_data_secret = Vec::new();
        self.application_secret_backup.request_data_secret = Vec::new();
        self.application_secret_backup.response_data_secret = Vec::new();
    }

    /// Takes a free slot for a session.
    pub fn setup(&mut self, session_id: u32) -> (result: SpdmResult)
        requires
            old(self)@.session_id == INVALID_SESSION_ID,
        ensures
            result is Ok,
            final(self)@ == (SessionView { session_id, ..cleared(old(self)@) }),
    {
        self.set_default();
        self.session_id = session_id;
        Ok(())
    }

    /// Ends the session and frees its slot.
    pub fn teardown(&mut self)
        ensures
            final(self)@ == cleared(old(self)@),
    {
        self.set_default();
    }

    /// The id of the session.
    pub fn get_session_id(&self) -> (session_id: u32)
        ensures
            session_id == self@.session_id,
    {
        self.session_id
    }

    /// How far the session has come.
    pub fn get_session_state(&self) -> (state: SpdmSessionState)
        ensures
            state == self@.session_state,
    {
        self.session_state
    }

    /// Sets how far the session has come.
    pub fn set_session_state(&mut self, state: SpdmSessionState)
        ensures
            final(self)@ == (SessionView { session_state: state, ..old(self)@ }),
    {
        self.session_state = state;
    }

    /// How the requester has to authenticate itself.
    pub fn get_mut_auth_requested(&self) -> (attributes: SpdmKeyExchangeMutAuthAttributes)
        ensures
            attributes == self@.mut_auth_requested,
    {
        self.mut_auth_requested
    }

    /// Sets how the requester has to authenticate itself.
    pub fn set_mut_auth_requested(&mut self, attributes: SpdmKeyExchangeMutAuthAttributes)
        ensures
            final(self)@ == (SessionView { mut_auth_requested: attributes, ..old(self)@ }),
    {
        self.mut_auth_requested = attributes;
    }

    /// The algorithms that the session uses.
    pub fn get_crypto_param(&self) -> (crypto_param: SpdmSessionCryptoParam)
        ensures
            crypto_param == self@.crypto_param,
    {
        self.crypto_param
    }

    /// Sets the algorithms that the session uses.
    pub fn set_crypto_param(
        &mut self,
        base_hash_algo: SpdmBaseHashAlgo,
        dhe_algo: SpdmDheAlgo,
        kem_algo: SpdmKemAlgo,
        aead_algo: SpdmAeadAlgo,
        key_schedule_algo: SpdmKeyScheduleAlgo,
    )
        ensures
            final(self)@ == (SessionView {
                crypto_param: SpdmSessionCryptoParam {
                    base_hash_algo,
                    dhe_algo,
                    kem_algo,
                    aead_algo,
                    key_schedule_algo,
                },
                ..old(self)@
            }),
    {
        self.crypto_param = SpdmSessionCryptoParam {
            base_hash_algo,
            dhe_algo,
            kem_algo,
            aead_algo,
            key_schedule_algo,
        };
    }

    /// Whether the request direction has a backup.
    pub fn get_requester_backup_valid(&self) -> (valid: bool)
        ensures
            valid == self@.requester_backup_valid,
    {
        self.requester_backup_valid
    }

    /// Whether the response direction has a backup.
    pub fn get_responder_backup_valid(&self) -> (valid: bool)
        ensures
            valid == self@.responder_backup_valid,
    {
        self.responder_backup_valid
    }

    /// The first transcript hash.
    pub fn get_th1(&self) -> (digest: &SpdmDigestStruct)
        ensures
            digest@ == self@.th1,
    {
        &self.th1
    }

    /// The second transcript hash.
    pub fn get_th2(&self) -> (digest: &SpdmDigestStruct)
        ensures
            digest@ == self@.th2,
    {
        &self.th2
    }

    /// Sets the first transcript hash.
    pub fn set_th1(&mut self, digest: SpdmDigestStruct)
        ensures
            final(self)@ == (SessionView { th1: digest@, ..old(self)@ }),
    {
        self.th1 = digest;
    }

    /// Sets the second transcript hash.
    pub fn set_th2(&mut self, digest: SpdmDigestStruct)
        ensures
            final(self)@ == (SessionView { th2: digest@, ..old(self)@ }),
    {
        self.th2 = digest;
    }

    /// The secrets in use.
    pub fn get_application_secret(&self) -> (secret: &SpdmSessionDataSecret)
        ensures
            secret@ == self@.secret,
    {
        &self.application_secret
    }

    /// Puts the first data secrets of a session in use, if both were derived.
    pub fn generate_data_secret(&mut self, derived: DerivedSecrets) -> (result: SpdmResult)
        ensures
            derived@.request is Some && derived@.response is Some ==> result is Ok
                && final(self)@ == (SessionView {
                secret: DataSecretView {
                    request: derived@.request->0,
                    response: derived@.response->0,
                },
                ..old(self)@
            }),
            derived@.request is None || derived@.response is None ==> result == Err::<
                (),
                SpdmStatus,
            >(SpdmStatus::CryptoError) && final(self)@ == old(self)@,
    {
        match (derived.request, derived.response) {
            (Some(request), Some(response)) => {
                self.application_secret.request_data_secret = request;
                self.application_secret.response_data_secret = response;
                Ok(())
            },
            _ => Err(SpdmStatus::CryptoError),
        }
    }

    /// Moves the named directions on to the secrets that were derived for them
    /// and keeps the former ones as a backup.
    pub fn create_data_secret_update(
        &mut self,
        update_requester: bool,
        update_responder: bool,
        derived: DerivedSecrets,
    ) -> (result: SpdmResult)
        ensures
            final(self)@ == secrets_created(
                old(self)@,
                update_requester,
                update_responder,
                derived@,
            ),
            derivation_succeeds(update_requester, update_responder, derived@) ==> result is Ok,
            !derivation_succeeds(update_requester, update_responder, derived@) ==> result == Err::<
                (),
                SpdmStatus,
            >(SpdmStatus::CryptoError),
    {
        if update_requester {
            match derived.request {
                Some(next) => {
                    let mut former = next;
                    std::mem::swap(&mut self.application_secret.request_data_secret, &mut former);
                    self.application_secret_backup.request_data_secret = former;
                    self.requester_backup_valid = true;
                },
                None => {
                    return Err(SpdmStatus::CryptoError);
                },
            }
        }
        if update_responder {
            match derived.response {
                Some(next) => {
                    let mut former = next;
                    std::mem::swap(&mut self.application_secret.response_data_secret, &mut former);
                    self.application_secret_backup.response_data_secret = former;
                    self.responder_backup_valid = true;
                },
                None => {
                    return Err(SpdmStatus::CryptoError);
                },
            }
        }
        Ok(())
    }

    /// Settles the named directions: on the new secret, or back on the backup.
    pub fn activate_data_secret_update(
        &mut self,
        update_requester: bool,
        update_responder: bool,
        use_new_key: bool,
    ) -> (result: SpdmResult)
        ensures
            use_new_key || backups_present(old(self)@, update_requester, update_responder)
                ==> result is Ok && final(self)@ == secrets_settled(
                old(self)@,
                update_requester,
                update_responder,
                use_new_key,
            ),
            !use_new_key && !backups_present(old(self)@, update_requester, update_responder)
                ==> result == Err::<(), SpdmStatus>(SpdmStatus::InvalidStateLocal)
                && final(self)@ == old(self)@,
    {
        if !use_new_key {
            if (update_requester && !self.requester_backup_valid) || (update_responder
                && !self.responder_backup_valid) {
                return Err(SpdmStatus::InvalidStateLocal);
            }
        }
        if update_requester {
            let mut backup: Vec<u8> = Vec::new();
            std::mem::swap(
                &mut self.application_secret_backup.request_data_secret,
                &mut backup,
            );
            if !use_new_key {
                self.application_secret.request_data_secret = backup;
            }
            self.requester_backup_valid = false;
        }
        if update_responder {
            let mut backup: Vec<u8> = Vec::new();
            std::mem::swap(
                &mut self.application_secret_backup.response_data_secret,
                &mut backup,
            );
            if !use_new_key {
                self.application_secret.response_data_secret = backup;
            }
            self.responder_backup_valid = false;
        }
        Ok(())
    }
}

/// Going back undoes a creation that succeeded: the secrets in use are those
/// from before, and no backup is left for a direction that was named.
pub proof fn law_going_back_restores_secrets(
    session: SessionView,
    update_requester: bool,
    update_responder: bool,
    derived: DerivedView,
)
    requires
        derivation_succeeds(update_requester, update_responder, derived),
    ensures
        ({
            let created = secrets_created(session, update_requester, update_responder, derived);
            let back = secrets_settled(created, update_requester, update_responder, false);
            &&& backups_present(created, update_requester, update_responder)
            &&& back.secret == session.secret
            &&& update_requester ==> !back.requester_backup_valid
            &&& update_responder ==> !back.responder_backup_valid
        }),
{
}

/// Settling on the new secrets after a creation that succeeded leaves exactly
/// the derived secrets in use, each in the direction that was named.
pub proof fn law_settling_keeps_new_secrets(
    session: SessionView,
    update_requester: bool,
    update_responder: bool,
    derived: DerivedView,
)
    requires
        derivation_succeeds(update_requester, update_responder, derived),
    ensures
        ({
            let created = secrets_created(session, update_requester, update_responder, derived);
            let settled = secrets_settled(created, update_requester, update_responder, true);
            &&& settled.secret.request == if update_requester {
                derived.request->0
            } else {
                session.secret.request
            }
            &&& settled.secret.response == if update_responder {
                derived.response->0
            } else {
                session.secret.response
            }
            &&& update_requester ==> !settled.requester_backup_valid
            &&& update_responder ==> !settled.responder_backup_valid
        }),
{
}

/// A creation or a settling never touches anything of the session but its
/// secrets and their backup.
pub proof fn law_update_keeps_the_rest(
    session: SessionView,
    update_requester: bool,
    update_responder: bool,
    derived: DerivedView,
    use_new_key: bool,
)
    ensures
        ({
            let created = secrets_created(session, update_requester, update_responder, derived);
            let settled = secrets_settled(session, update_requester, update_responder, use_new_key);
            &&& created.session_id == session.session_id == settled.session_id
            &&& created.session_state == session.session_state
            &&& settled.session_state == session.session_state
            &&& created.mut_auth_requested == session.mut_auth_requested
            &&& settled.mut_auth_requested == session.mut_auth_requested
            &&& created.crypto_param == session.crypto_param
            &&& settled.crypto_param == session.crypto_param
            &&& created.th1 == session.th1 && settled.th1 == session.th1
            &&& created.th2 == session.th2 && settled.th2 == session.th2
        }),
{
}

/// A slot that is freed and taken again hands the transcript hashes and the
/// marks of a valid backup of the former session on to the new one, while no
/// secret of it is left.
pub proof fn law_reused_slot_keeps_stale_marks(session: SessionView, session_id: u32)
    ensures
        ({
            let reused = SessionView { session_id, ..cleared(cleared(session)) };
            &&& cleared(session).session_id == INVALID_SESSION_ID
            &&& reused.th1 == session.th1
            &&& reused.th2 == session.th2
            &&& reused.requester_backup_valid == session.requester_backup_valid
            &&& reused.responder_backup_valid == session.responder_backup_valid
            &&& reused.secret == no_secrets()
            &&& reused.backup == no_secrets()
        }),
{
}

} // verus!
