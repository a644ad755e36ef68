use spdmlib::error::SpdmStatus;
use spdmlib::protocol::{
    SpdmAeadAlgo, SpdmBaseHashAlgo, SpdmDheAlgo, SpdmKemAlgo, SpdmKeyScheduleAlgo,
};
use spdmlib::session::{
    DerivedSecrets, SpdmDigestStruct, SpdmSession, SpdmSessionCryptoParam, SpdmSessionState,
    INVALID_SESSION_ID,
};

fn derived(request: u8, response: u8) -> DerivedSecrets {
    DerivedSecrets { request: Some(vec![request; 48]), response: Some(vec![response; 48]) }
}

fn setup_established_session(session: &mut SpdmSession, session_id: u32) {
    session.setup(session_id).expect("setup session");
    session.set_crypto_param(
        SpdmBaseHashAlgo::from_bits(SpdmBaseHashAlgo::TPM_ALG_SHA_384),
        SpdmDheAlgo { bits: SpdmDheAlgo::SECP_384_R1 },
        SpdmKemAlgo { bits: 0 },
        SpdmAeadAlgo { bits: SpdmAeadAlgo::AES_256_GCM },
        SpdmKeyScheduleAlgo { bits: SpdmKeyScheduleAlgo::SPDM_KEY_SCHEDULE },
    );
    session.set_session_state(SpdmSessionState::SpdmSessionEstablished);
    session.generate_data_secret(derived(0xA5, 0x5A)).expect("data secret");
}

fn digest() -> SpdmDigestStruct {
    SpdmDigestStruct { data_size: 48, data: vec![0xABu8; 64] }
}

#[test]
fn repro_r2_1_stale_state_after_teardown() {
    let mut session = SpdmSession::new();
    let session_id = 0x00FF_FFFEu32;

    setup_established_session(&mut session, session_id);

    session.create_data_secret_update(true, true, derived(0xA5, 0xA5)).expect("key update");
    assert!(
        session.get_requester_backup_valid(),
        "precondition: requester_backup_valid should be true after key update"
    );
    assert!(
        session.get_responder_backup_valid(),
        "precondition: responder_backup_valid should be true after key update"
    );

    session.set_th1(digest());
    session.set_th2(digest());
    assert_eq!(session.get_th1().data_size, 48, "precondition: th1 set");
    assert_eq!(session.get_th2().data_size, 48, "precondition: th2 set");

    session.teardown();

    assert_eq!(
        session.get_session_id(),
        INVALID_SESSION_ID,
        "session_id should be reset after teardown"
    );
    assert!(session.get_requester_backup_valid(), "requester_backup_valid persists after teardown");
    assert!(session.get_responder_backup_valid(), "responder_backup_valid persists after teardown");
    assert_eq!(session.get_th1().data_size, 48, "th1 persists after teardown");
    assert_eq!(session.get_th2().data_size, 48, "th2 persists after teardown");

    session.setup(0x00FF_FFFDu32).expect("setup reuse");
    assert!(session.get_requester_backup_valid(), "backup mark inherited by the new session");
    assert_eq!(session.get_th1().data_size, 48, "th1 inherited by the new session");
}

#[test]
fn teardown_drops_every_secret() {
    let mut session = SpdmSession::new();
    setup_established_session(&mut session, 7);
    session.create_data_secret_update(true, true, derived(1, 2)).expect("key update");
    session.teardown();
    assert!(session.get_application_secret().request_data_secret.is_empty());
    assert!(session.get_application_secret().response_data_secret.is_empty());
    assert!(session.application_secret_backup.request_data_secret.is_empty());
    assert!(session.application_secret_backup.response_data_secret.is_empty());
    assert_eq!(session.get_session_state(), SpdmSessionState::SpdmSessionNotStarted);
    assert_eq!(session.get_mut_auth_requested().bits, 0);
    assert_eq!(session.get_crypto_param(), SpdmSessionCryptoParam::default());
}

#[test]
fn going_back_restores_both_secrets() {
    let mut session = SpdmSession::new();
    setup_established_session(&mut session, 7);
    session.create_data_secret_update(true, true, derived(1, 2)).expect("key update");
    assert_eq!(session.get_application_secret().request_data_secret, vec![1u8; 48]);
    assert_eq!(session.get_application_secret().response_data_secret, vec![2u8; 48]);
    session.activate_data_secret_update(true, true, false).expect("go back");
    assert_eq!(session.get_application_secret().request_data_secret, vec![0xA5u8; 48]);
    assert_eq!(session.get_application_secret().response_data_secret, vec![0x5Au8; 48]);
    assert!(!session.get_requester_backup_valid());
    assert!(!session.get_responder_backup_valid());
}

#[test]
fn settling_keeps_the_new_secret_of_one_direction() {
    let mut session = SpdmSession::new();
    setup_established_session(&mut session, 7);
    session.create_data_secret_update(true, false, derived(1, 2)).expect("key update");
    assert!(!session.get_responder_backup_valid());
    session.activate_data_secret_update(true, false, true).expect("settle");
    assert_eq!(session.get_application_secret().request_data_secret, vec![1u8; 48]);
    assert_eq!(session.get_application_secret().response_data_secret, vec![0x5Au8; 48]);
    assert!(!session.get_requester_backup_valid());
}

#[test]
fn going_back_without_a_backup_is_refused() {
    let mut session = SpdmSession::new();
    setup_established_session(&mut session, 7);
    assert_eq!(
        session.activate_data_secret_update(true, false, false),
        Err(SpdmStatus::InvalidStateLocal)
    );
    assert_eq!(
        session.activate_data_secret_update(false, true, false),
        Err(SpdmStatus::InvalidStateLocal)
    );
    assert_eq!(session.activate_data_secret_update(false, false, false), Ok(()));
    assert_eq!(session.get_application_secret().request_data_secret, vec![0xA5u8; 48]);
}

#[test]
fn a_secret_that_was_not_derived_ends_the_update() {
    let mut session = SpdmSession::new();
    setup_established_session(&mut session, 7);
    assert_eq!(
        session.create_data_secret_update(true, true, DerivedSecrets::none()),
        Err(SpdmStatus::CryptoError)
    );
    assert!(!session.get_requester_backup_valid());
    let half = DerivedSecrets { request: Some(vec![1]), response: None };
    assert_eq!(session.create_data_secret_update(true, true, half), Err(SpdmStatus::CryptoError));
    assert!(session.get_requester_backup_valid());
    assert!(!session.get_responder_backup_valid());
    assert_eq!(session.get_application_secret().request_data_secret, vec![1u8]);
    assert_eq!(
        session.generate_data_secret(DerivedSecrets { request: None, response: Some(vec![2]) }),
        Err(SpdmStatus::CryptoError)
    );
    assert_eq!(session.get_application_secret().request_data_secret, vec![1u8]);
}

#[test]
fn an_update_leaves_the_rest_of_a_session() {
    let mut session = SpdmSession::new();
    setup_established_session(&mut session, 9);
    session.set_th1(digest());
    session.create_data_secret_update(true, true, derived(1, 2)).expect("key update");
    session.activate_data_secret_update(true, true, true).expect("settle");
    assert_eq!(session.get_session_id(), 9);
    assert_eq!(session.get_session_state(), SpdmSessionState::SpdmSessionEstablished);
    assert_eq!(session.get_th1().data, vec![0xABu8; 64]);
    assert_eq!(session.get_th2().data_size, 0);
}
