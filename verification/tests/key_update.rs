use spdmlib::codec::{Reader, Writer};
use spdmlib::common::{
    BufferReset, SpdmConfigInfo, SpdmConnectionState, SpdmContext, SpdmNegotiateInfo,
    SpdmRuntimeInfo,
};
use spdmlib::error::SpdmStatus;
use spdmlib::message::{
    SpdmKeyUpdateOperation, SpdmKeyUpdateRequestPayload, SpdmKeyUpdateResponsePayload, SpdmMessage,
    SpdmMessageHeader, SpdmMessagePayload, SpdmRequestResponseCode,
};
use spdmlib::protocol::{
    SpdmAeadAlgo, SpdmBaseHashAlgo, SpdmDheAlgo, SpdmKemAlgo, SpdmKeyScheduleAlgo,
    SpdmRequestCapabilityFlags, SpdmResponseCapabilityFlags, SpdmVersion,
};
use spdmlib::requester::key_update_exchange::{KeyUpdateAction, KeyUpdateExchange, KeyUpdateStage};
use spdmlib::requester::key_update_req::key_update_directions;
use spdmlib::requester::{ErrorResponseCall, RequesterContext, ResponseHandling};
use spdmlib::responder::ResponderContext;
use spdmlib::session::{
    DerivedSecrets, SpdmSession, SpdmSessionCryptoParam, SpdmSessionState,
};
use spdmlib::spdm_trace::{
    clear_callback, next_delivery, note_data_secret_generated, note_reset, register_callback,
    TraceErrorKind, TraceKeyUpdateOp, TraceRole, TraceRuntime,
};
use spdmlib::trace_harness::{setup_established_key_update, start_trace, SESSION_SLOTS};

const SESSION_ID: u32 = (0xffu32 << 16) + 0xFFFE;

fn derived(request: u8, response: u8) -> DerivedSecrets {
    DerivedSecrets { request: Some(vec![request; 48]), response: Some(vec![response; 48]) }
}

fn established_session(session_id: u32) -> SpdmSession {
    let mut session = SpdmSession::new();
    session.setup(session_id).expect("setup session");
    session.set_session_state(SpdmSessionState::SpdmSessionEstablished);
    session.generate_data_secret(derived(0xA5, 0x5A)).expect("data secret");
    session
}

fn context() -> SpdmContext {
    let mut context = SpdmContext {
        config_info: SpdmConfigInfo {
            req_ct_exponent: 0,
            req_capabilities: SpdmRequestCapabilityFlags::from_bits(
                SpdmRequestCapabilityFlags::KEY_UPD_CAP,
            ),
            data_transfer_size: 0x1200,
            max_spdm_msg_size: 0x1200,
        },
        negotiate_info: SpdmNegotiateInfo {
            spdm_version_sel: SpdmVersion::SpdmVersion12,
            req_ct_exponent_sel: 0,
            req_capabilities_sel: SpdmRequestCapabilityFlags::from_bits(
                SpdmRequestCapabilityFlags::KEY_UPD_CAP,
            ),
            rsp_ct_exponent_sel: 0,
            rsp_capabilities_sel: SpdmResponseCapabilityFlags::from_bits(
                SpdmResponseCapabilityFlags::KEY_UPD_CAP,
            ),
            req_data_transfer_size_sel: 0,
            req_max_spdm_msg_size_sel: 0,
            rsp_data_transfer_size_sel: 0,
            rsp_max_spdm_msg_size_sel: 0,
            base_hash_sel: SpdmBaseHashAlgo::from_bits(0),
        },
        runtime_info: SpdmRuntimeInfo {
            connection_state: SpdmConnectionState::SpdmConnectionNegotiated,
            last_session_id: None,
            message_a: vec![],
            message_a_limit: 0x1000,
            buffer_resets: vec![],
        },
        session: vec![],
    };
    setup_established_key_update(&mut context, SESSION_ID, derived(0xA5, 0x5A));
    context.session[2] = established_session(5);
    context
}

#[test]
fn slots_with_one_established_session() {
    let mut context = context();
    setup_established_key_update(&mut context, 6, DerivedSecrets::none());
    assert_eq!(context.session.len(), SESSION_SLOTS);
    assert_eq!(context.session[0].get_session_id(), 6);
    assert_eq!(
        context.session[0].get_session_state(),
        SpdmSessionState::SpdmSessionEstablished
    );
    assert!(context.session[0].get_application_secret().request_data_secret.is_empty());
    assert_eq!(
        context.negotiate_info.base_hash_sel,
        SpdmBaseHashAlgo::from_bits(SpdmBaseHashAlgo::TPM_ALG_SHA_384)
    );
    assert_eq!(
        context.session[0].get_crypto_param(),
        SpdmSessionCryptoParam {
            base_hash_algo: SpdmBaseHashAlgo { bits: 2 },
            dhe_algo: SpdmDheAlgo { bits: 0x10 },
            kem_algo: SpdmKemAlgo { bits: 0 },
            aead_algo: SpdmAeadAlgo { bits: 2 },
            key_schedule_algo: SpdmKeyScheduleAlgo { bits: 1 },
        }
    );
    assert_eq!(context.session[1].get_crypto_param(), SpdmSessionCryptoParam::default());
    assert_eq!(context.negotiate_info.spdm_version_sel, SpdmVersion::SpdmVersion12);
    assert_eq!(context.session_slot(6), Some(0));
    assert_eq!(context.session_slot(0), Some(1));
    assert_eq!(context.session_slot(5), None);
}

fn setup_responder_key_update_context() -> (ResponderContext, u32) {
    (ResponderContext { common: context() }, SESSION_ID)
}

fn build_key_update_request(operation: SpdmKeyUpdateOperation, tag: u8) -> Vec<u8> {
    let request = SpdmMessage {
        header: SpdmMessageHeader {
            version: SpdmVersion::SpdmVersion12,
            request_response_code: SpdmRequestResponseCode::SpdmRequestKeyUpdate,
        },
        payload: SpdmMessagePayload::SpdmKeyUpdateRequest(SpdmKeyUpdateRequestPayload {
            key_update_operation: operation,
            tag,
        }),
    };
    let mut writer = Writer::init(1024);
    request
        .spdm_encode(SpdmVersion::SpdmVersion12, &mut writer)
        .expect("encode key update request");
    writer.used_slice().to_vec()
}

fn traced() -> TraceRuntime<u8> {
    let mut trace: TraceRuntime<u8> = TraceRuntime::default();
    register_callback(&mut trace, 1);
    note_data_secret_generated(&mut trace, TraceRole::Requester);
    note_data_secret_generated(&mut trace, TraceRole::Responder);
    trace
}

#[test]
fn repro_key_update_ack_without_applied_update() {
    let (mut responder, session_id) = setup_responder_key_update_context();
    let mut trace = traced();
    let old_secret =
        responder.common.session[0].get_application_secret().request_data_secret.clone();

    let request = build_key_update_request(SpdmKeyUpdateOperation::SpdmUpdateSingleKey, 7);
    let mut response_writer = Writer::init(1024);
    let (status, response) = responder.handle_spdm_key_update(
        &mut trace,
        session_id,
        &request,
        DerivedSecrets::none(),
        &mut response_writer,
    );

    assert!(status.is_ok(), "responder should still return success");
    let response = response.expect("response buffer");

    let mut reader = Reader::init(response);
    let header = SpdmMessageHeader::read(&mut reader).expect("response header");
    assert_eq!(
        header.request_response_code,
        SpdmRequestResponseCode::SpdmResponseKeyUpdateAck
    );
    let ack = SpdmKeyUpdateResponsePayload::spdm_read(&mut reader).expect("key update ack payload");
    assert_eq!(ack.key_update_operation, SpdmKeyUpdateOperation::SpdmUpdateSingleKey);
    assert_eq!(ack.tag, 7);

    let new_secret =
        responder.common.session[0].get_application_secret().request_data_secret.clone();
    assert_eq!(
        old_secret, new_secret,
        "the responder ACKed the update even though its request-direction key did not change"
    );
    assert_eq!(trace.key_gens.rs_req, 1);
}

#[test]
fn repro_key_update_without_key_update_capability() {
    let (mut responder, session_id) = setup_responder_key_update_context();
    let mut trace = traced();
    responder.common.negotiate_info.req_capabilities_sel = SpdmRequestCapabilityFlags::from_bits(0);
    responder.common.negotiate_info.rsp_capabilities_sel =
        SpdmResponseCapabilityFlags::from_bits(0);

    let request = build_key_update_request(SpdmKeyUpdateOperation::SpdmUpdateSingleKey, 1);
    let mut response_writer = Writer::init(1024);
    let (status, response) = responder.handle_spdm_key_update(
        &mut trace,
        session_id,
        &request,
        derived(1, 2),
        &mut response_writer,
    );

    assert!(!responder
        .common
        .negotiate_info
        .req_capabilities_sel
        .contains(SpdmRequestCapabilityFlags::KEY_UPD_CAP));
    assert!(!responder
        .common
        .negotiate_info
        .rsp_capabilities_sel
        .contains(SpdmResponseCapabilityFlags::KEY_UPD_CAP));
    assert!(
        status.is_ok(),
        "responder still accepts KEY_UPDATE even though KEY_UPD_CAP was never negotiated"
    );

    let response = response.expect("response buffer");
    let mut reader = Reader::init(response);
    let header = SpdmMessageHeader::read(&mut reader).expect("response header");
    assert_eq!(
        header.request_response_code,
        SpdmRequestResponseCode::SpdmResponseKeyUpdateAck,
        "responder ACKed KEY_UPDATE without negotiated KEY_UPD_CAP"
    );
}

fn run_key_update(operation: SpdmKeyUpdateOperation) -> (ResponderContext, TraceRuntime<u8>) {
    let mut trace: TraceRuntime<u8> = TraceRuntime::default();
    note_reset(&mut trace);
    start_trace(&mut trace, 1);
    note_data_secret_generated(&mut trace, TraceRole::Requester);
    note_data_secret_generated(&mut trace, TraceRole::Responder);
    let (mut responder, session_id) = setup_responder_key_update_context();

    let request = build_key_update_request(operation, 1);
    let mut writer = Writer::init(1024);
    let (status, _) = responder.handle_spdm_key_update(
        &mut trace,
        session_id,
        &request,
        derived(1, 2),
        &mut writer,
    );
    assert!(status.is_ok(), "the update should succeed");

    let request = build_key_update_request(SpdmKeyUpdateOperation::SpdmVerifyNewKey, 2);
    let mut writer = Writer::init(1024);
    let (status, _) = responder.handle_spdm_key_update(
        &mut trace,
        session_id,
        &request,
        DerivedSecrets::none(),
        &mut writer,
    );
    assert!(status.is_ok(), "VerifyNewKey should succeed");
    clear_callback(&mut trace);
    (responder, trace)
}

#[test]
fn tla_trace_key_update_single() {
    let (responder, mut trace) = run_key_update(SpdmKeyUpdateOperation::SpdmUpdateSingleKey);
    let secret = responder.common.session[0].get_application_secret();
    assert_eq!(secret.request_data_secret, vec![1u8; 48]);
    assert_eq!(secret.response_data_secret, vec![0x5Au8; 48]);
    assert!(!responder.common.session[0].get_requester_backup_valid());

    let events = trace.take_pending();
    assert_eq!(events.len(), 4);
    assert_eq!(events[0].callback, 1);
    let first = &events[0].event;
    assert_eq!(first.name, "ResponderHandleKeyUpdate");
    assert_eq!(first.nid, "responder");
    assert_eq!(first.msg.op, Some(TraceKeyUpdateOp::UpdateSingle));
    let gens = first.state.key_gens.expect("key generations");
    assert_eq!((gens.rq_req, gens.rq_resp, gens.rs_req, gens.rs_resp), (1, 1, 2, 1));
    assert_eq!(first.state.req_backup_valid, Some(true));
    assert_eq!(first.state.rsp_backup_valid, Some(false));
    let peer = first.state.responder.expect("responder");
    assert_eq!(peer.connection_state, Some(SpdmConnectionState::SpdmConnectionNegotiated));
    assert_eq!(peer.session_state, Some(SpdmSessionState::SpdmSessionEstablished));
    assert!(first.state.requester.is_none());
    assert!(first.r2.is_none());

    let second = &events[1].event;
    assert_eq!(second.name, "WriteSpdmKeyUpdateResponse");
    let fields = second.r2.as_ref().expect("further fields");
    assert_eq!(fields.session_id, Some(SESSION_ID));
    assert_eq!(fields.req_backup_valid, Some(true));
    assert_eq!(fields.rsp_backup_valid, Some(false));
    assert!(fields.op.is_none());

    let third = &events[2].event;
    assert_eq!(third.msg.op, Some(TraceKeyUpdateOp::VerifyNewKey));
    let gens = third.state.key_gens.expect("key generations");
    assert_eq!((gens.rs_req, gens.rs_resp), (2, 1));
    assert_eq!(third.state.req_backup_valid, Some(false));
    assert!(trace.take_pending().is_empty());
}

#[test]
fn tla_trace_key_update_all() {
    let (responder, mut trace) = run_key_update(SpdmKeyUpdateOperation::SpdmUpdateAllKeys);
    let secret = responder.common.session[0].get_application_secret();
    assert_eq!(secret.request_data_secret, vec![1u8; 48]);
    assert_eq!(secret.response_data_secret, vec![2u8; 48]);
    assert!(!responder.common.session[0].get_requester_backup_valid());
    assert!(!responder.common.session[0].get_responder_backup_valid());
    let events = trace.take_pending();
    let gens = events[0].event.state.key_gens.expect("key generations");
    assert_eq!((gens.rq_req, gens.rq_resp, gens.rs_req, gens.rs_resp), (1, 1, 2, 2));
    assert_eq!(events[0].event.state.req_backup_valid, Some(true));
    assert_eq!(events[0].event.state.rsp_backup_valid, Some(false));
    assert_eq!(events[0].event.msg.op, Some(TraceKeyUpdateOp::UpdateAll));
}

fn exchange(
    operation: SpdmKeyUpdateOperation,
    responder_derives: bool,
    requester: &mut RequesterContext,
    responder: &mut ResponderContext,
    trace: &mut TraceRuntime<u8>,
) -> (Result<(), SpdmStatus>, Vec<Vec<u8>>) {
    let mut messages: Vec<Vec<u8>> = vec![];
    let mut answer: Vec<u8> = vec![];
    let (mut key_update, mut action) = KeyUpdateExchange::start(operation);
    loop {
        let result = match action {
            KeyUpdateAction::Send { operation, tag } => {
                let mut buffer = [0u8; 0x1200];
                let used = requester
                    .prepare_spdm_key_update(SESSION_ID, operation, tag, &mut buffer)
                    .expect("prepare");
                messages.push(buffer[..used].to_vec());
                let mut writer = Writer::init(0x1200);
                let theirs =
                    if responder_derives { derived(1, 2) } else { DerivedSecrets::none() };
                let (status, response) = responder.handle_spdm_key_update(
                    trace,
                    SESSION_ID,
                    &buffer[..used],
                    theirs,
                    &mut writer,
                );
                answer = response.expect("answer").to_vec();
                messages.push(answer.clone());
                requester.record_spdm_key_update_sent(trace, SESSION_ID, operation);
                status
            }
            KeyUpdateAction::Receive { operation } => {
                match requester.expect_spdm_key_update(SESSION_ID, operation, derived(1, 2)) {
                    Ok((update_requester, update_responder)) => {
                        match requester.handle_spdm_key_update_op_response(
                            trace,
                            SESSION_ID,
                            update_requester,
                            update_responder,
                            &answer,
                        ) {
                            ResponseHandling::Done(result) => result,
                            ResponseHandling::ErrorResponse(_) => Err(SpdmStatus::ErrorPeer),
                        }
                    }
                    Err(status) => Err(status),
                }
            }
            KeyUpdateAction::Finish { result } => {
                assert_eq!(key_update.stage, KeyUpdateStage::Finished);
                return (result, messages);
            }
        };
        action = key_update.advance(result);
    }
}

#[test]
fn trace_session_key_update() {
    let mut requester = RequesterContext { common: context() };
    let mut responder = ResponderContext { common: context() };
    let mut trace = traced();
    let (result, messages) = exchange(
        SpdmKeyUpdateOperation::SpdmUpdateAllKeys,
        true,
        &mut requester,
        &mut responder,
        &mut trace,
    );
    result.expect("key update");
    assert_eq!(
        messages,
        vec![
            vec![0x12, 0xe9, 2, 1],
            vec![0x12, 0x69, 2, 1],
            vec![0x12, 0xe9, 3, 2],
            vec![0x12, 0x69, 3, 2],
        ]
    );
    let mine = &requester.common.session[0];
    let theirs = &responder.common.session[0];
    assert_eq!(mine.get_application_secret().request_data_secret, vec![1u8; 48]);
    assert_eq!(mine.get_application_secret().response_data_secret, vec![2u8; 48]);
    assert_eq!(theirs.get_application_secret().request_data_secret, vec![1u8; 48]);
    assert_eq!(theirs.get_application_secret().response_data_secret, vec![2u8; 48]);
    for session in [mine, theirs] {
        assert!(!session.get_requester_backup_valid());
        assert!(!session.get_responder_backup_valid());
    }
    let gens = trace.key_gens;
    assert_eq!((gens.rq_req, gens.rq_resp, gens.rs_req, gens.rs_resp), (2, 2, 2, 2));
    let names: Vec<&str> = trace.take_pending().iter().map(|queued| queued.event.name).collect();
    assert_eq!(
        names,
        vec![
            "ResponderHandleKeyUpdate",
            "WriteSpdmKeyUpdateResponse",
            "SendKeyUpdate",
            "RequesterSendKeyUpdate",
            "RequesterHandleKeyUpdateAck",
            "HandleSpdmKeyUpdateResponse",
            "ResponderHandleKeyUpdate",
            "WriteSpdmKeyUpdateResponse",
            "SendKeyUpdate",
            "RequesterSendKeyUpdate",
            "RequesterHandleKeyUpdateAck",
            "HandleSpdmKeyUpdateResponse",
        ]
    );
    let other = requester.common.session[2].get_application_secret();
    assert_eq!(other.request_data_secret, vec![0xA5u8; 48]);
    let resets = &requester.common.runtime_info.buffer_resets;
    assert_eq!(resets.len(), 2);
    assert_eq!(
        resets[0],
        BufferReset {
            request_code: SpdmRequestResponseCode::SpdmRequestKeyUpdate,
            session_id: Some(SESSION_ID),
        }
    );
}

#[test]
fn an_update_that_the_responder_did_not_derive_parts_both_sides() {
    let mut requester = RequesterContext { common: context() };
    let mut responder = ResponderContext { common: context() };
    let mut trace = traced();
    let (result, messages) = exchange(
        SpdmKeyUpdateOperation::SpdmUpdateSingleKey,
        false,
        &mut requester,
        &mut responder,
        &mut trace,
    );
    assert_eq!(result, Ok(()));
    assert_eq!(messages.len(), 4);
    let mine = requester.common.session[0].get_application_secret();
    let theirs = responder.common.session[0].get_application_secret();
    assert_eq!(mine.request_data_secret, vec![1u8; 48]);
    assert_eq!(theirs.request_data_secret, vec![0xA5u8; 48]);
    assert_eq!((trace.key_gens.rq_req, trace.key_gens.rs_req), (2, 1));
}

#[test]
fn the_first_of_two_sessions_with_one_id_is_found() {
    let mut responder = ResponderContext { common: context() };
    responder.common.session[3] = established_session(SESSION_ID);
    assert_eq!(responder.common.session_slot(SESSION_ID), Some(0));
    let mut trace = traced();
    let mut writer = Writer::init(64);
    let (status, _) = responder.handle_spdm_key_update(
        &mut trace,
        SESSION_ID,
        &[0x12, 0xe9, 1, 1],
        derived(1, 2),
        &mut writer,
    );
    assert_eq!(status, Ok(()));
    let first = responder.common.session[0].get_application_secret();
    let last = responder.common.session[3].get_application_secret();
    assert_eq!(first.request_data_secret, vec![1u8; 48]);
    assert_eq!(last.request_data_secret, vec![0xA5u8; 48]);
}

#[test]
fn a_key_update_takes_only_the_two_operations() {
    for operation in [
        SpdmKeyUpdateOperation::SpdmVerifyNewKey,
        SpdmKeyUpdateOperation::Unknown(0),
        SpdmKeyUpdateOperation::Unknown(9),
    ] {
        let (key_update, action) = KeyUpdateExchange::start(operation);
        assert_eq!(key_update.stage, KeyUpdateStage::Finished);
        assert_eq!(action, KeyUpdateAction::Finish { result: Err(SpdmStatus::InvalidMsgField) });
    }
}

#[test]
fn the_first_error_ends_a_key_update() {
    let (mut key_update, action) =
        KeyUpdateExchange::start(SpdmKeyUpdateOperation::SpdmUpdateSingleKey);
    assert_eq!(
        action,
        KeyUpdateAction::Send { operation: SpdmKeyUpdateOperation::SpdmUpdateSingleKey, tag: 1 }
    );
    assert_eq!(
        key_update.advance(Ok(())),
        KeyUpdateAction::Receive { operation: SpdmKeyUpdateOperation::SpdmUpdateSingleKey }
    );
    assert_eq!(
        key_update.advance(Err(SpdmStatus::Other(3))),
        KeyUpdateAction::Finish { result: Err(SpdmStatus::Other(3)) }
    );
    assert_eq!(key_update.stage, KeyUpdateStage::Finished);
}

#[test]
fn generations_at_their_limit() {
    let (mut responder, session_id) = setup_responder_key_update_context();
    let mut trace = traced();
    trace.key_gens.rs_req = u32::MAX;
    trace.key_gens.rq_resp = u32::MAX;
    let single = [0x12, 0xe9, 1, 1];
    let verify = [0x12, 0xe9, 3, 1];
    assert!(!responder.can_count_key_update(&trace, session_id, &single, &derived(1, 2)));
    assert!(responder.can_count_key_update(&trace, session_id, &single, &DerivedSecrets::none()));
    assert!(responder.can_count_key_update(&trace, session_id, &verify, &derived(1, 2)));
    assert!(responder.can_count_key_update(&trace, 77, &single, &derived(1, 2)));
    let mut writer = Writer::init(64);
    let (status, _) = responder.handle_spdm_key_update(
        &mut trace,
        session_id,
        &verify,
        DerivedSecrets::none(),
        &mut writer,
    );
    assert_eq!(status, Ok(()));
    let requester = RequesterContext { common: context() };
    assert!(requester.can_count_key_update_ack(&trace, SESSION_ID, &[0x12, 0x69, 1, 1]));
    assert!(!requester.can_count_key_update_ack(&trace, SESSION_ID, &[0x12, 0x69, 2, 1]));
    assert!(requester.can_count_key_update_ack(&trace, SESSION_ID, &[0x12, 0x7f, 2, 1]));
    assert!(requester.can_count_key_update_ack(&trace, 77, &[0x12, 0x69, 2, 1]));
}

fn acknowledged() -> TraceRuntime<u8> {
    let (_, trace, _) = answered(&[0x12, 0x69, 2, 1]);
    trace
}

#[test]
fn the_second_event_of_a_step_follows_the_reaction_to_the_first() {
    // The callback stays.
    let mut trace = acknowledged();
    let mut batch = trace.take_pending();
    let (callback, event) = next_delivery(&trace, &mut batch).expect("first");
    assert_eq!((callback, event.name), (1, "RequesterHandleKeyUpdateAck"));
    let (callback, event) = next_delivery(&trace, &mut batch).expect("second");
    assert_eq!((callback, event.name), (1, "HandleSpdmKeyUpdateResponse"));
    assert!(next_delivery(&trace, &mut batch).is_none());

    // The callback takes itself back on the first event.
    let mut trace = acknowledged();
    let mut batch = trace.take_pending();
    assert_eq!(next_delivery(&trace, &mut batch).expect("first").0, 1);
    clear_callback(&mut trace);
    assert!(next_delivery(&trace, &mut batch).is_none());
    assert!(batch.is_empty());

    // The callback registers another one on the first event.
    let mut trace = acknowledged();
    let mut batch = trace.take_pending();
    assert_eq!(next_delivery(&trace, &mut batch).expect("first").0, 1);
    register_callback(&mut trace, 2);
    assert_eq!(next_delivery(&trace, &mut batch).expect("second").0, 2);
    assert!(next_delivery(&trace, &mut batch).is_none());
}

#[test]
fn what_is_queued_stays_with_its_callback() {
    let mut trace = acknowledged();
    register_callback(&mut trace, 2);
    let mut batch = trace.take_pending();
    assert_eq!(next_delivery(&trace, &mut batch).expect("first").0, 1);
    assert_eq!(next_delivery(&trace, &mut batch).expect("second").0, 1);
    let mut trace = acknowledged();
    clear_callback(&mut trace);
    let mut batch = trace.take_pending();
    assert_eq!(next_delivery(&trace, &mut batch).expect("first").0, 1);
    assert_eq!(next_delivery(&trace, &mut batch).expect("second").0, 1);
}

#[test]
fn operations_that_are_carried_out() {
    let (responder, session_id) = setup_responder_key_update_context();
    let single = SpdmKeyUpdateOperation::SpdmUpdateSingleKey;
    assert_eq!(responder.accepted_operation(session_id, &[0x12, 0xe9, 1, 1]), Some(single));
    assert_eq!(responder.accepted_operation(77, &[0x12, 0xe9, 1, 1]), None);
    assert_eq!(responder.accepted_operation(session_id, &[0x12, 0xe9, 4, 1]), None);
    assert_eq!(responder.accepted_operation(session_id, &[0x13, 0xe9, 1, 1]), None);
    assert_eq!(responder.accepted_operation(session_id, &[0x12, 0xe9, 1]), None);
    assert_eq!(key_update_directions(single), (true, false));
    assert_eq!(key_update_directions(SpdmKeyUpdateOperation::SpdmUpdateAllKeys), (true, true));
    assert_eq!(key_update_directions(SpdmKeyUpdateOperation::SpdmVerifyNewKey), (false, false));
}

fn refused(bytes: &[u8], session_id: u32) -> (SpdmStatus, Vec<u8>, usize) {
    let (mut responder, _) = setup_responder_key_update_context();
    let mut trace = traced();
    let mut writer = Writer::init(1024);
    let (status, response) = responder.write_spdm_key_update_response(
        &mut trace,
        session_id,
        bytes,
        derived(1, 2),
        &mut writer,
    );
    let response = response.expect("answer").to_vec();
    assert!(trace.pending.is_empty());
    assert_eq!(trace.key_gens.rs_req, 1);
    let secret = responder.common.session[0].get_application_secret();
    assert_eq!(secret.request_data_secret, vec![0xA5u8; 48]);
    let resets = responder.common.runtime_info.buffer_resets.len();
    (status.expect_err("refused"), response, resets)
}

#[test]
fn requests_that_a_responder_refuses() {
    let invalid = vec![0x12u8, 0x7f, 0x01, 0];
    assert_eq!(
        refused(&[0x12], SESSION_ID),
        (SpdmStatus::InvalidMsgField, invalid.clone(), 0),
        "no header"
    );
    assert_eq!(
        refused(&[0x11, 0xe9, 1, 1], SESSION_ID),
        (SpdmStatus::InvalidMsgField, vec![0x12, 0x7f, 0x41, 0], 0),
        "another version"
    );
    assert_eq!(
        refused(&[0x12, 0xe9, 1], SESSION_ID),
        (SpdmStatus::InvalidMsgField, invalid.clone(), 1),
        "no body"
    );
    assert_eq!(
        refused(&[0x12, 0xe9, 1, 1], 77),
        (SpdmStatus::InvalidStateLocal, vec![0x12, 0x7f, 0x05, 0], 1),
        "no session"
    );
    assert_eq!(
        refused(&[0x12, 0xe9, 4, 1], SESSION_ID),
        (SpdmStatus::InvalidMsgField, invalid, 1),
        "no such operation"
    );
}

#[test]
fn an_acknowledgement_without_room_leaves_the_update_in_place() {
    let (mut responder, session_id) = setup_responder_key_update_context();
    let mut trace = traced();
    let mut writer = Writer::init(6);
    writer.data = vec![9, 9, 9];
    let (status, response) = responder.handle_spdm_key_update(
        &mut trace,
        session_id,
        &[0x12, 0xe9, 1, 1],
        derived(1, 2),
        &mut writer,
    );
    assert_eq!(status, Err(SpdmStatus::InvalidStateLocal));
    assert_eq!(response.expect("answer"), &[9, 9, 9, 0x12, 0x69, 1]);
    let secret = responder.common.session[0].get_application_secret();
    assert_eq!(secret.request_data_secret, vec![1u8; 48]);
    assert_eq!(trace.key_gens.rs_req, 2);
    assert!(trace.pending.is_empty());
}

#[test]
fn the_code_of_a_request_does_not_matter() {
    let (mut responder, session_id) = setup_responder_key_update_context();
    let mut trace = traced();
    let mut writer = Writer::init(64);
    let (status, response) = responder.handle_spdm_key_update(
        &mut trace,
        session_id,
        &[0x12, 0x00, 3, 1, 0xff],
        DerivedSecrets::none(),
        &mut writer,
    );
    assert_eq!(status, Ok(()));
    assert_eq!(response.expect("answer"), &[0x12, 0x69, 3, 1]);
}

fn answered(bytes: &[u8]) -> (RequesterContext, TraceRuntime<u8>, ResponseHandling) {
    let mut requester = RequesterContext { common: context() };
    let mut trace = traced();
    let directions = requester.expect_spdm_key_update(
        SESSION_ID,
        SpdmKeyUpdateOperation::SpdmUpdateAllKeys,
        derived(1, 2),
    );
    assert_eq!(directions, Ok((true, true)));
    assert!(requester.common.session[0].get_requester_backup_valid());
    let handling =
        requester.handle_spdm_key_update_op_response(&mut trace, SESSION_ID, true, true, bytes);
    (requester, trace, handling)
}

fn secrets(requester: &RequesterContext) -> (Vec<u8>, Vec<u8>) {
    let secret = requester.common.session[0].get_application_secret();
    (secret.request_data_secret.clone(), secret.response_data_secret.clone())
}

#[test]
fn an_error_message_brings_the_former_secrets_back() {
    let (requester, trace, handling) = answered(&[0x12, 0x7f, 1, 0]);
    assert_eq!(
        handling,
        ResponseHandling::ErrorResponse(ErrorResponseCall {
            session_id: Some(SESSION_ID),
            original_request: SpdmRequestResponseCode::SpdmRequestKeyUpdate,
            expected_response: SpdmRequestResponseCode::SpdmResponseKeyUpdateAck,
        })
    );
    assert_eq!(secrets(&requester), (vec![0xA5u8; 48], vec![0x5Au8; 48]));
    assert_eq!((trace.key_gens.rq_req, trace.key_gens.rq_resp), (1, 1));
    let event = &trace.pending[0].event;
    assert_eq!(event.name, "HandleSpdmKeyUpdateOpResponse");
    assert_eq!(event.msg.error, Some(TraceErrorKind::Unexpected));
    assert_eq!(event.state.req_backup_valid, Some(false));
    assert_eq!(trace.pending.len(), 1);
}

#[test]
fn an_acknowledgement_that_breaks_off_brings_the_former_secrets_back() {
    let (requester, trace, handling) = answered(&[0x12, 0x69, 2]);
    assert_eq!(handling, ResponseHandling::Done(Err(SpdmStatus::InvalidMsgField)));
    assert_eq!(secrets(&requester), (vec![0xA5u8; 48], vec![0x5Au8; 48]));
    assert_eq!(trace.pending[0].event.msg.error, Some(TraceErrorKind::Invalid));
}

#[test]
fn an_acknowledgement_settles_the_new_secrets() {
    let (requester, trace, handling) = answered(&[0x12, 0x69, 2, 1]);
    assert_eq!(handling, ResponseHandling::Done(Ok(())));
    assert_eq!(secrets(&requester), (vec![1u8; 48], vec![2u8; 48]));
    assert_eq!((trace.key_gens.rq_req, trace.key_gens.rq_resp), (2, 2));
    assert_eq!(trace.pending.len(), 2);
    let fields = trace.pending[1].event.r2.as_ref().expect("further fields");
    assert_eq!(fields.req_backup_valid, Some(false));
    assert_eq!(fields.rsp_backup_valid, Some(false));
}

#[test]
fn the_operation_and_the_tag_of_an_acknowledgement_do_not_matter() {
    for (operation, tag) in [(1u8, 1u8), (3, 9), (0, 0), (0xff, 0xff)] {
        let (requester, _, handling) = answered(&[0x12, 0x69, operation, tag]);
        assert_eq!(handling, ResponseHandling::Done(Ok(())));
        assert_eq!(secrets(&requester), (vec![1u8; 48], vec![2u8; 48]));
        assert!(!requester.common.session[0].get_requester_backup_valid());
        assert!(!requester.common.session[0].get_responder_backup_valid());
    }
}

#[test]
fn going_back_works_for_the_response_direction_alone() {
    let mut requester = RequesterContext { common: context() };
    let mut trace = traced();
    requester.common.create_secrets_at(0, false, true, derived(1, 2)).expect("secrets");
    assert_eq!(secrets(&requester), (vec![0xA5u8; 48], vec![2u8; 48]));
    assert_eq!(
        requester.handle_spdm_key_update_op_response(
            &mut trace,
            SESSION_ID,
            false,
            true,
            &[0x12, 0x69],
        ),
        ResponseHandling::Done(Err(SpdmStatus::InvalidMsgField))
    );
    assert_eq!(secrets(&requester), (vec![0xA5u8; 48], vec![0x5Au8; 48]));
    assert!(!requester.common.session[0].get_responder_backup_valid());
}

#[test]
fn other_answers_leave_the_update_pending() {
    for (bytes, status) in [
        (vec![0x12u8], SpdmStatus::InvalidMsgField),
        (vec![0x13, 0x69, 2, 1], SpdmStatus::InvalidMsgField),
        (vec![0x12, 0x61, 2, 1], SpdmStatus::ErrorPeer),
        (vec![0x12, 0xe9, 2, 1], SpdmStatus::ErrorPeer),
    ] {
        let (requester, trace, handling) = answered(&bytes);
        assert_eq!(handling, ResponseHandling::Done(Err(status)));
        assert_eq!(secrets(&requester), (vec![1u8; 48], vec![2u8; 48]));
        assert!(requester.common.session[0].get_requester_backup_valid());
        assert!(trace.pending.is_empty());
    }
}

#[test]
fn answers_without_a_session_or_a_backup() {
    let mut requester = RequesterContext { common: context() };
    let mut trace = traced();
    for bytes in [[0x12u8, 0x69, 1, 1], [0x12, 0x7f, 1, 0]] {
        assert_eq!(
            requester.handle_spdm_key_update_op_response(&mut trace, 77, true, false, &bytes),
            ResponseHandling::Done(Err(SpdmStatus::InvalidParameter))
        );
    }
    for bytes in [vec![0x12u8, 0x69, 1], vec![0x12, 0x7f, 1, 0]] {
        assert_eq!(
            requester
                .handle_spdm_key_update_op_response(&mut trace, SESSION_ID, true, false, &bytes),
            ResponseHandling::Done(Err(SpdmStatus::InvalidStateLocal))
        );
    }
    assert!(trace.pending.is_empty());
    assert_eq!(
        requester.expect_spdm_key_update(
            77,
            SpdmKeyUpdateOperation::SpdmVerifyNewKey,
            DerivedSecrets::none(),
        ),
        Err(SpdmStatus::InvalidParameter)
    );
    assert_eq!(
        requester.expect_spdm_key_update(
            SESSION_ID,
            SpdmKeyUpdateOperation::SpdmUpdateSingleKey,
            DerivedSecrets::none(),
        ),
        Err(SpdmStatus::CryptoError)
    );
    assert_eq!(
        requester.expect_spdm_key_update(
            SESSION_ID,
            SpdmKeyUpdateOperation::SpdmVerifyNewKey,
            DerivedSecrets::none(),
        ),
        Ok((false, false))
    );
}

#[test]
fn a_request_is_written_to_the_front_of_a_buffer() {
    let mut requester = RequesterContext { common: context() };
    let mut buffer = [0xffu8; 5];
    assert_eq!(
        requester.encode_spdm_key_update_op(
            SpdmKeyUpdateOperation::SpdmUpdateSingleKey,
            4,
            &mut buffer,
        ),
        Ok(4)
    );
    assert_eq!(buffer, [0x12, 0xe9, 1, 4, 0xff]);
    let mut buffer = [0xffu8; 2];
    assert_eq!(
        requester.encode_spdm_key_update_op(
            SpdmKeyUpdateOperation::SpdmUpdateSingleKey,
            4,
            &mut buffer,
        ),
        Err(SpdmStatus::BufferFull)
    );
    assert_eq!(buffer, [0x12, 0xe9]);
}
