use spdmlib::common::{
    SpdmConfigInfo, SpdmConnectionState, SpdmContext, SpdmNegotiateInfo, SpdmRuntimeInfo,
};
use spdmlib::message::SpdmKeyUpdateOperation;
use spdmlib::protocol::{
    SpdmBaseHashAlgo, SpdmRequestCapabilityFlags, SpdmResponseCapabilityFlags, SpdmVersion,
};
use spdmlib::session::{SpdmSession, SpdmSessionState};
use spdmlib::spdm_trace::{
    algo_name, clear_callback, connection_state_str, emit_finish_event, emit_key_event,
    emit_local_event, emit_r2_event, key_update_op_name, note_connection,
    note_data_secret_generated, note_key_update_ack, note_key_update_response,
    note_key_update_rollback, note_reset, note_transcript, observe_local_state, register_callback,
    req_cap_flags, reset_shadow_state, role_name, rsp_cap_flags, rsp_psk_cap_mode,
    session_state_str, trace_operation, version_number, TraceKeyGens, TraceKeyUpdateOp,
    TraceMessage, TraceR2Fields, TraceRole, TraceRuntime, TraceTranscriptPhase,
};

fn context() -> SpdmContext {
    let mut session = SpdmSession::new();
    session.setup(7).expect("setup");
    session.set_session_state(SpdmSessionState::SpdmSessionHandshaking);
    session.requester_backup_valid = true;
    let mut other = SpdmSession::new();
    other.setup(8).expect("setup");
    other.set_session_state(SpdmSessionState::SpdmSessionEstablished);
    SpdmContext {
        config_info: SpdmConfigInfo {
            req_ct_exponent: 0,
            req_capabilities: SpdmRequestCapabilityFlags::from_bits(0),
            data_transfer_size: 0,
            max_spdm_msg_size: 0,
        },
        negotiate_info: SpdmNegotiateInfo {
            spdm_version_sel: SpdmVersion::SpdmVersion12,
            req_ct_exponent_sel: 0,
            req_capabilities_sel: SpdmRequestCapabilityFlags::from_bits(0),
            rsp_ct_exponent_sel: 0,
            rsp_capabilities_sel: SpdmResponseCapabilityFlags::from_bits(0),
            req_data_transfer_size_sel: 0,
            req_max_spdm_msg_size_sel: 0,
            rsp_data_transfer_size_sel: 0,
            rsp_max_spdm_msg_size_sel: 0,
            base_hash_sel: SpdmBaseHashAlgo::from_bits(0),
        },
        runtime_info: SpdmRuntimeInfo {
            connection_state: SpdmConnectionState::SpdmConnectionAfterCertificate,
            last_session_id: Some(8),
            message_a: vec![],
            message_a_limit: 0,
            buffer_resets: vec![],
        },
        session: vec![session, other],
    }
}

fn gens(runtime: &TraceRuntime<u8>) -> (u32, u32, u32, u32) {
    let gens = runtime.key_gens;
    (gens.rq_req, gens.rq_resp, gens.rs_req, gens.rs_resp)
}

#[test]
fn generations_follow_both_sides() {
    let mut runtime: TraceRuntime<u8> = TraceRuntime::default();
    assert_eq!(gens(&runtime), (0, 0, 0, 0));
    note_data_secret_generated(&mut runtime, TraceRole::Requester);
    assert_eq!(gens(&runtime), (1, 1, 0, 0));
    note_data_secret_generated(&mut runtime, TraceRole::Responder);
    assert_eq!(gens(&runtime), (1, 1, 1, 1));
    note_key_update_response(&mut runtime, TraceKeyUpdateOp::UpdateSingle, true, true);
    assert_eq!(gens(&runtime), (1, 1, 2, 1));
    note_key_update_ack(&mut runtime, TraceKeyUpdateOp::UpdateSingle);
    assert_eq!(gens(&runtime), (2, 1, 2, 1));
    note_key_update_response(&mut runtime, TraceKeyUpdateOp::UpdateAll, true, true);
    note_key_update_ack(&mut runtime, TraceKeyUpdateOp::UpdateAll);
    assert_eq!(gens(&runtime), (3, 2, 3, 2));
    note_key_update_response(&mut runtime, TraceKeyUpdateOp::VerifyNewKey, true, true);
    note_key_update_ack(&mut runtime, TraceKeyUpdateOp::VerifyNewKey);
    note_key_update_rollback(&mut runtime, true, true);
    assert_eq!(gens(&runtime), (3, 2, 3, 2));
}

#[test]
fn an_update_that_was_not_made_loses_step() {
    let mut runtime: TraceRuntime<u8> = TraceRuntime::default();
    note_key_update_response(&mut runtime, TraceKeyUpdateOp::UpdateSingle, false, true);
    note_key_update_ack(&mut runtime, TraceKeyUpdateOp::UpdateSingle);
    assert_eq!(gens(&runtime), (1, 0, 0, 0));
    note_key_update_response(&mut runtime, TraceKeyUpdateOp::UpdateAll, false, true);
    assert_eq!(gens(&runtime), (1, 0, 0, 1));
    note_key_update_response(&mut runtime, TraceKeyUpdateOp::UpdateAll, true, false);
    assert_eq!(gens(&runtime), (1, 0, 1, 1));
}

#[test]
fn resets_forget_what_they_should() {
    let mut runtime: TraceRuntime<u8> = TraceRuntime::default();
    register_callback(&mut runtime, 3);
    note_connection(
        &mut runtime,
        TraceRole::Requester,
        SpdmConnectionState::SpdmConnectionNegotiated,
    );
    note_transcript(&mut runtime, TraceRole::Requester, TraceTranscriptPhase::B);
    note_transcript(&mut runtime, TraceRole::Responder, TraceTranscriptPhase::C);
    note_data_secret_generated(&mut runtime, TraceRole::Requester);
    observe_local_state(&mut runtime, TraceRole::Responder, &context(), None);
    note_reset(&mut runtime);
    assert_eq!(gens(&runtime), (0, 0, 0, 0));
    assert_eq!(runtime.requester_transcript, TraceTranscriptPhase::Empty);
    assert_eq!(runtime.responder_transcript, TraceTranscriptPhase::Empty);
    assert_eq!(runtime.requester_connection, SpdmConnectionState::SpdmConnectionNotStarted);
    assert!(runtime.responder_last.connection_state.is_none());
    assert!(runtime.responder_last.session_state.is_none());
    assert!(runtime.responder_last.transcript_phase.is_none());
    assert_eq!(runtime.callback, Some(3));
    emit_finish_event(&mut runtime, TraceRole::Requester, &context(), 7, "finish");
    let finish = &runtime.take_pending()[0].event;
    let remote = finish.state.responder.expect("the other side");
    assert!(remote.session_state.is_none());
    observe_local_state(&mut runtime, TraceRole::Responder, &context(), None);
    assert!(runtime.responder_last.transcript_phase.is_some());
    reset_shadow_state(&mut runtime);
    assert!(runtime.responder_last.transcript_phase.is_none());
    assert_eq!(runtime.callback, Some(3));
}

#[test]
fn only_the_requester_notes_its_connection() {
    let mut runtime: TraceRuntime<u8> = TraceRuntime::default();
    note_connection(
        &mut runtime,
        TraceRole::Responder,
        SpdmConnectionState::SpdmConnectionNegotiated,
    );
    assert_eq!(runtime.requester_connection, SpdmConnectionState::SpdmConnectionNotStarted);
    observe_local_state(&mut runtime, TraceRole::Responder, &context(), Some(7));
    assert_eq!(
        runtime.responder_last.connection_state,
        Some(SpdmConnectionState::SpdmConnectionAfterCertificate)
    );
    observe_local_state(&mut runtime, TraceRole::Requester, &context(), Some(7));
    assert_eq!(
        runtime.requester_last.connection_state,
        Some(SpdmConnectionState::SpdmConnectionNotStarted)
    );
}

#[test]
fn the_session_of_an_event() {
    let mut runtime: TraceRuntime<u8> = TraceRuntime::default();
    let mut context = context();
    let cases = [
        (Some(7), SpdmSessionState::SpdmSessionHandshaking),
        (Some(9), SpdmSessionState::SpdmSessionNotStarted),
        (None, SpdmSessionState::SpdmSessionEstablished),
    ];
    for (session_id, state) in cases {
        observe_local_state(&mut runtime, TraceRole::Responder, &context, session_id);
        assert_eq!(runtime.responder_last.session_state, Some(state));
    }
    context.runtime_info.last_session_id = None;
    observe_local_state(&mut runtime, TraceRole::Responder, &context, None);
    assert_eq!(
        runtime.responder_last.session_state,
        Some(SpdmSessionState::SpdmSessionNotStarted)
    );
}

#[test]
fn without_a_callback_events_are_dropped() {
    let mut runtime: TraceRuntime<u8> = TraceRuntime::default();
    emit_local_event(
        &mut runtime,
        TraceRole::Requester,
        &context(),
        Some(7),
        "dropped",
        TraceMessage::default(),
    );
    emit_r2_event(&mut runtime, TraceRole::Requester, "dropped", TraceR2Fields::default());
    assert!(runtime.pending.is_empty());
    assert_eq!(
        runtime.requester_last.session_state,
        Some(SpdmSessionState::SpdmSessionHandshaking)
    );
    register_callback(&mut runtime, 1);
    emit_r2_event(&mut runtime, TraceRole::Requester, "kept", TraceR2Fields::default());
    register_callback(&mut runtime, 2);
    emit_r2_event(&mut runtime, TraceRole::Responder, "kept too", TraceR2Fields::default());
    clear_callback(&mut runtime);
    emit_r2_event(&mut runtime, TraceRole::Requester, "dropped", TraceR2Fields::default());
    let pending = runtime.take_pending();
    assert_eq!(pending.len(), 2);
    assert_eq!((pending[0].callback, pending[0].event.name), (1, "kept"));
    assert_eq!((pending[1].callback, pending[1].event.name), (2, "kept too"));
    assert_eq!(pending[1].event.nid, "responder");
    assert!(pending[1].event.state.responder.is_none());
    assert!(runtime.pending.is_empty());
}

#[test]
fn an_event_reports_what_was_asked_for() {
    let mut runtime: TraceRuntime<u8> = TraceRuntime::default();
    register_callback(&mut runtime, 1);
    note_transcript(&mut runtime, TraceRole::Responder, TraceTranscriptPhase::K);
    emit_local_event(
        &mut runtime,
        TraceRole::Responder,
        &context(),
        Some(7),
        "local",
        TraceMessage { slot: Some(2), ..TraceMessage::default() },
    );
    emit_key_event(
        &mut runtime,
        TraceRole::Requester,
        &context(),
        7,
        "key",
        TraceMessage::default(),
    );
    emit_key_event(
        &mut runtime,
        TraceRole::Requester,
        &context(),
        99,
        "key",
        TraceMessage::default(),
    );
    emit_finish_event(&mut runtime, TraceRole::Requester, &context(), 8, "finish");
    let pending = runtime.take_pending();
    let local = &pending[0].event;
    assert_eq!(local.msg.slot, Some(2));
    assert!(local.state.key_gens.is_none());
    assert!(local.state.requester.is_none());
    let key = &pending[1].event.state;
    assert!(key.responder.is_none());
    assert_eq!(key.key_gens, Some(TraceKeyGens::default()));
    assert_eq!((key.req_backup_valid, key.rsp_backup_valid), (Some(true), Some(false)));
    let missing = &pending[2].event.state;
    assert_eq!((missing.req_backup_valid, missing.rsp_backup_valid), (Some(false), Some(false)));
    let finish = &pending[3].event.state;
    let remote = finish.responder.expect("the other side");
    assert_eq!(remote.session_state, Some(SpdmSessionState::SpdmSessionHandshaking));
    assert_eq!(remote.transcript_phase, Some(TraceTranscriptPhase::K));
    let own = finish.requester.expect("the own side");
    assert_eq!(own.session_state, Some(SpdmSessionState::SpdmSessionEstablished));
    assert!(finish.key_gens.is_none());
}

#[test]
fn the_other_side_is_reported_as_it_was_last_recorded() {
    let mut runtime: TraceRuntime<u8> = TraceRuntime::default();
    note_transcript(&mut runtime, TraceRole::Responder, TraceTranscriptPhase::B);
    observe_local_state(&mut runtime, TraceRole::Responder, &context(), Some(7));
    note_transcript(&mut runtime, TraceRole::Responder, TraceTranscriptPhase::Established);
    note_data_secret_generated(&mut runtime, TraceRole::Responder);
    register_callback(&mut runtime, 1);
    emit_r2_event(&mut runtime, TraceRole::Responder, "further", TraceR2Fields::default());
    emit_local_event(
        &mut runtime,
        TraceRole::Requester,
        &context(),
        None,
        "own",
        TraceMessage::default(),
    );
    let _ = runtime.take_pending();
    emit_finish_event(&mut runtime, TraceRole::Requester, &context(), 8, "finish");
    let remote = runtime.take_pending()[0].event.state.responder.expect("the other side");
    assert_eq!(remote.transcript_phase, Some(TraceTranscriptPhase::B));
    assert_eq!(remote.session_state, Some(SpdmSessionState::SpdmSessionHandshaking));
}

#[test]
fn names_of_capabilities() {
    let all = SpdmRequestCapabilityFlags::from_bits(u32::MAX);
    assert_eq!(
        req_cap_flags(all),
        vec![
            "HBEAT_CAP",
            "KEY_UPD_CAP",
            "HANDSHAKE_IN_THE_CLEAR_CAP",
            "PSK_CAP",
            "MUT_AUTH_CAP",
            "CHUNK_CAP"
        ]
    );
    assert!(req_cap_flags(SpdmRequestCapabilityFlags::from_bits(0)).is_empty());
    let all = SpdmResponseCapabilityFlags::from_bits(u32::MAX);
    assert_eq!(
        rsp_cap_flags(all),
        vec![
            "HBEAT_CAP",
            "KEY_UPD_CAP",
            "HANDSHAKE_IN_THE_CLEAR_CAP",
            "PSK_CAP",
            "PSK_CAP",
            "MUT_AUTH_CAP",
            "CHUNK_CAP"
        ]
    );
    assert_eq!(rsp_psk_cap_mode(all), Some("WithContext"));
    let without = SpdmResponseCapabilityFlags::from_bits(
        SpdmResponseCapabilityFlags::PSK_CAP_WITHOUT_CONTEXT,
    );
    assert_eq!(rsp_cap_flags(without), vec!["PSK_CAP"]);
    assert_eq!(rsp_psk_cap_mode(without), Some("WithoutContext"));
    let none = SpdmResponseCapabilityFlags::from_bits(
        !(SpdmResponseCapabilityFlags::PSK_CAP_WITHOUT_CONTEXT
            | SpdmResponseCapabilityFlags::PSK_CAP_WITH_CONTEXT),
    );
    assert_eq!(rsp_psk_cap_mode(none), None);
    assert!(!rsp_cap_flags(none).contains(&"PSK_CAP"));
}

#[test]
fn names_of_states_algorithms_and_versions() {
    assert_eq!(algo_name(SpdmBaseHashAlgo::from_bits(SpdmBaseHashAlgo::TPM_ALG_SHA_384)), "a1");
    assert_eq!(algo_name(SpdmBaseHashAlgo::from_bits(SpdmBaseHashAlgo::TPM_ALG_SHA_256)), "a2");
    assert_eq!(algo_name(SpdmBaseHashAlgo::from_bits(SpdmBaseHashAlgo::TPM_ALG_SHA_512)), "a1");
    assert_eq!(algo_name(SpdmBaseHashAlgo::from_bits(0)), "a1");
    assert_eq!(session_state_str(SpdmSessionState::SpdmSessionNotStarted), "NotStarted");
    assert_eq!(session_state_str(SpdmSessionState::SpdmSessionHandshaking), "Handshaking");
    assert_eq!(session_state_str(SpdmSessionState::SpdmSessionEstablished), "Established");
    assert_eq!(session_state_str(SpdmSessionState::Unknown(9)), "NotStarted");
    let states = [
        (SpdmConnectionState::SpdmConnectionNotStarted, "NotStarted"),
        (SpdmConnectionState::SpdmConnectionAfterVersion, "AfterVersion"),
        (SpdmConnectionState::SpdmConnectionAfterCapabilities, "AfterCapabilities"),
        (SpdmConnectionState::SpdmConnectionNegotiated, "Negotiated"),
        (SpdmConnectionState::SpdmConnectionAfterDigest, "NotStarted"),
        (SpdmConnectionState::SpdmConnectionAfterCertificate, "AfterCertificate"),
        (SpdmConnectionState::SpdmConnectionAuthenticated, "Authenticated"),
        (SpdmConnectionState::Unknown(1), "NotStarted"),
    ];
    for (state, name) in states {
        assert_eq!(connection_state_str(state), name);
    }
    assert_eq!(version_number(SpdmVersion::SpdmVersion10), 10);
    assert_eq!(version_number(SpdmVersion::SpdmVersion11), 11);
    assert_eq!(version_number(SpdmVersion::SpdmVersion12), 12);
    assert_eq!(version_number(SpdmVersion::SpdmVersion13), 13);
    assert_eq!(version_number(SpdmVersion::SpdmVersion14), 14);
    assert_eq!(role_name(TraceRole::Requester), "requester");
    assert_eq!(
        key_update_op_name(trace_operation(SpdmKeyUpdateOperation::SpdmUpdateAllKeys)),
        "OpUpdateAll"
    );
    assert_eq!(
        key_update_op_name(trace_operation(SpdmKeyUpdateOperation::SpdmUpdateSingleKey)),
        "OpUpdateSingle"
    );
    assert_eq!(
        key_update_op_name(trace_operation(SpdmKeyUpdateOperation::Unknown(9))),
        "OpVerifyNewKey"
    );
}
