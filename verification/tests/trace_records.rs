use spdmlib::common::SpdmConnectionState;
use spdmlib::json::put_member;
use spdmlib::session::SpdmSessionState;
use spdmlib::spdm_trace::{
    TraceErrorKind, TraceEvent, TraceKeyUpdateOp, TraceMessage, TracePeerState,
    TraceStateSnapshot, TraceTranscriptPhase,
};
use spdmlib::trace_harness::{
    config_record, connection_state_name, error_name, key_state_name, msg_json, peer_json,
    session_state_name, slot_mask_names, slot_name, state_json, trace_record,
    transcript_phase_name, TraceKeyState,
};

fn text(value: &serde_json::Value) -> String {
    serde_json::to_string(value).expect("text")
}

fn peer() -> TracePeerState {
    TracePeerState {
        connection_state: Some(SpdmConnectionState::SpdmConnectionNegotiated),
        session_state: Some(SpdmSessionState::SpdmSessionEstablished),
        transcript_phase: Some(TraceTranscriptPhase::K),
    }
}

fn event() -> TraceEvent {
    TraceEvent {
        name: "SendKeyUpdate",
        nid: "requester",
        state: TraceStateSnapshot {
            requester: Some(peer()),
            req_backup_valid: Some(true),
            rsp_backup_valid: Some(false),
            ..TraceStateSnapshot::default()
        },
        msg: TraceMessage { op: Some(TraceKeyUpdateOp::UpdateAll), ..TraceMessage::default() },
        r2: None,
    }
}

#[test]
fn the_first_record_of_a_trace() {
    assert_eq!(
        text(&config_record(12)),
        "{\"config\":{\"handshakeInClear\":false,\"servers\":[\"requester\",\"responder\"]},\"tag\":\"config\",\"ts\":12}"
    );
}

#[test]
fn the_record_of_an_event() {
    assert_eq!(
        text(&trace_record(u64::MAX, &event())),
        "{\"event\":{\"msg\":{\"op\":\"OpUpdateAll\"},\"name\":\"SendKeyUpdate\",\"nid\":\"requester\",\"state\":{\"reqBackupValid\":true,\"requester\":{\"connectionState\":\"ConnNegotiated\",\"sessionState\":\"SessEstablished\",\"transcriptPhase\":\"TranscriptK\"},\"rspBackupValid\":false}},\"tag\":\"trace\",\"ts\":18446744073709551615}"
    );
}

#[test]
fn the_record_of_a_message() {
    assert_eq!(text(&msg_json(&TraceMessage::default())), "{}");
    let full = TraceMessage {
        version: Some(12),
        slot: Some(3),
        op: Some(TraceKeyUpdateOp::VerifyNewKey),
        slot_mask: Some(0b1000_0101),
        error: Some(TraceErrorKind::Invalid),
        hmac_ok: Some(true),
        ..TraceMessage::default()
    };
    assert_eq!(
        text(&msg_json(&full)),
        "{\"error\":\"ErrInvalid\",\"op\":\"OpVerifyNewKey\",\"slot\":\"slot3\",\"slotMask\":[\"slot0\",\"slot2\",\"slot7\"],\"version\":12}"
    );
}

#[test]
fn the_record_of_a_state() {
    let empty = TraceEvent { state: TraceStateSnapshot::default(), ..event() };
    let none = state_json(&None, &None, &empty, None, None);
    assert_eq!(text(&none), "{}");
    let both = state_json(
        &Some(TracePeerState::default()),
        &Some(peer()),
        &event(),
        Some(TraceKeyState::Old),
        Some(TraceKeyState::New),
    );
    assert_eq!(
        text(&both),
        "{\"reqBackupValid\":true,\"reqKeyState\":\"KeyOld\",\"requester\":{},\"responder\":{\"connectionState\":\"ConnNegotiated\",\"sessionState\":\"SessEstablished\",\"transcriptPhase\":\"TranscriptK\"},\"rspBackupValid\":false,\"rspKeyState\":\"KeyNew\"}"
    );
    assert_eq!(text(&peer_json(TracePeerState::default())), "{}");
}

#[test]
fn a_member_is_replaced_under_its_key() {
    let mut members = serde_json::Map::new();
    put_member(&mut members, "a", serde_json::Value::from(1u64));
    put_member(&mut members, "b", serde_json::Value::from(true));
    put_member(&mut members, "a", serde_json::Value::from("x"));
    assert_eq!(text(&serde_json::Value::from(members)), "{\"a\":\"x\",\"b\":true}");
}

#[test]
fn names_of_slots() {
    assert_eq!(slot_name(0), "slot0");
    assert_eq!(slot_name(9), "slot9");
    assert_eq!(slot_name(10), "slot10");
    assert_eq!(slot_name(100), "slot100");
    assert_eq!(slot_name(105), "slot105");
    assert_eq!(slot_name(255), "slot255");
    for slot in 0..=255u8 {
        assert_eq!(slot_name(slot), format!("slot{slot}"));
    }
    assert!(slot_mask_names(0).is_empty());
    assert_eq!(slot_mask_names(0b0000_0110), vec!["slot1", "slot2"]);
    assert_eq!(slot_mask_names(0xff).len(), 8);
}

#[test]
fn names_in_records() {
    let connections = [
        (SpdmConnectionState::SpdmConnectionNotStarted, "ConnNotStarted"),
        (SpdmConnectionState::SpdmConnectionAfterVersion, "ConnAfterVersion"),
        (SpdmConnectionState::SpdmConnectionAfterCapabilities, "ConnNotStarted"),
        (SpdmConnectionState::SpdmConnectionNegotiated, "ConnNegotiated"),
        (SpdmConnectionState::SpdmConnectionAfterDigest, "ConnNotStarted"),
        (SpdmConnectionState::SpdmConnectionAfterCertificate, "ConnAfterCertificate"),
        (SpdmConnectionState::SpdmConnectionAuthenticated, "ConnAuthenticated"),
        (SpdmConnectionState::Unknown(3), "ConnNotStarted"),
    ];
    for (state, name) in connections {
        assert_eq!(connection_state_name(state), name);
    }
    assert_eq!(session_state_name(SpdmSessionState::SpdmSessionNotStarted), "SessNotStarted");
    assert_eq!(session_state_name(SpdmSessionState::SpdmSessionHandshaking), "SessHandshaking");
    assert_eq!(session_state_name(SpdmSessionState::Unknown(0)), "SessNotStarted");
    let phases = [
        (TraceTranscriptPhase::Empty, "TranscriptEmpty"),
        (TraceTranscriptPhase::A, "TranscriptA"),
        (TraceTranscriptPhase::B, "TranscriptB"),
        (TraceTranscriptPhase::C, "TranscriptC"),
        (TraceTranscriptPhase::K, "TranscriptK"),
        (TraceTranscriptPhase::Established, "TranscriptEstablished"),
    ];
    for (phase, name) in phases {
        assert_eq!(transcript_phase_name(phase), name);
    }
    assert_eq!(key_state_name(TraceKeyState::Old), "KeyOld");
    assert_eq!(error_name(TraceErrorKind::Unexpected), "ErrUnexpected");
    assert_eq!(error_name(TraceErrorKind::Unsupported), "ErrUnsupported");
}
