use spdmlib::codec::Reader;
use spdmlib::common::{
    BufferReset, SpdmConfigInfo, SpdmConnectionState, SpdmContext, SpdmNegotiateInfo,
    SpdmRuntimeInfo,
};
use spdmlib::error::SpdmStatus;
use spdmlib::message::{
    SpdmGetCapabilitiesRequestPayload, SpdmKeyExchangeMutAuthAttributes, SpdmMessageHeader,
    SpdmRequestResponseCode,
};
use spdmlib::protocol::{
    SpdmBaseHashAlgo, SpdmRequestCapabilityFlags, SpdmResponseCapabilityFlags, SpdmVersion,
};
use spdmlib::requester::mutual_authenticate::MutAuthStep;
use spdmlib::requester::{ErrorResponseCall, RequesterContext, ResponseHandling};
use spdmlib::session::SpdmSession;
use spdmlib::spdm_trace::{register_callback, TraceRuntime};

const REQUEST: [u8; 4] = [1, 2, 3, 4];

fn requester(version: SpdmVersion, message_a_limit: usize) -> RequesterContext {
    RequesterContext {
        common: SpdmContext {
            config_info: SpdmConfigInfo {
                req_ct_exponent: 7,
                req_capabilities: SpdmRequestCapabilityFlags::from_bits(
                    SpdmRequestCapabilityFlags::KEY_UPD_CAP | SpdmRequestCapabilityFlags::PSK_CAP,
                ),
                data_transfer_size: 0x1200,
                max_spdm_msg_size: 0x2400,
            },
            negotiate_info: SpdmNegotiateInfo {
                spdm_version_sel: version,
                req_ct_exponent_sel: 0,
                req_capabilities_sel: SpdmRequestCapabilityFlags::from_bits(0),
                rsp_ct_exponent_sel: 0,
                rsp_capabilities_sel: SpdmResponseCapabilityFlags::from_bits(0),
                req_data_transfer_size_sel: 1,
                req_max_spdm_msg_size_sel: 2,
                rsp_data_transfer_size_sel: 3,
                rsp_max_spdm_msg_size_sel: 4,
                base_hash_sel: SpdmBaseHashAlgo::from_bits(0),
            },
            runtime_info: SpdmRuntimeInfo {
                connection_state: SpdmConnectionState::SpdmConnectionAfterVersion,
                last_session_id: None,
                message_a: vec![0xaa],
                message_a_limit,
                buffer_resets: vec![],
            },
            session: vec![SpdmSession::new()],
        },
    }
}

fn traced() -> TraceRuntime<u8> {
    let mut trace: TraceRuntime<u8> = TraceRuntime::default();
    register_callback(&mut trace, 1);
    trace
}

fn answer(version: u8) -> Vec<u8> {
    let mut bytes = vec![version, 0x61, 0, 0, 0, 9, 0, 0, 0x00, 0x48, 0, 0];
    if version >= 0x12 {
        bytes.extend([0, 0x10, 0, 0, 0, 0x20, 0, 0]);
    }
    bytes
}

#[test]
fn a_request_offers_the_configuration() {
    let mut requester = requester(SpdmVersion::SpdmVersion12, 100);
    let mut trace = traced();
    let mut buffer = [0xffu8; 24];
    assert_eq!(requester.prepare_spdm_capability(&mut trace, &mut buffer), Ok(20));
    assert_eq!(
        buffer,
        [
            0x12, 0xe1, 0, 0, 0, 7, 0, 0, 0, 0x44, 0, 0, 0, 0x12, 0, 0, 0, 0x24, 0, 0, 0xff, 0xff,
            0xff, 0xff
        ]
    );
    assert_eq!(
        requester.common.runtime_info.buffer_resets,
        vec![BufferReset {
            request_code: SpdmRequestResponseCode::SpdmRequestGetCapabilities,
            session_id: None,
        }]
    );
    assert_eq!(trace.pending.len(), 1);
    let event = &trace.pending[0].event;
    assert_eq!(event.name, "RequesterSendGetCapabilities");
    let fields = event.r2.as_ref().expect("further fields");
    assert_eq!(fields.req_caps, Some(vec!["KEY_UPD_CAP", "PSK_CAP"]));
    assert!(fields.rsp_caps.is_none());
}

#[test]
fn a_request_is_read_back() {
    let mut requester = requester(SpdmVersion::SpdmVersion13, 100);
    let mut buffer = [0xffu8; 24];
    let used = requester.encode_spdm_capability(&mut buffer).expect("encode");
    let mut reader = Reader::init(&buffer[..used]);
    let header = SpdmMessageHeader::read(&mut reader).expect("header");
    assert_eq!(header.version, SpdmVersion::SpdmVersion13);
    assert_eq!(header.request_response_code, SpdmRequestResponseCode::SpdmRequestGetCapabilities);
    let body = SpdmGetCapabilitiesRequestPayload::spdm_read(
        &mut reader,
        SpdmVersion::SpdmVersion13,
    )
    .expect("body");
    assert_eq!(body.ct_exponent, 7);
    assert_eq!(body.flags, requester.common.config_info.req_capabilities);
    assert_eq!(body.data_transfer_size, 0x1200);
    assert_eq!(body.max_spdm_msg_size, 0x2400);
    assert_eq!(body.ex_flags.bits, 0);
    assert_eq!(reader.used(), used);
}

#[test]
fn a_request_without_room_is_not_traced() {
    let mut requester = requester(SpdmVersion::SpdmVersion11, 100);
    let mut trace = traced();
    let mut buffer = [0xffu8; 11];
    assert_eq!(
        requester.prepare_spdm_capability(&mut trace, &mut buffer),
        Err(SpdmStatus::BufferFull)
    );
    assert_eq!(buffer, [0x11, 0xe1, 0, 0, 0, 7, 0, 0, 0xff, 0xff, 0xff]);
    assert!(trace.pending.is_empty());
    assert_eq!(requester.common.runtime_info.buffer_resets.len(), 1);
    let mut exact = [0u8; 12];
    assert_eq!(requester.encode_spdm_capability(&mut exact), Ok(12));
}

#[test]
fn capabilities_are_taken_over() {
    let mut requester = requester(SpdmVersion::SpdmVersion12, 100);
    let mut trace = traced();
    let mut bytes = answer(0x12);
    bytes.extend([0xee, 0xee]);
    assert_eq!(
        requester.handle_spdm_capability_response(&mut trace, 0, &REQUEST, &bytes),
        ResponseHandling::Done(Ok(()))
    );
    let agreed = requester.common.negotiate_info;
    assert_eq!(agreed.req_ct_exponent_sel, 7);
    assert_eq!(agreed.rsp_ct_exponent_sel, 9);
    assert_eq!(agreed.req_capabilities_sel.bits, 0x4400);
    assert_eq!(agreed.rsp_capabilities_sel.bits, 0x4800);
    assert_eq!(agreed.req_data_transfer_size_sel, 0x1200);
    assert_eq!(agreed.req_max_spdm_msg_size_sel, 0x2400);
    assert_eq!(agreed.rsp_data_transfer_size_sel, 0x1000);
    assert_eq!(agreed.rsp_max_spdm_msg_size_sel, 0x2000);
    let mut transcript = vec![0xaa, 1, 2, 3, 4];
    transcript.extend(answer(0x12));
    assert_eq!(requester.common.runtime_info.message_a, transcript);
    let event = &trace.pending[0].event;
    assert_eq!(event.name, "HandleSpdmCapabilitiesResponse");
    assert_eq!(event.nid, "requester");
    let fields = event.r2.as_ref().expect("further fields");
    assert_eq!(
        fields.req_connection_state,
        Some(SpdmConnectionState::SpdmConnectionAfterCapabilities)
    );
    assert_eq!(fields.req_capabilities, Some(vec!["KEY_UPD_CAP", "PSK_CAP"]));
    assert_eq!(fields.rsp_capabilities, Some(vec!["KEY_UPD_CAP", "PSK_CAP"]));
    assert_eq!(
        requester.common.runtime_info.connection_state,
        SpdmConnectionState::SpdmConnectionAfterVersion
    );
}

#[test]
fn older_versions_keep_the_transfer_sizes() {
    let mut requester = requester(SpdmVersion::SpdmVersion11, 100);
    let mut trace = traced();
    let mut bytes = answer(0x11);
    bytes.extend([1, 1, 1, 1, 1, 1, 1, 1]);
    assert_eq!(
        requester.handle_spdm_capability_response(&mut trace, 0, &REQUEST, &bytes),
        ResponseHandling::Done(Ok(()))
    );
    let agreed = requester.common.negotiate_info;
    assert_eq!(agreed.rsp_capabilities_sel.bits, 0x4800);
    assert_eq!(agreed.req_data_transfer_size_sel, 1);
    assert_eq!(agreed.req_max_spdm_msg_size_sel, 2);
    assert_eq!(agreed.rsp_data_transfer_size_sel, 3);
    assert_eq!(agreed.rsp_max_spdm_msg_size_sel, 4);
    assert_eq!(requester.common.runtime_info.message_a.len(), 1 + 4 + 12);
}

#[test]
fn a_full_transcript_ends_the_exchange() {
    let mut first = requester(SpdmVersion::SpdmVersion12, 4);
    let mut trace = traced();
    assert_eq!(
        first.handle_spdm_capability_response(&mut trace, 0, &REQUEST, &answer(0x12)),
        ResponseHandling::Done(Err(SpdmStatus::BufferFull))
    );
    assert_eq!(first.common.runtime_info.message_a, vec![0xaa]);
    assert_eq!(first.common.negotiate_info.rsp_ct_exponent_sel, 9);

    let mut second = requester(SpdmVersion::SpdmVersion12, 24);
    assert_eq!(
        second.handle_spdm_capability_response(&mut trace, 0, &REQUEST, &answer(0x12)),
        ResponseHandling::Done(Err(SpdmStatus::BufferFull))
    );
    assert_eq!(second.common.runtime_info.message_a, vec![0xaa, 1, 2, 3, 4]);
    assert!(trace.pending.is_empty());

    let mut third = requester(SpdmVersion::SpdmVersion12, 25);
    assert_eq!(
        third.handle_spdm_capability_response(&mut trace, 0, &REQUEST, &answer(0x12)),
        ResponseHandling::Done(Ok(()))
    );
}

#[test]
fn other_answers_change_nothing() {
    let mut requester = requester(SpdmVersion::SpdmVersion12, 100);
    let mut trace = traced();
    let mut other_code = answer(0x12);
    other_code[1] = 0x69;
    let cases = [
        (vec![], SpdmStatus::InvalidMsgField),
        (vec![0x12], SpdmStatus::InvalidMsgField),
        (answer(0x13), SpdmStatus::InvalidMsgField),
        (answer(0x12)[..19].to_vec(), SpdmStatus::InvalidMsgField),
        (other_code, SpdmStatus::ErrorPeer),
    ];
    for (bytes, status) in cases {
        assert_eq!(
            requester.handle_spdm_capability_response(&mut trace, 0, &REQUEST, &bytes),
            ResponseHandling::Done(Err(status))
        );
    }
    assert_eq!(
        requester.handle_spdm_capability_response(&mut trace, 0, &REQUEST, &[0x12, 0x7f, 1, 0]),
        ResponseHandling::ErrorResponse(ErrorResponseCall {
            session_id: Some(0),
            original_request: SpdmRequestResponseCode::SpdmRequestGetCapabilities,
            expected_response: SpdmRequestResponseCode::SpdmResponseCapabilities,
        })
    );
    assert_eq!(requester.common.runtime_info.message_a, vec![0xaa]);
    assert_eq!(requester.common.negotiate_info.rsp_ct_exponent_sel, 0);
    assert!(trace.pending.is_empty());
}

fn authenticate(bits: u8) -> (MutAuthStep, Option<&'static str>) {
    let mut requester = requester(SpdmVersion::SpdmVersion12, 100);
    let mut trace = traced();
    requester.common.session[0].setup(5).expect("setup");
    requester.common.session[0]
        .set_mut_auth_requested(SpdmKeyExchangeMutAuthAttributes::from_bits(bits));
    let step = requester.session_based_mutual_authenticate(&mut trace, 5, Ok(()));
    let event = &trace.pending[0].event;
    assert_eq!(event.name, "SelectMutAuthMode");
    let fields = event.r2.as_ref().expect("further fields");
    assert_eq!(fields.session_id, Some(5));
    (step, fields.mut_auth_mode)
}

#[test]
fn modes_of_mutual_authentication() {
    assert_eq!(authenticate(1), (MutAuthStep::Done(Ok(())), Some("MutAuthReq")));
    let encap = |bits: u8| MutAuthStep::AnswerEncapsulated {
        session_id: 5,
        mut_auth_requested: SpdmKeyExchangeMutAuthAttributes::from_bits(bits),
    };
    assert_eq!(authenticate(2), (encap(2), Some("WithEncap")));
    assert_eq!(authenticate(4), (encap(4), Some("WithGetDigests")));
    for bits in [0u8, 3, 5, 8, 0xff] {
        assert_eq!(
            authenticate(bits),
            (MutAuthStep::Done(Err(SpdmStatus::InvalidMsgField)), Some("None"))
        );
    }
}

#[test]
fn authentication_needs_a_chain_and_a_session() {
    let requester = requester(SpdmVersion::SpdmVersion12, 100);
    let mut trace = traced();
    assert_eq!(
        requester.session_based_mutual_authenticate(&mut trace, 5, Err(SpdmStatus::Other(4))),
        MutAuthStep::Done(Err(SpdmStatus::Other(4)))
    );
    assert_eq!(
        requester.session_based_mutual_authenticate(&mut trace, 5, Ok(())),
        MutAuthStep::Done(Err(SpdmStatus::InvalidStateLocal))
    );
    assert!(trace.pending.is_empty());
}
