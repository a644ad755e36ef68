use spdmlib::codec::{overlay, Reader, Writer};
use spdmlib::error::SpdmStatus;
use spdmlib::message::{
    SpdmCapabilitiesResponsePayload, SpdmErrorCode, SpdmErrorResponsePayload,
    SpdmGetCapabilitiesRequestPayload, SpdmKeyUpdateOperation, SpdmKeyUpdateRequestPayload,
    SpdmKeyUpdateResponsePayload, SpdmMessage, SpdmMessageHeader, SpdmMessagePayload,
    SpdmRequestResponseCode,
};
use spdmlib::protocol::{
    SpdmRequestCapabilityExFlags, SpdmRequestCapabilityFlags, SpdmVersion,
};

fn key_update(version: SpdmVersion, operation: SpdmKeyUpdateOperation, tag: u8) -> SpdmMessage {
    SpdmMessage {
        header: SpdmMessageHeader {
            version,
            request_response_code: SpdmRequestResponseCode::SpdmRequestKeyUpdate,
        },
        payload: SpdmMessagePayload::SpdmKeyUpdateRequest(SpdmKeyUpdateRequestPayload {
            key_update_operation: operation,
            tag,
        }),
    }
}

fn capability_request(version: SpdmVersion) -> SpdmMessage {
    SpdmMessage {
        header: SpdmMessageHeader {
            version,
            request_response_code: SpdmRequestResponseCode::SpdmRequestGetCapabilities,
        },
        payload: SpdmMessagePayload::SpdmGetCapabilitiesRequest(
            SpdmGetCapabilitiesRequestPayload {
                ct_exponent: 9,
                flags: SpdmRequestCapabilityFlags::from_bits(0x0102_0304),
                data_transfer_size: 0x1200,
                max_spdm_msg_size: 0x0001_0203,
                ex_flags: SpdmRequestCapabilityExFlags { bits: 0x0506 },
            },
        ),
    }
}

fn encoded(message: &SpdmMessage, version: SpdmVersion) -> Vec<u8> {
    let mut writer = Writer::init(64);
    let count = message.spdm_encode(version, &mut writer).expect("encode");
    assert_eq!(count, writer.used_slice().len());
    writer.used_slice().to_vec()
}

#[test]
fn a_key_update_request_is_read_back() {
    let version = SpdmVersion::SpdmVersion12;
    let request = key_update(version, SpdmKeyUpdateOperation::SpdmUpdateAllKeys, 7);
    let bytes = encoded(&request, version);
    assert_eq!(bytes, vec![0x12, 0xe9, 2, 7]);
    let mut reader = Reader::init(&bytes);
    let header = SpdmMessageHeader::read(&mut reader).expect("header");
    assert_eq!(header.version, version);
    assert_eq!(header.request_response_code, SpdmRequestResponseCode::SpdmRequestKeyUpdate);
    let body = SpdmKeyUpdateRequestPayload::spdm_read(&mut reader).expect("body");
    assert_eq!(body.key_update_operation, SpdmKeyUpdateOperation::SpdmUpdateAllKeys);
    assert_eq!(body.tag, 7);
}

#[test]
fn an_acknowledgement_and_an_error_have_their_codes() {
    let version = SpdmVersion::SpdmVersion11;
    let ack = SpdmMessage {
        header: SpdmMessageHeader {
            version,
            request_response_code: SpdmRequestResponseCode::SpdmResponseKeyUpdateAck,
        },
        payload: SpdmMessagePayload::SpdmKeyUpdateResponse(SpdmKeyUpdateResponsePayload {
            key_update_operation: SpdmKeyUpdateOperation::SpdmVerifyNewKey,
            tag: 2,
        }),
    };
    assert_eq!(encoded(&ack, version), vec![0x11, 0x69, 3, 2]);
    let codes = [
        (SpdmErrorCode::SpdmErrorInvalidRequest, 0x01u8),
        (SpdmErrorCode::SpdmErrorUnspecified, 0x05),
        (SpdmErrorCode::SpdmErrorVersionMismatch, 0x41),
    ];
    for (error_code, byte) in codes {
        let error = SpdmMessage {
            header: SpdmMessageHeader {
                version,
                request_response_code: SpdmRequestResponseCode::SpdmResponseError,
            },
            payload: SpdmMessagePayload::SpdmErrorResponse(SpdmErrorResponsePayload {
                error_code,
                error_data: 3,
            }),
        };
        assert_eq!(encoded(&error, version), vec![0x11, 0x7f, byte, 3]);
    }
}

#[test]
fn a_capability_request_grows_with_the_version() {
    let old = encoded(&capability_request(SpdmVersion::SpdmVersion10), SpdmVersion::SpdmVersion10);
    assert_eq!(old, vec![0x10, 0xe1, 0, 0]);
    let middle =
        encoded(&capability_request(SpdmVersion::SpdmVersion11), SpdmVersion::SpdmVersion11);
    assert_eq!(middle, vec![0x11, 0xe1, 0, 0, 0, 9, 6, 5, 4, 3, 2, 1]);
    let new = encoded(&capability_request(SpdmVersion::SpdmVersion14), SpdmVersion::SpdmVersion14);
    assert_eq!(
        new,
        vec![0x14, 0xe1, 0, 0, 0, 9, 6, 5, 4, 3, 2, 1, 0, 0x12, 0, 0, 3, 2, 1, 0]
    );
}

#[test]
fn writing_stops_at_the_first_field_without_room() {
    let version = SpdmVersion::SpdmVersion12;
    let message = key_update(version, SpdmKeyUpdateOperation::SpdmUpdateSingleKey, 7);
    for room in 0..4usize {
        let mut writer = Writer::init(room);
        assert_eq!(message.spdm_encode(version, &mut writer), Err(SpdmStatus::BufferFull));
        assert_eq!(writer.used_slice(), &[0x12u8, 0xe9, 1, 7][..room]);
    }
    let mut buffer = [0xffu8; 6];
    assert_eq!(message.encode_into(version, &mut buffer), Ok(4));
    assert_eq!(buffer, [0x12, 0xe9, 1, 7, 0xff, 0xff]);
    let mut short = [0xffu8; 3];
    assert_eq!(message.encode_into(version, &mut short), Err(SpdmStatus::BufferFull));
    assert_eq!(short, [0x12, 0xe9, 1]);
    overlay(&mut short, &[9, 8]);
    assert_eq!(short, [9, 8, 1]);
}

#[test]
fn a_writer_keeps_what_it_holds() {
    let version = SpdmVersion::SpdmVersion12;
    let mut writer = Writer::init(9);
    let first = key_update(version, SpdmKeyUpdateOperation::SpdmUpdateSingleKey, 1);
    let second = key_update(version, SpdmKeyUpdateOperation::SpdmVerifyNewKey, 2);
    assert_eq!(first.spdm_encode(version, &mut writer), Ok(4));
    assert_eq!(second.spdm_encode(version, &mut writer), Ok(4));
    assert_eq!(writer.used_slice(), &[0x12, 0xe9, 1, 1, 0x12, 0xe9, 3, 2]);
    assert_eq!(first.spdm_encode(version, &mut writer), Err(SpdmStatus::BufferFull));
    assert_eq!(writer.used_slice(), &[0x12, 0xe9, 1, 1, 0x12, 0xe9, 3, 2, 0x12]);
}

#[test]
fn headers_that_cannot_be_read() {
    assert!(SpdmMessageHeader::read(&mut Reader::init(&[])).is_none());
    assert!(SpdmMessageHeader::read(&mut Reader::init(&[0x12])).is_none());
    assert!(SpdmMessageHeader::read(&mut Reader::init(&[0x09, 0xe9])).is_none());
    let header = SpdmMessageHeader::read(&mut Reader::init(&[0x13, 0x44])).expect("header");
    assert_eq!(header.version, SpdmVersion::SpdmVersion13);
    assert_eq!(header.request_response_code, SpdmRequestResponseCode::Unknown(0x44));
}

#[test]
fn messages_are_read_from_where_the_reader_stands() {
    let bytes = [0xee, 0xee, 0x12, 0x69, 2, 7];
    let mut reader = Reader { buffer: &bytes, offset: 2 };
    let header = SpdmMessageHeader::read(&mut reader).expect("header");
    assert_eq!(header.request_response_code, SpdmRequestResponseCode::SpdmResponseKeyUpdateAck);
    let body = SpdmKeyUpdateResponsePayload::spdm_read(&mut reader).expect("body");
    assert_eq!((body.key_update_operation.get_u8(), body.tag), (2, 7));
    assert_eq!(reader.used(), 6);
    assert_eq!(reader.read_u8(), None);
    let mut past = Reader { buffer: &bytes, offset: 9 };
    assert!(SpdmMessageHeader::read(&mut past).is_none());
    assert_eq!(past.read_u16(), None);
    assert_eq!(past.read_u32(), None);
    let mut start = Reader::init(&bytes[2..]);
    assert_eq!(start.read_u16(), Some(0x6912));
}

#[test]
fn a_capability_request_is_read_back_as_far_as_its_version_carries_it() {
    for (version, length) in [
        (SpdmVersion::SpdmVersion10, 4usize),
        (SpdmVersion::SpdmVersion11, 12),
        (SpdmVersion::SpdmVersion12, 20),
    ] {
        let bytes = encoded(&capability_request(version), version);
        assert_eq!(bytes.len(), length);
        let mut reader = Reader { buffer: &bytes, offset: 2 };
        let body = SpdmGetCapabilitiesRequestPayload::spdm_read(&mut reader, version)
            .expect("body");
        assert_eq!(reader.used(), length);
        let some = length >= 12;
        let sized = length >= 20;
        assert_eq!(body.ct_exponent, if some { 9 } else { 0 });
        assert_eq!(body.flags.bits, if some { 0x0102_0304 } else { 0 });
        assert_eq!(body.ex_flags.bits, if some { 0x0506 } else { 0 });
        assert_eq!(body.data_transfer_size, if sized { 0x1200 } else { 0 });
        assert_eq!(body.max_spdm_msg_size, if sized { 0x0001_0203 } else { 0 });
        let mut short = Reader { buffer: &bytes[..length - 1], offset: 2 };
        assert!(SpdmGetCapabilitiesRequestPayload::spdm_read(&mut short, version).is_none());
    }
}

#[test]
fn codes_and_operations_are_read_back_from_their_bytes() {
    for byte in 0..=255u8 {
        assert_eq!(SpdmRequestResponseCode::from_u8(byte).get_u8(), byte);
        assert_eq!(SpdmKeyUpdateOperation::from_u8(byte).get_u8(), byte);
    }
    assert_eq!(
        SpdmRequestResponseCode::from_u8(0x61),
        SpdmRequestResponseCode::SpdmResponseCapabilities
    );
    assert_eq!(SpdmKeyUpdateOperation::from_u8(0), SpdmKeyUpdateOperation::Unknown(0));
}

#[test]
fn capabilities_are_read_in_the_layout_of_their_version() {
    let bytes = [
        0x12u8, 0x61, 0, 0, 0, 9, 0, 0, 0x04, 0x03, 0x02, 0x01, 0, 0x12, 0, 0, 1, 0, 1, 0, 0xee,
    ];
    let mut reader = Reader { buffer: &bytes, offset: 2 };
    let new = SpdmCapabilitiesResponsePayload::spdm_read(&mut reader, SpdmVersion::SpdmVersion12)
        .expect("capabilities");
    assert_eq!(new.ct_exponent, 9);
    assert_eq!(new.flags.bits, 0x0102_0304);
    assert_eq!(new.data_transfer_size, 0x1200);
    assert_eq!(new.max_spdm_msg_size, 0x1_0001);
    assert_eq!(reader.used(), 20);

    let mut reader = Reader { buffer: &bytes, offset: 2 };
    let old = SpdmCapabilitiesResponsePayload::spdm_read(&mut reader, SpdmVersion::SpdmVersion11)
        .expect("capabilities");
    assert_eq!(old.flags.bits, 0x0102_0304);
    assert_eq!(old.data_transfer_size, 0);
    assert_eq!(reader.used(), 12);

    let mut reader = Reader { buffer: &bytes[..19], offset: 2 };
    assert!(SpdmCapabilitiesResponsePayload::spdm_read(&mut reader, SpdmVersion::SpdmVersion12)
        .is_none());
}
