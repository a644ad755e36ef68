//! The messages of the key update and the capability exchange: their fields,
//! their bytes, and how they are read.

use vstd::prelude::*;

use crate::codec::{
    field_u16, field_u32, field_u8, field_views, fits, joined, law_le16_round_trip,
    law_le32_round_trip, law_writing_only_appends, le16, le16_value, le32, le32_value, overlay,
    put_fields, written_over, Reader, Writer,
};
use crate::error::{SpdmResult, SpdmStatus};
use crate::protocol::{
    law_version_byte_round_trip, version_byte, version_of_byte, SpdmRequestCapabilityExFlags,
    SpdmRequestCapabilityFlags, SpdmResponseCapabilityFlags, SpdmVersion,
};

verus! {

/// The code of a message. Codes that this crate does not handle are kept as
/// their byte.
#[derive(Clone, Copy, Debug, PartialEq, Eq, Structural)]
pub enum SpdmRequestResponseCode {
    SpdmResponseCapabilities,
    SpdmResponseKeyUpdateAck,
    SpdmResponseError,
    SpdmRequestGetCapabilities,
    SpdmRequestKeyUpdate,
    Unknown(u8),
}

/// The byte of a code.
pub open spec fn code_byte(code: SpdmRequestResponseCode) -> u8 {
    match code {
        SpdmRequestResponseCode::SpdmResponseCapabilities => 0x61,
        SpdmRequestResponseCode::SpdmResponseKeyUpdateAck => 0x69,
        SpdmRequestResponseCode::SpdmResponseError => 0x7f,
        SpdmRequestResponseCode::SpdmRequestGetCapabilities => 0xe1,
        SpdmRequestResponseCode::SpdmRequestKeyUpdate => 0xe9,
        SpdmRequestResponseCode::Unknown(byte) => byte,
    }
}

/// The code that a byte stands for.
pub open spec fn code_of_byte(byte: u8) -> SpdmRequestResponseCode {
    if byte == 0x61 {
        SpdmRequestResponseCode::SpdmResponseCapabilities
    } else if byte == 0x69 {
        SpdmRequestResponseCode::SpdmResponseKeyUpdateAck
    } else if byte == 0x7f {
        SpdmRequestResponseCode::SpdmResponseError
    } else if byte == 0xe1 {
        SpdmRequestResponseCode::SpdmRequestGetCapabilities
    } else if byte == 0xe9 {
        SpdmRequestResponseCode::SpdmRequestKeyUpdate
    } else {
        SpdmRequestResponseCode::Unknown(byte)
    }
}

impl SpdmRequestResponseCode {
    /// The byte of this code.
    pub fn get_u8(self) -> (byte: u8)
        ensures
            byte == code_byte(self),
    {
        match self {
            SpdmRequestResponseCode::SpdmResponseCapabilities => 0x61,
            SpdmRequestResponseCode::SpdmResponseKeyUpdateAck => 0x69,
            SpdmRequestResponseCode::SpdmResponseError => 0x7f,
            SpdmRequestResponseCode::SpdmRequestGetCapabilities => 0xe1,
            SpdmRequestResponseCode::SpdmRequestKeyUpdate => 0xe9,
            SpdmRequestResponseCode::Unknown(byte) => byte,
        }
    }

    /// The code that `byte` stands for.
    pub fn from_u8(byte: u8) -> (code: SpdmRequestResponseCode)
        ensures
            code == code_of_byte(byte),
    {
        match byte {
            0x61 => SpdmRequestResponseCode::SpdmResponseCapabilities,
            0x69 => SpdmRequestResponseCode::SpdmResponseKeyUpdateAck,
            0x7f => SpdmRequestResponseCode::SpdmResponseError,
            0xe1 => SpdmRequestResponseCode::SpdmRequestGetCapabilities,
            0xe9 => SpdmRequestResponseCode::SpdmRequestKeyUpdate,
            _ => SpdmRequestResponseCode::Unknown(byte),
        }
    }
}

/// What a key update asks for. Operations that are not defined are kept as
/// their byte.
#[derive(Clone, Copy, Debug, PartialEq, Eq, Structural)]
pub enum SpdmKeyUpdateOperation {
    SpdmUpdateSingleKey,
    SpdmUpdateAllKeys,
    SpdmVerifyNewKey,
    Unknown(u8),
}

/// The byte of an operation.
pub open spec fn operation_byte(operation: SpdmKeyUpdateOperation) -> u8 {
    match operation {
        SpdmKeyUpdateOperation::SpdmUpdateSingleKey => 1,
        SpdmKeyUpdateOperation::SpdmUpdateAllKeys => 2,
        SpdmKeyUpdateOperation::SpdmVerifyNewKey => 3,
        SpdmKeyUpdateOperation::Unknown(byte) => byte,
    }
}

/// The operation that a byte stands for.
pub open spec fn operation_of_byte(byte: u8) -> SpdmKeyUpdateOperation {
    if byte == 1 {
        SpdmKeyUpdateOperation::SpdmUpdateSingleKey
    } else if byte == 2 {
        SpdmKeyUpdateOperation::SpdmUpdateAllKeys
    } else if byte == 3 {
        SpdmKeyUpdateOperation::SpdmVerifyNewKey
    } else {
        SpdmKeyUpdateOperation::Unknown(byte)
    }
}

impl SpdmKeyUpdateOperation {
    /// The byte of this operation.
    pub fn get_u8(self) -> (byte: u8)
        ensures
            byte == operation_byte(self),
    {
        match self {
            SpdmKeyUpdateOperation::SpdmUpdateSingleKey => 1,
            SpdmKeyUpdateOperation::SpdmUpdateAllKeys => 2,
            SpdmKeyUpdateOperation::SpdmVerifyNewKey => 3,
            SpdmKeyUpdateOperation::Unknown(byte) => byte,
        }
    }

    /// The operation that `byte` stands for.
    pub fn from_u8(byte: u8) -> (operation: SpdmKeyUpdateOperation)
        ensures
            operation == operation_of_byte(byte),
    {
        match byte {
            1 => SpdmKeyUpdateOperation::SpdmUpdateSingleKey,
            2 => SpdmKeyUpdateOperation::SpdmUpdateAllKeys,
            3 => SpdmKeyUpdateOperation::SpdmVerifyNewKey,
            _ => SpdmKeyUpdateOperation::Unknown(byte),
        }
    }
}

/// Why a responder refuses a request.
#[derive(Clone, Copy, Debug, PartialEq, Eq, Structural)]
pub enum SpdmErrorCode {
    SpdmErrorInvalidRequest,
    SpdmErrorUnspecified,
    SpdmErrorVersionMismatch,
}

/// The byte of an error code.
pub open spec fn error_byte(code: SpdmErrorCode) -> u8 {
    match code {
        SpdmErrorCode::SpdmErrorInvalidRequest => 0x01,
        SpdmErrorCode::SpdmErrorUnspecified => 0x05,
        SpdmErrorCode::SpdmErrorVersionMismatch => 0x41,
    }
}

impl SpdmErrorCode {
    /// The byte of this error code.
    pub fn get_u8(self) -> (byte: u8)
        ensures
            byte == error_byte(self),
    {
        match self {
            SpdmErrorCode::SpdmErrorInvalidRequest => 0x01,
            SpdmErrorCode::SpdmErrorUnspecified => 0x05,
            SpdmErrorCode::SpdmErrorVersionMismatch => 0x41,
        }
    }
}

/// How a responder wants the requester to authenticate itself, as a set of
/// bits.
#[derive(Clone, Copy, Debug, PartialEq, Eq, Structural)]
pub struct SpdmKeyExchangeMutAuthAttributes {
    pub bits: u8,
}

impl SpdmKeyExchangeMutAuthAttributes {
    pub const MUT_AUTH_REQ: u8 = 0x01;

    pub const MUT_AUTH_REQ_WITH_ENCAP_REQUEST: u8 = 0x02;

    pub const MUT_AUTH_REQ_WITH_GET_DIGESTS: u8 = 0x04;

    /// The set that holds exactly the given bits.
    pub fn from_bits(bits: u8) -> (attributes: SpdmKeyExchangeMutAuthAttributes)
        ensures
            attributes.bits == bits,
    {
        SpdmKeyExchangeMutAuthAttributes { bits }
    }
}

/// The first two bytes of every message.
#[derive(Clone, Copy, Debug, PartialEq, Eq, Structural)]
pub struct SpdmMessageHeader {
    pub version: SpdmVersion,
    pub request_response_code: SpdmRequestResponseCode,
}

/// The header of a message, if its bytes hold one.
pub open spec fn header_of(bytes: Seq<u8>) -> Option<SpdmMessageHeader> {
    if bytes.len() < 2 {
        None
    } else {
        match version_of_byte(bytes[0]) {
            Some(version) => Some(
                SpdmMessageHeader { version, request_response_code: code_of_byte(bytes[1]) },
            ),
            None => None,
        }
    }
}

impl SpdmMessageHeader {
    /// Reads the header of a message; on success the reader stands behind it.
    pub fn read(reader: &mut Reader) -> (header: Option<SpdmMessageHeader>)
        ensures
            final(reader).buffer@ == old(reader).buffer@,
            header == header_of(old(reader).rest()),
            header is Some ==> final(reader).offset == old(reader).offset + 2,
    {
        let version_byte: u8 = match reader.read_u8() {
            Some(byte) => byte,
            None => {
                return None;
            },
        };
        let version = match SpdmVersion::from_u8(version_byte) {
            Some(version) => version,
            None => {
                return None;
            },
        };
        let code_byte: u8 = match reader.read_u8() {
            Some(byte) => byte,
            None => {
                return None;
            },
        };
        Some(
            SpdmMessageHeader {
                version,
                request_response_code: SpdmRequestResponseCode::from_u8(code_byte),
            },
        )
    }
}

/// The body of a key update request.
#[derive(Clone, Copy, Debug, PartialEq, Eq, Structural)]
pub struct SpdmKeyUpdateRequestPayload {
    pub key_update_operation: SpdmKeyUpdateOperation,
    pub tag: u8,
}

/// The body of a key update acknowledgement.
#[derive(Clone, Copy, Debug, PartialEq, Eq, Structural)]
pub struct SpdmKeyUpdateResponsePayload {
    pub key_update_operation: SpdmKeyUpdateOperation,
    pub tag: u8,
}

/// The operation and the tag at the start of what follows the header of a key
/// update message, if their bytes are all there.
pub open spec fn key_update_body(rest: Seq<u8>) -> Option<(SpdmKeyUpdateOperation, u8)> {
    if rest.len() < 2 {
        None
    } else {
        Some((operation_of_byte(rest[0]), rest[1]))
    }
}

/// The operation and the tag in a key update message, if its bytes are all there.
pub open spec fn key_update_body_of(bytes: Seq<u8>) -> Option<(SpdmKeyUpdateOperation, u8)> {
    if bytes.len() < 2 {
        None
    } else {
        key_update_body(bytes.skip(2))
    }
}

/// Reads the two bytes that follow the header of a key update message.
fn read_key_update_body(reader: &mut Reader) -> (body: Option<(SpdmKeyUpdateOperation, u8)>)
    ensures
        final(reader).buffer@ == old(reader).buffer@,
        body == key_update_body(old(reader).rest()),
        body is Some ==> final(reader).offset == old(reader).offset + 2,
{
    let operation_byte: u8 = match reader.read_u8() {
        Some(byte) => byte,
        None => {
            return None;
        },
    };
    match reader.read_u8() {
        Some(tag) => Some((SpdmKeyUpdateOperation::from_u8(operation_byte), tag)),
        None => None,
    }
}

impl SpdmKeyUpdateRequestPayload {
    /// Reads the body of a key update request behind its header.
    pub fn spdm_read(reader: &mut Reader) -> (payload: Option<SpdmKeyUpdateRequestPayload>)
        ensures
            final(reader).buffer@ == old(reader).buffer@,
            payload is Some ==> final(reader).offset == old(reader).offset + 2,
            payload == match key_update_body(old(reader).rest()) {
                Some((operation, tag)) => Some(
                    SpdmKeyUpdateRequestPayload { key_update_operation: operation, tag },
                ),
                None => None,
            },
    {
        match read_key_update_body(reader) {
            Some((key_update_operation, tag)) => Some(
                SpdmKeyUpdateRequestPayload { key_update_operation, tag },
            ),
            None => None,
        }
    }
}

impl SpdmKeyUpdateResponsePayload {
    /// Reads the body of a key update acknowledgement behind its header.
    pub fn spdm_read(reader: &mut Reader) -> (payload: Option<SpdmKeyUpdateResponsePayload>)
        ensures
            final(reader).buffer@ == old(reader).buffer@,
            payload is Some ==> final(reader).offset == old(reader).offset + 2,
            payload == match key_update_body(old(reader).rest()) {
                Some((operation, tag)) => Some(
                    SpdmKeyUpdateResponsePayload { key_update_operation: operation, tag },
                ),
                None => None,
            },
    {
        match read_key_update_body(reader) {
            Some((key_update_operation, tag)) => Some(
                SpdmKeyUpdateResponsePayload { key_update_operation, tag },
            ),
            None => None,
        }
    }
}

/// The body of a request for capabilities.
#[derive(Clone, Copy, Debug, PartialEq, Eq, Structural)]
pub struct SpdmGetCapabilitiesRequestPayload {
    pub ct_exponent: u8,
    pub flags: SpdmRequestCapabilityFlags,
    pub data_transfer_size: u32,
    pub max_spdm_msg_size: u32,
    pub ex_flags: SpdmRequestCapabilityExFlags,
}

/// The body of an answer with capabilities.
#[derive(Clone, Copy, Debug, PartialEq, Eq, Structural)]
pub struct SpdmCapabilitiesResponsePayload {
    pub ct_exponent: u8,
    pub flags: SpdmResponseCapabilityFlags,
    pub data_transfer_size: u32,
    pub max_spdm_msg_size: u32,
}

/// Whether messages of this version carry the transfer sizes.
pub open spec fn has_transfer_sizes(version: SpdmVersion) -> bool {
    version_byte(version) >= 0x12
}

/// Whether messages of this version carry the capabilities of a requester.
pub open spec fn has_request_capabilities(version: SpdmVersion) -> bool {
    version_byte(version) >= 0x11
}

/// How many bytes a request for capabilities takes, its header included.
pub open spec fn capability_request_length(version: SpdmVersion) -> nat {
    if has_transfer_sizes(version) {
        20
    } else if has_request_capabilities(version) {
        12
    } else {
        4
    }
}

/// The part of a request for capabilities that this version carries; the rest is
/// zero.
pub open spec fn carried_capabilities(
    request: SpdmGetCapabilitiesRequestPayload,
    version: SpdmVersion,
) -> SpdmGetCapabilitiesRequestPayload {
    let some = has_request_capabilities(version);
    let sized = has_transfer_sizes(version);
    SpdmGetCapabilitiesRequestPayload {
        ct_exponent: if some { request.ct_exponent } else { 0 },
        flags: SpdmRequestCapabilityFlags { bits: if some { request.flags.bits } else { 0 } },
        data_transfer_size: if sized { request.data_transfer_size } else { 0 },
        max_spdm_msg_size: if sized { request.max_spdm_msg_size } else { 0 },
        ex_flags: SpdmRequestCapabilityExFlags {
            bits: if some { request.ex_flags.bits } else { 0 },
        },
    }
}

/// The body of a request for capabilities at the start of what follows its header,
/// if its bytes are all there. What the version does not carry is zero.
pub open spec fn capability_request_body(
    rest: Seq<u8>,
    version: SpdmVersion,
) -> Option<SpdmGetCapabilitiesRequestPayload> {
    if rest.len() + 2 < capability_request_length(version) {
        None
    } else {
        Some(
            carried_capabilities(
                SpdmGetCapabilitiesRequestPayload {
                    ct_exponent: rest[3],
                    flags: SpdmRequestCapabilityFlags { bits: le32_value(rest.skip(6)) as u32 },
                    data_transfer_size: le32_value(rest.skip(10)) as u32,
                    max_spdm_msg_size: le32_value(rest.skip(14)) as u32,
                    ex_flags: SpdmRequestCapabilityExFlags {
                        bits: le16_value(rest.skip(4)) as u16,
                    },
                },
                version,
            ),
        )
    }
}

/// The body in a request for capabilities, if its bytes are all there.
pub open spec fn capability_request_body_of(
    bytes: Seq<u8>,
    version: SpdmVersion,
) -> Option<SpdmGetCapabilitiesRequestPayload> {
    if bytes.len() < 2 {
        None
    } else {
        capability_request_body(bytes.skip(2), version)
    }
}

impl SpdmGetCapabilitiesRequestPayload {
    /// Reads the body of a request for capabilities behind its header; on success
    /// the reader stands behind the body.
    pub fn spdm_read(reader: &mut Reader, version: SpdmVersion) -> (payload: Option<
        SpdmGetCapabilitiesRequestPayload,
    >)
        ensures
            final(reader).buffer@ == old(reader).buffer@,
            payload == capability_request_body(old(reader).rest(), version),
            payload is Some ==> final(reader).offset == old(reader).offset
                + capability_request_length(version) - 2,
    {
        let _param1: u8 = reader.read_u8()?;
        let _param2: u8 = reader.read_u8()?;
        let mut ct_exponent: u8 = 0;
        let mut ex_flags: u16 = 0;
        let mut flags: u32 = 0;
        let mut data_transfer_size: u32 = 0;
        let mut max_spdm_msg_size: u32 = 0;
        if version.at_least(SpdmVersion::SpdmVersion11) {
            let _reserved: u8 = reader.read_u8()?;
            ct_exponent = reader.read_u8()?;
            ex_flags = reader.read_u16()?;
            flags = reader.read_u32()?;
        }
        if version.at_least(SpdmVersion::SpdmVersion12) {
            data_transfer_size = reader.read_u32()?;
            max_spdm_msg_size = reader.read_u32()?;
        }
        Some(
            SpdmGetCapabilitiesRequestPayload {
                ct_exponent,
                flags: SpdmRequestCapabilityFlags::from_bits(flags),
                data_transfer_size,
                max_spdm_msg_size,
                ex_flags: SpdmRequestCapabilityExFlags { bits: ex_flags },
            },
        )
    }
}

/// How many bytes an answer with capabilities takes, its header included.
pub open spec fn capabilities_length(version: SpdmVersion) -> nat {
    if has_transfer_sizes(version) {
        20
    } else {
        12
    }
}

/// The body of an answer with capabilities at the start of what follows its
/// header, if its bytes are all there. The sizes are zero where the version does not
/// carry them.
pub open spec fn capabilities_body(
    rest: Seq<u8>,
    version: SpdmVersion,
) -> Option<SpdmCapabilitiesResponsePayload> {
    if rest.len() + 2 < capabilities_length(version) {
        None
    } else {
        Some(
            SpdmCapabilitiesResponsePayload {
                ct_exponent: rest[3],
                flags: SpdmResponseCapabilityFlags { bits: le32_value(rest.skip(6)) as u32 },
                data_transfer_size: if has_transfer_sizes(version) {
                    le32_value(rest.skip(10)) as u32
                } else {
                    0
                },
                max_spdm_msg_size: if has_transfer_sizes(version) {
                    le32_value(rest.skip(14)) as u32
                } else {
                    0
                },
            },
        )
    }
}

/// The body in an answer with capabilities, if its bytes are all there.
pub open spec fn capabilities_body_of(
    bytes: Seq<u8>,
    version: SpdmVersion,
) -> Option<SpdmCapabilitiesResponsePayload> {
    if bytes.len() < 2 {
        None
    } else {
        capabilities_body(bytes.skip(2), version)
    }
}

impl SpdmCapabilitiesResponsePayload {
    /// Reads the body of an answer with capabilities behind its header; on
    /// success the reader stands behind the body.
    pub fn spdm_read(reader: &mut Reader, version: SpdmVersion) -> (payload: Option<
        SpdmCapabilitiesResponsePayload,
    >)
        ensures
            final(reader).buffer@ == old(reader).buffer@,
            payload == capabilities_body(old(reader).rest(), version),
            payload is Some ==> final(reader).offset == old(reader).offset + capabilities_length(
                version,
            ) - 2,
    {
        let _param1: u8 = reader.read_u8()?;
        let _param2: u8 = reader.read_u8()?;
        let _reserved: u8 = reader.read_u8()?;
        let ct_exponent: u8 = reader.read_u8()?;
        let _ext_low: u8 = reader.read_u8()?;
        let _ext_high: u8 = reader.read_u8()?;
        let flags: u32 = reader.read_u32()?;
        let mut data_transfer_size: u32 = 0;
        let mut max_spdm_msg_size: u32 = 0;
        if version.at_least(SpdmVersion::SpdmVersion12) {
            data_transfer_size = reader.read_u32()?;
            max_spdm_msg_size = reader.read_u32()?;
        }
        Some(
            SpdmCapabilitiesResponsePayload {
                ct_exponent,
                flags: SpdmResponseCapabilityFlags::from_bits(flags),
                data_transfer_size,
                max_spdm_msg_size,
            },
        )
    }
}

/// The body of an error message.
#[derive(Clone, Copy, Debug, PartialEq, Eq, Structural)]
pub struct SpdmErrorResponsePayload {
    pub error_code: SpdmErrorCode,
    pub error_data: u8,
}

/// The body of a message that this crate writes.
#[derive(Clone, Copy, Debug, PartialEq, Eq, Structural)]
pub enum SpdmMessagePayload {
    SpdmGetCapabilitiesRequest(SpdmGetCapabilitiesRequestPayload),
    SpdmKeyUpdateRequest(SpdmKeyUpdateRequestPayload),
    SpdmKeyUpdateResponse(SpdmKeyUpdateResponsePayload),
    SpdmErrorResponse(SpdmErrorResponsePayload),
}

/// A message that this crate writes.
#[derive(Clone, Copy, Debug, PartialEq, Eq, Structural)]
pub struct SpdmMessage {
    pub header: SpdmMessageHeader,
    pub payload: SpdmMessagePayload,
}

/// The fields of a header.
pub open spec fn header_fields(header: SpdmMessageHeader) -> Seq<Seq<u8>> {
    seq![seq![version_byte(header.version)], seq![code_byte(header.request_response_code)]]
}

/// The fields of a body, for the version that the two sides agreed on. A
/// request for capabilities has grown twice over the versions.
pub open spec fn payload_fields(payload: SpdmMessagePayload, version: SpdmVersion) -> Seq<
    Seq<u8>,
> {
    match payload {
        SpdmMessagePayload::SpdmGetCapabilitiesRequest(request) => {
            let params = seq![seq![0u8], seq![0u8]];
            let capabilities = if version_byte(version) >= 0x11 {
                seq![
                    seq![0u8],
                    seq![request.ct_exponent],
                    le16(request.ex_flags.bits),
                    le32(request.flags.bits),
                ]
            } else {
                Seq::empty()
            };
            let sizes = if has_transfer_sizes(version) {
                seq![le32(request.data_transfer_size), le32(request.max_spdm_msg_size)]
            } else {
                Seq::empty()
            };
            params + capabilities + sizes
        },
        SpdmMessagePayload::SpdmKeyUpdateRequest(request) => seq![
            seq![operation_byte(request.key_update_operation)],
            seq![request.tag],
        ],
        SpdmMessagePayload::SpdmKeyUpdateResponse(response) => seq![
            seq![operation_byte(response.key_update_operation)],
            seq![response.tag],
        ],
        SpdmMessagePayload::SpdmErrorResponse(error) => seq![
            seq![error_byte(error.error_code)],
            seq![error.error_data],
        ],
    }
}

/// The fields of a message.
pub open spec fn message_fields(message: SpdmMessage, version: SpdmVersion) -> Seq<Seq<u8>> {
    header_fields(message.header) + payload_fields(message.payload, version)
}

/// The bytes of a message.
pub open spec fn message_bytes(message: SpdmMessage, version: SpdmVersion) -> Seq<u8> {
    joined(message_fields(message, version))
}

impl SpdmMessage {
    /// The fields of this message.
    fn fields(&self, version: SpdmVersion) -> (fields: Vec<Vec<u8>>)
        ensures
            field_views(fields@) == message_fields(*self, version),
    {
        let mut fields: Vec<Vec<u8>> = Vec::new();
        fields.push(field_u8(self.header.version.get_u8()));
        fields.push(field_u8(self.header.request_response_code.get_u8()));
        match self.payload {
            SpdmMessagePayload::SpdmGetCapabilitiesRequest(request) => {
                fields.push(field_u8(0));
                fields.push(field_u8(0));
                if version.at_least(SpdmVersion::SpdmVersion11) {
                    fields.push(field_u8(0));
                    fields.push(field_u8(request.ct_exponent));
                    fields.push(field_u16(request.ex_flags.bits));
                    fields.push(field_u32(request.flags.bits));
                }
                if version.at_least(SpdmVersion::SpdmVersion12) {
                    fields.push(field_u32(request.data_transfer_size));
                    fields.push(field_u32(request.max_spdm_msg_size));
                }
            },
            SpdmMessagePayload::SpdmKeyUpdateRequest(request) => {
                fields.push(field_u8(request.key_update_operation.get_u8()));
                fields.push(field_u8(request.tag));
            },
            SpdmMessagePayload::SpdmKeyUpdateResponse(response) => {
                fields.push(field_u8(response.key_update_operation.get_u8()));
                fields.push(field_u8(response.tag));
            },
            SpdmMessagePayload::SpdmErrorResponse(error) => {
                fields.push(field_u8(error.error_code.get_u8()));
                fields.push(field_u8(error.error_data));
            },
        }
        assert(field_views(fields@) =~= message_fields(*self, version));
        fields
    }

    /// Writes this message in the layout of `version`, up to the first field
    /// that has no room.
    pub fn spdm_encode(&self, version: SpdmVersion, writer: &mut Writer) -> (count: SpdmResult<
        usize,
    >)
        requires
            old(writer)@.wf(),
        ensures
            final(writer)@ == put_fields(old(writer)@, message_fields(*self, version)),
            final(writer)@.wf(),
            fits(old(writer)@, message_fields(*self, version)) ==> count == Ok::<
                usize,
                SpdmStatus,
            >(message_bytes(*self, version).len() as usize),
            !fits(old(writer)@, message_fields(*self, version)) ==> count == Err::<
                usize,
                SpdmStatus,
            >(SpdmStatus::BufferFull),
    {
        let fields = self.fields(version);
        writer.put_all(&fields)
    }

    /// Writes this message to the front of a buffer, up to the first field that
    /// has no room.
    pub fn encode_into(&self, version: SpdmVersion, buffer: &mut [u8]) -> (count: SpdmResult<
        usize,
    >)
        ensures
            final(buffer)@ == written_over(old(buffer)@, message_fields(*self, version)),
            message_bytes(*self, version).len() <= old(buffer)@.len() ==> count == Ok::<
                usize,
                SpdmStatus,
            >(message_bytes(*self, version).len() as usize),
            message_bytes(*self, version).len() > old(buffer)@.len() ==> count == Err::<
                usize,
                SpdmStatus,
            >(SpdmStatus::BufferFull),
    {
        let mut writer = Writer::init(buffer.len());
        proof {
            law_writing_only_appends(writer@, message_fields(*self, version));
        }
        let count = self.spdm_encode(version, &mut writer);
        overlay(buffer, writer.used_slice());
        count
    }
}

/// The message that asks for a key update.
pub open spec fn key_update_request(
    version: SpdmVersion,
    operation: SpdmKeyUpdateOperation,
    tag: u8,
) -> SpdmMessage {
    SpdmMessage {
        header: SpdmMessageHeader {
            version,
            request_response_code: SpdmRequestResponseCode::SpdmRequestKeyUpdate,
        },
        payload: SpdmMessagePayload::SpdmKeyUpdateRequest(
            SpdmKeyUpdateRequestPayload { key_update_operation: operation, tag },
        ),
    }
}

/// The message that acknowledges a key update.
pub open spec fn key_update_ack(
    version: SpdmVersion,
    operation: SpdmKeyUpdateOperation,
    tag: u8,
) -> SpdmMessage {
    SpdmMessage {
        header: SpdmMessageHeader {
            version,
            request_response_code: SpdmRequestResponseCode::SpdmResponseKeyUpdateAck,
        },
        payload: SpdmMessagePayload::SpdmKeyUpdateResponse(
            SpdmKeyUpdateResponsePayload { key_update_operation: operation, tag },
        ),
    }
}

/// The message that refuses a request.
pub open spec fn error_response(
    version: SpdmVersion,
    error_code: SpdmErrorCode,
    error_data: u8,
) -> SpdmMessage {
    SpdmMessage {
        header: SpdmMessageHeader {
            version,
            request_response_code: SpdmRequestResponseCode::SpdmResponseError,
        },
        payload: SpdmMessagePayload::SpdmErrorResponse(
            SpdmErrorResponsePayload { error_code, error_data },
        ),
    }
}

/// Four fields of one byte each are these four bytes.
proof fn lemma_four_bytes(fields: Seq<Seq<u8>>, a: u8, b: u8, c: u8, d: u8)
    requires
        fields == seq![seq![a], seq![b]] + seq![seq![c], seq![d]],
    ensures
        joined(fields) == seq![a, b, c, d],
{
    reveal_with_fuel(joined, 5);
    assert(fields.drop_first() =~= seq![seq![b], seq![c], seq![d]]);
    assert(fields.drop_first().drop_first() =~= seq![seq![c], seq![d]]);
    assert(fields.drop_first().drop_first().drop_first() =~= seq![seq![d]]);
    assert(fields.drop_first().drop_first().drop_first().drop_first() =~= Seq::empty());
    assert(joined(fields) =~= seq![a, b, c, d]);
}

/// The bytes of a key update request.
pub proof fn law_key_update_request_bytes(
    version: SpdmVersion,
    operation: SpdmKeyUpdateOperation,
    tag: u8,
)
    ensures
        message_bytes(key_update_request(version, operation, tag), version) == seq![
            version_byte(version),
            0xe9,
            operation_byte(operation),
            tag,
        ],
{
    lemma_four_bytes(
        message_fields(key_update_request(version, operation, tag), version),
        version_byte(version),
        0xe9,
        operation_byte(operation),
        tag,
    );
}

/// The bytes of a key update acknowledgement.
pub proof fn law_key_update_ack_bytes(
    version: SpdmVersion,
    operation: SpdmKeyUpdateOperation,
    tag: u8,
)
    ensures
        message_bytes(key_update_ack(version, operation, tag), version) == seq![
            version_byte(version),
            0x69,
            operation_byte(operation),
            tag,
        ],
{
    lemma_four_bytes(
        message_fields(key_update_ack(version, operation, tag), version),
        version_byte(version),
        0x69,
        operation_byte(operation),
        tag,
    );
}

/// The bytes of an error message.
pub proof fn law_error_response_bytes(
    version: SpdmVersion,
    error_code: SpdmErrorCode,
    error_data: u8,
)
    ensures
        message_bytes(error_response(version, error_code, error_data), version) == seq![
            version_byte(version),
            0x7f,
            error_byte(error_code),
            error_data,
        ],
{
    lemma_four_bytes(
        message_fields(error_response(version, error_code, error_data), version),
        version_byte(version),
        0x7f,
        error_byte(error_code),
        error_data,
    );
}

/// What is read of a written key update message is what was written: the
/// header and the body of a request come back, and so do those of an
/// acknowledgement. An operation that is kept as its byte comes back as the
/// operation of that byte.
pub proof fn law_key_update_round_trip(
    version: SpdmVersion,
    operation: SpdmKeyUpdateOperation,
    tag: u8,
)
    ensures
        ({
            let request = key_update_request(version, operation, tag);
            let ack = key_update_ack(version, operation, tag);
            &&& header_of(message_bytes(request, version)) == Some(request.header)
            &&& header_of(message_bytes(ack, version)) == Some(ack.header)
            &&& key_update_body_of(message_bytes(request, version)) == Some(
                (operation_of_byte(operation_byte(operation)), tag),
            )
            &&& key_update_body_of(message_bytes(ack, version)) == Some(
                (operation_of_byte(operation_byte(operation)), tag),
            )
            &&& operation !is Unknown ==> operation_of_byte(operation_byte(operation)) == operation
        }),
{
    law_key_update_request_bytes(version, operation, tag);
    law_key_update_ack_bytes(version, operation, tag);
}

/// The message that asks for capabilities.
pub open spec fn capability_request(
    version: SpdmVersion,
    request: SpdmGetCapabilitiesRequestPayload,
) -> SpdmMessage {
    SpdmMessage {
        header: SpdmMessageHeader {
            version,
            request_response_code: SpdmRequestResponseCode::SpdmRequestGetCapabilities,
        },
        payload: SpdmMessagePayload::SpdmGetCapabilitiesRequest(request),
    }
}

/// The bytes of a request for capabilities: four in the first version, twelve
/// in the second, twenty from the third on.
pub proof fn law_capability_request_bytes(
    version: SpdmVersion,
    request: SpdmGetCapabilitiesRequestPayload,
)
    ensures
        ({
            let bytes = message_bytes(capability_request(version, request), version);
            let front = seq![version_byte(version), 0xe1u8, 0u8, 0u8];
            let middle = seq![0u8, request.ct_exponent] + le16(request.ex_flags.bits) + le32(
                request.flags.bits,
            );
            let sizes = le32(request.data_transfer_size) + le32(request.max_spdm_msg_size);
            &&& version_byte(version) < 0x11 ==> bytes == front
            &&& version_byte(version) == 0x11 ==> bytes == front + middle
            &&& version_byte(version) > 0x11 ==> bytes == front + middle + sizes
        }),
{
    let fields = message_fields(capability_request(version, request), version);
    let front = seq![seq![version_byte(version)], seq![0xe1u8]] + seq![seq![0u8], seq![0u8]];
    let middle = seq![seq![0u8], seq![request.ct_exponent]] + seq![
        le16(request.ex_flags.bits),
        le32(request.flags.bits),
    ];
    let sizes = seq![le32(request.data_transfer_size), le32(request.max_spdm_msg_size)];
    lemma_four_bytes(front, version_byte(version), 0xe1, 0, 0);
    lemma_joined_concat(
        seq![seq![0u8], seq![request.ct_exponent]],
        seq![le16(request.ex_flags.bits), le32(request.flags.bits)],
    );
    lemma_joined_pair(seq![0u8], seq![request.ct_exponent]);
    lemma_joined_pair(le16(request.ex_flags.bits), le32(request.flags.bits));
    lemma_joined_pair(le32(request.data_transfer_size), le32(request.max_spdm_msg_size));
    lemma_joined_concat(front, middle);
    lemma_joined_concat(front + middle, sizes);
    let middle_bytes = seq![0u8, request.ct_exponent] + le16(request.ex_flags.bits) + le32(
        request.flags.bits,
    );
    assert(joined(middle) =~= middle_bytes);
    if version_byte(version) < 0x11 {
        assert(fields =~= front);
    } else if version_byte(version) == 0x11 {
        assert(fields =~= front + middle);
    } else {
        assert(fields =~= front + middle + sizes);
    }
}

/// What is read of a written request for capabilities is what was written, as far as
/// the version carries it: the header, the exponent, both sets of capabilities and
/// both sizes.
pub proof fn law_capability_request_round_trip(
    version: SpdmVersion,
    request: SpdmGetCapabilitiesRequestPayload,
)
    ensures
        ({
            let message = capability_request(version, request);
            let bytes = message_bytes(message, version);
            &&& bytes.len() == capability_request_length(version)
            &&& header_of(bytes) == Some(message.header)
            &&& capability_request_body_of(bytes, version) == Some(
                carried_capabilities(request, version),
            )
        }),
{
    let bytes = message_bytes(capability_request(version, request), version);
    law_capability_request_bytes(version, request);
    law_version_byte_round_trip(version);
    let rest = bytes.skip(2);
    if has_request_capabilities(version) {
        law_le16_round_trip(request.ex_flags.bits);
        law_le32_round_trip(request.flags.bits);
        assert(rest.skip(4).take(2) =~= le16(request.ex_flags.bits));
        assert(rest.skip(6).take(4) =~= le32(request.flags.bits));
        lemma_le_values_of_front(rest.skip(4));
        lemma_le_values_of_front(rest.skip(6));
    }
    if has_transfer_sizes(version) {
        law_le32_round_trip(request.data_transfer_size);
        law_le32_round_trip(request.max_spdm_msg_size);
        assert(rest.skip(10).take(4) =~= le32(request.data_transfer_size));
        assert(rest.skip(14).take(4) =~= le32(request.max_spdm_msg_size));
        lemma_le_values_of_front(rest.skip(10));
        lemma_le_values_of_front(rest.skip(14));
    }
}

/// A number is read from the first bytes alone.
proof fn lemma_le_values_of_front(bytes: Seq<u8>)
    ensures
        bytes.len() >= 2 ==> le16_value(bytes) == le16_value(bytes.take(2)),
        bytes.len() >= 4 ==> le32_value(bytes) == le32_value(bytes.take(4)),
{
}

proof fn lemma_joined_concat(first: Seq<Seq<u8>>, second: Seq<Seq<u8>>)
    ensures
        joined(first + second) == joined(first) + joined(second),
    decreases first.len(),
{
    if first.len() == 0 {
        assert(first + second =~= second);
        assert(joined(first) + joined(second) =~= joined(second));
    } else {
        assert((first + second).drop_first() =~= first.drop_first() + second);
        lemma_joined_concat(first.drop_first(), second);
        assert(joined(first + second) =~= joined(first) + joined(second));
    }
}

proof fn lemma_joined_pair(first: Seq<u8>, second: Seq<u8>)
    ensures
        joined(seq![first, second]) == first + second,
{
    reveal_with_fuel(joined, 3);
    assert(seq![first, second].drop_first() =~= seq![second]);
    assert(seq![second].drop_first() =~= Seq::empty());
    assert(joined(seq![first, second]) =~= first + second);
}

} // verus!
