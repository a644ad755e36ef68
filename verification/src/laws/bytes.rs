//! Numbers, versions, codes and messages as bytes, and writing them.

use vstd::prelude::*;

use crate::codec::{
    empty_writer, fits, joined, law_fitting_fields_are_appended, law_writing_only_appends, le16,
    le16_value, le32, le32_value, overlaid, put_fields, written_over, WriterView,
};
use crate::message::{
    capabilities_body_of, capability_request_body_of, code_byte, code_of_byte, error_byte,
    header_of, key_update_body_of, operation_byte, operation_of_byte, SpdmErrorCode,
    SpdmKeyUpdateOperation, SpdmRequestResponseCode,
};
use crate::protocol::{
    first_in_set, strongest_of, version_byte, version_of_byte, weakest_of,
    SpdmRequestCapabilityFlags, SpdmResponseCapabilityFlags, SpdmVersion,
};

verus! {

/// The bytes of a number weigh 1, 256, 65536 and 16777216, in this order, and add up
/// to it.
pub proof fn law_numbers_are_little_endian(small: u16, large: u32)
    ensures
        le16(small).len() == 2,
        small == le16(small)[0] + 0x100 * le16(small)[1],
        le32(large).len() == 4,
        large == le32(large)[0] + 0x100 * le32(large)[1] + 0x1_0000 * le32(large)[2] + 0x100_0000
            * le32(large)[3],
{
}

/// The first bytes of a sequence stand for the number that they add up to by these
/// weights, whatever follows them.
pub proof fn law_bytes_stand_for_their_sum(bytes: Seq<u8>)
    ensures
        le16_value(bytes) == bytes[0] + 0x100 * bytes[1],
        le32_value(bytes) == bytes[0] + 0x100 * bytes[1] + 0x1_0000 * bytes[2] + 0x100_0000
            * bytes[3],
{
}

/// Exactly the bytes from 0x10 to 0x14 are versions, in the order of the versions.
pub proof fn law_versions_are_their_bytes(byte: u8, version: SpdmVersion)
    ensures
        version_of_byte(byte) is Some == (0x10 <= byte <= 0x14),
        (version_of_byte(byte) == Some(version)) == (version_byte(version) == byte),
        version is SpdmVersion10 == (version_byte(version) == 0x10),
        version is SpdmVersion11 == (version_byte(version) == 0x11),
        version is SpdmVersion12 == (version_byte(version) == 0x12),
        version is SpdmVersion13 == (version_byte(version) == 0x13),
        version is SpdmVersion14 == (version_byte(version) == 0x14),
{
}

/// Each code that is handled has one byte, every other byte is kept as it is, and no
/// code is lost between a byte and its code.
pub proof fn law_codes_are_their_bytes(byte: u8)
    ensures
        code_byte(code_of_byte(byte)) == byte,
        code_of_byte(byte) is SpdmResponseCapabilities == (byte == 0x61),
        code_of_byte(byte) is SpdmResponseKeyUpdateAck == (byte == 0x69),
        code_of_byte(byte) is SpdmResponseError == (byte == 0x7f),
        code_of_byte(byte) is SpdmRequestGetCapabilities == (byte == 0xe1),
        code_of_byte(byte) is SpdmRequestKeyUpdate == (byte == 0xe9),
        code_byte(SpdmRequestResponseCode::Unknown(byte)) == byte,
{
}

/// Each operation that is defined has one byte, every other byte is kept as it is, and
/// no operation is lost between a byte and its operation.
pub proof fn law_operations_are_their_bytes(byte: u8)
    ensures
        operation_byte(operation_of_byte(byte)) == byte,
        operation_of_byte(byte) is SpdmUpdateSingleKey == (byte == 1),
        operation_of_byte(byte) is SpdmUpdateAllKeys == (byte == 2),
        operation_of_byte(byte) is SpdmVerifyNewKey == (byte == 3),
        operation_byte(SpdmKeyUpdateOperation::Unknown(byte)) == byte,
{
}

/// Each error code has its byte.
pub proof fn law_error_codes_are_their_bytes(code: SpdmErrorCode)
    ensures
        code is SpdmErrorInvalidRequest == (error_byte(code) == 0x01),
        code is SpdmErrorUnspecified == (error_byte(code) == 0x05),
        code is SpdmErrorVersionMismatch == (error_byte(code) == 0x41),
{
}

/// Every message of two bytes or more whose first byte is a version has a header, and
/// no other; the header is made of the first two bytes.
pub proof fn law_header_is_the_first_two_bytes(bytes: Seq<u8>)
    ensures
        header_of(bytes) is Some == (bytes.len() >= 2 && 0x10 <= bytes[0] <= 0x14),
        header_of(bytes) matches Some(header) ==> version_byte(header.version) == bytes[0]
            && header.request_response_code == code_of_byte(bytes[1]),
{
}

/// Every message of four bytes or more has the body of a key update, and no other; its
/// operation is the third byte and its tag the fourth.
pub proof fn law_key_update_body_is_the_next_two_bytes(bytes: Seq<u8>)
    ensures
        key_update_body_of(bytes) is Some == (bytes.len() >= 4),
        key_update_body_of(bytes) matches Some((operation, tag)) ==> operation
            == operation_of_byte(bytes[2]) && tag == bytes[3],
{
}

/// The capabilities in an answer stand at their places: the exponent in the sixth byte,
/// the flags in the four bytes from the ninth on, and from 1.2 on the two sizes in the
/// four bytes from the thirteenth and from the seventeenth on. An answer that ends
/// before that holds none.
pub proof fn law_capabilities_stand_at_their_places(bytes: Seq<u8>, version: SpdmVersion)
    ensures
        capabilities_body_of(bytes, version) is Some == (bytes.len() >= if version_byte(version)
            >= 0x12 {
            20int
        } else {
            12int
        }),
        capabilities_body_of(bytes, version) matches Some(body) ==> {
            let sized = version_byte(version) >= 0x12;
            &&& body.ct_exponent == bytes[5]
            &&& body.flags.bits == bytes[8] + 0x100 * bytes[9] + 0x1_0000 * bytes[10] + 0x100_0000
                * bytes[11]
            &&& sized ==> body.data_transfer_size == bytes[12] + 0x100 * bytes[13] + 0x1_0000
                * bytes[14] + 0x100_0000 * bytes[15]
            &&& sized ==> body.max_spdm_msg_size == bytes[16] + 0x100 * bytes[17] + 0x1_0000
                * bytes[18] + 0x100_0000 * bytes[19]
            &&& !sized ==> body.data_transfer_size == 0 && body.max_spdm_msg_size == 0
        },
{
}

/// The capabilities in a request stand at their places, as far as its version carries
/// them; the rest is zero.
pub proof fn law_offer_stands_at_its_places(bytes: Seq<u8>, version: SpdmVersion)
    ensures
        capability_request_body_of(bytes, version) is Some == (bytes.len() >= if version_byte(
            version,
        ) >= 0x12 {
            20int
        } else if version_byte(version) >= 0x11 {
            12int
        } else {
            4int
        }),
        capability_request_body_of(bytes, version) matches Some(body) ==> {
            let some = version_byte(version) >= 0x11;
            let sized = version_byte(version) >= 0x12;
            &&& some ==> body.ct_exponent == bytes[5]
            &&& some ==> body.ex_flags.bits == bytes[6] + 0x100 * bytes[7]
            &&& some ==> body.flags.bits == bytes[8] + 0x100 * bytes[9] + 0x1_0000 * bytes[10]
                + 0x100_0000 * bytes[11]
            &&& sized ==> body.data_transfer_size == bytes[12] + 0x100 * bytes[13] + 0x1_0000
                * bytes[14] + 0x100_0000 * bytes[15]
            &&& sized ==> body.max_spdm_msg_size == bytes[16] + 0x100 * bytes[17] + 0x1_0000
                * bytes[18] + 0x100_0000 * bytes[19]
            &&& !some ==> body.ct_exponent == 0 && body.ex_flags.bits == 0 && body.flags.bits == 0
            &&& !sized ==> body.data_transfer_size == 0 && body.max_spdm_msg_size == 0
        },
{
}

/// Joined fields are their bytes in order: nothing for no field, the field itself for
/// one, and for two lists the bytes of the first and then those of the second.
pub proof fn law_joined_fields_keep_order(
    field: Seq<u8>,
    first: Seq<Seq<u8>>,
    second: Seq<Seq<u8>>,
)
    ensures
        joined(Seq::empty()) == Seq::<u8>::empty(),
        joined(seq![field]) == field,
        joined(first + second) == joined(first) + joined(second),
    decreases first.len(),
{
    reveal_with_fuel(joined, 2);
    assert(seq![field].drop_first() =~= Seq::<Seq<u8>>::empty());
    assert(joined(seq![field]) =~= field);
    if first.len() == 0 {
        assert(first + second =~= second);
        assert(joined(first) + joined(second) =~= joined(second));
    } else {
        assert((first + second).drop_first() =~= first.drop_first() + second);
        law_joined_fields_keep_order(field, first.drop_first(), second);
        assert(joined(first + second) =~= joined(first) + joined(second));
    }
}

/// What is written is the front of what was there and all fields after it: all of it
/// where the room is enough, and less where it is not, up to the first field that has
/// no room.
pub proof fn law_writing_stops_without_room(writer: WriterView, fields: Seq<Seq<u8>>)
    requires
        writer.used.len() <= writer.limit,
    ensures
        fits(writer, fields) == (writer.used.len() + joined(fields).len() <= writer.limit),
        put_fields(writer, fields).limit == writer.limit,
        put_fields(writer, fields).used.is_prefix_of(writer.used + joined(fields)),
        fits(writer, fields) ==> put_fields(writer, fields).used == writer.used + joined(fields),
        !fits(writer, fields) ==> put_fields(writer, fields).used.len() < writer.used.len()
            + joined(fields).len(),
        fields.len() > 0 && writer.used.len() + fields[0].len() > writer.limit ==> put_fields(
            writer,
            fields,
        ) == writer,
    decreases fields.len(),
{
    if fits(writer, fields) {
        law_fitting_fields_are_appended(writer, fields);
    }
    if fields.len() == 0 {
        assert(writer.used + joined(fields) =~= writer.used);
    } else if writer.used.len() + fields[0].len() <= writer.limit {
        let next = WriterView { used: writer.used + fields[0], ..writer };
        law_writing_stops_without_room(next, fields.drop_first());
        assert(next.used + joined(fields.drop_first()) =~= writer.used + joined(fields));
    } else {
        assert(writer.used.is_prefix_of(writer.used + joined(fields)));
    }
}

/// Fields of one byte each fill the room to its end: what is written is what was there
/// and the bytes after it, cut off at the limit.
pub proof fn law_single_bytes_fill_the_room(writer: WriterView, fields: Seq<Seq<u8>>)
    requires
        writer.used.len() <= writer.limit,
        forall|i: int| 0 <= i < fields.len() ==> (#[trigger] fields[i]).len() == 1,
    ensures
        put_fields(writer, fields).used == (writer.used + joined(fields)).take(
            if writer.used.len() + joined(fields).len() <= writer.limit {
                (writer.used + joined(fields)).len() as int
            } else {
                writer.limit as int
            },
        ),
        put_fields(writer, fields).limit == writer.limit,
    decreases fields.len(),
{
    let all = writer.used + joined(fields);
    if fields.len() == 0 {
        assert(all.take(all.len() as int) =~= writer.used);
    } else if writer.used.len() + 1 <= writer.limit {
        let next = WriterView { used: writer.used + fields[0], ..writer };
        let rest = fields.drop_first();
        assert(fields[0].len() == 1);
        assert forall|i: int| 0 <= i < rest.len() implies (#[trigger] rest[i]).len() == 1 by {
            assert(rest[i] == fields[i + 1]);
        }
        law_single_bytes_fill_the_room(next, rest);
        assert(next.used + joined(rest) =~= all);
    } else {
        assert(fields[0].len() == 1);
        assert(all.take(writer.limit as int) =~= writer.used);
    }
}

/// Bytes that are copied to a buffer replace its front and nothing else.
pub proof fn law_copied_bytes_replace_the_front(buffer: Seq<u8>, bytes: Seq<u8>, i: int)
    requires
        bytes.len() <= buffer.len(),
        0 <= i < buffer.len(),
    ensures
        overlaid(buffer, bytes).len() == buffer.len(),
        overlaid(buffer, bytes)[i] == if i < bytes.len() {
            bytes[i]
        } else {
            buffer[i]
        },
        empty_writer(buffer.len()).used.len() == 0,
        empty_writer(buffer.len()).limit == buffer.len(),
{
}

/// A buffer that fields are written to keeps its length and all that stands behind what
/// is written, which is the front of the fields: all of them where they have room.
pub proof fn law_written_buffer_keeps_its_rest(buffer: Seq<u8>, fields: Seq<Seq<u8>>)
    ensures
        ({
            let after = written_over(buffer, fields);
            let written = put_fields(empty_writer(buffer.len()), fields).used.len();
            &&& after.len() == buffer.len()
            &&& written <= buffer.len() && written <= joined(fields).len()
            &&& joined(fields).len() <= buffer.len() ==> written == joined(fields).len()
            &&& joined(fields).len() > buffer.len() ==> written < joined(fields).len()
            &&& forall|i: int| 0 <= i < written ==> #[trigger] after[i] == joined(fields)[i]
            &&& forall|i: int| written <= i < buffer.len() ==> #[trigger] after[i] == buffer[i]
        }),
{
    let writer = empty_writer(buffer.len());
    law_writing_stops_without_room(writer, fields);
    law_writing_only_appends(writer, fields);
    assert(writer.used + joined(fields) =~= joined(fields));
}

/// Each capability of a requester is one bit, at its place.
pub proof fn law_requester_capabilities_are_bits(flags: SpdmRequestCapabilityFlags)
    ensures
        flags.has(SpdmRequestCapabilityFlags::CERT_CAP) == ((flags.bits / 0x2) % 2 == 1),
        flags.has(SpdmRequestCapabilityFlags::CHAL_CAP) == ((flags.bits / 0x4) % 2 == 1),
        flags.has(SpdmRequestCapabilityFlags::ENCRYPT_CAP) == ((flags.bits / 0x40) % 2 == 1),
        flags.has(SpdmRequestCapabilityFlags::MAC_CAP) == ((flags.bits / 0x80) % 2 == 1),
        flags.has(SpdmRequestCapabilityFlags::MUT_AUTH_CAP) == ((flags.bits / 0x100) % 2 == 1),
        flags.has(SpdmRequestCapabilityFlags::KEY_EX_CAP) == ((flags.bits / 0x200) % 2 == 1),
        flags.has(SpdmRequestCapabilityFlags::PSK_CAP) == ((flags.bits / 0x400) % 2 == 1),
        flags.has(SpdmRequestCapabilityFlags::HBEAT_CAP) == ((flags.bits / 0x2000) % 2 == 1),
        flags.has(SpdmRequestCapabilityFlags::KEY_UPD_CAP) == ((flags.bits / 0x4000) % 2 == 1),
        flags.has(SpdmRequestCapabilityFlags::HANDSHAKE_IN_THE_CLEAR_CAP) == ((flags.bits
            / 0x8000) % 2 == 1),
        flags.has(SpdmRequestCapabilityFlags::CHUNK_CAP) == ((flags.bits / 0x2_0000) % 2 == 1),
{
    lemma_bits_of(flags.bits);
}

/// Each capability of a responder is one bit, at its place.
pub proof fn law_responder_capabilities_are_bits(flags: SpdmResponseCapabilityFlags)
    ensures
        flags.has(SpdmResponseCapabilityFlags::CERT_CAP) == ((flags.bits / 0x2) % 2 == 1),
        flags.has(SpdmResponseCapabilityFlags::CHAL_CAP) == ((flags.bits / 0x4) % 2 == 1),
        flags.has(SpdmResponseCapabilityFlags::ENCRYPT_CAP) == ((flags.bits / 0x40) % 2 == 1),
        flags.has(SpdmResponseCapabilityFlags::MAC_CAP) == ((flags.bits / 0x80) % 2 == 1),
        flags.has(SpdmResponseCapabilityFlags::MUT_AUTH_CAP) == ((flags.bits / 0x100) % 2 == 1),
        flags.has(SpdmResponseCapabilityFlags::KEY_EX_CAP) == ((flags.bits / 0x200) % 2 == 1),
        flags.has(SpdmResponseCapabilityFlags::PSK_CAP_WITHOUT_CONTEXT) == ((flags.bits / 0x400)
            % 2 == 1),
        flags.has(SpdmResponseCapabilityFlags::PSK_CAP_WITH_CONTEXT) == ((flags.bits / 0x800) % 2
            == 1),
        flags.has(SpdmResponseCapabilityFlags::HBEAT_CAP) == ((flags.bits / 0x2000) % 2 == 1),
        flags.has(SpdmResponseCapabilityFlags::KEY_UPD_CAP) == ((flags.bits / 0x4000) % 2 == 1),
        flags.has(SpdmResponseCapabilityFlags::HANDSHAKE_IN_THE_CLEAR_CAP) == ((flags.bits
            / 0x8000) % 2 == 1),
        flags.has(SpdmResponseCapabilityFlags::CHUNK_CAP) == ((flags.bits / 0x2_0000) % 2 == 1),
{
    lemma_bits_of(flags.bits);
}

/// A single bit is set exactly where the number divided by its weight is odd.
proof fn lemma_bits_of(bits: u32)
    ensures
        (bits & 0x2 == 0x2) == ((bits / 0x2) % 2 == 1),
        (bits & 0x4 == 0x4) == ((bits / 0x4) % 2 == 1),
        (bits & 0x40 == 0x40) == ((bits / 0x40) % 2 == 1),
        (bits & 0x80 == 0x80) == ((bits / 0x80) % 2 == 1),
        (bits & 0x100 == 0x100) == ((bits / 0x100) % 2 == 1),
        (bits & 0x200 == 0x200) == ((bits / 0x200) % 2 == 1),
        (bits & 0x400 == 0x400) == ((bits / 0x400) % 2 == 1),
        (bits & 0x800 == 0x800) == ((bits / 0x800) % 2 == 1),
        (bits & 0x2000 == 0x2000) == ((bits / 0x2000) % 2 == 1),
        (bits & 0x4000 == 0x4000) == ((bits / 0x4000) % 2 == 1),
        (bits & 0x8000 == 0x8000) == ((bits / 0x8000) % 2 == 1),
        (bits & 0x2_0000 == 0x2_0000) == ((bits / 0x2_0000) % 2 == 1),
{
    assert((bits & 0x2 == 0x2) == ((bits / 0x2) % 2 == 1) && (bits & 0x4 == 0x4) == ((bits / 0x4)
        % 2 == 1) && (bits & 0x40 == 0x40) == ((bits / 0x40) % 2 == 1) && (bits & 0x80 == 0x80)
        == ((bits / 0x80) % 2 == 1)) by (bit_vector);
    assert((bits & 0x100 == 0x100) == ((bits / 0x100) % 2 == 1) && (bits & 0x200 == 0x200) == ((
    bits / 0x200) % 2 == 1) && (bits & 0x400 == 0x400) == ((bits / 0x400) % 2 == 1) && (bits
        & 0x800 == 0x800) == ((bits / 0x800) % 2 == 1)) by (bit_vector);
    assert((bits & 0x2000 == 0x2000) == ((bits / 0x2000) % 2 == 1) && (bits & 0x4000 == 0x4000)
        == ((bits / 0x4000) % 2 == 1) && (bits & 0x8000 == 0x8000) == ((bits / 0x8000) % 2 == 1)
        && (bits & 0x2_0000 == 0x2_0000) == ((bits / 0x2_0000) % 2 == 1)) by (bit_vector);
}

/// The choice out of a table is its first entry that shares a bit with what is common,
/// and nothing where none does.
pub proof fn law_choice_is_the_first_common_entry(common: u32, first: u32, second: u32, third: u32)
    ensures
        common & first != 0 ==> first_in_set(common, first, second, third) == first,
        common & first == 0 && common & second != 0 ==> first_in_set(common, first, second, third)
            == second,
        common & first == 0 && common & second == 0 && common & third != 0 ==> first_in_set(
            common,
            first,
            second,
            third,
        ) == third,
        common & first == 0 && common & second == 0 && common & third == 0 ==> first_in_set(
            common,
            first,
            second,
            third,
        ) == 0,
{
}

/// A responder chooses the strongest algorithm that both sides have: the highest of the
/// three bits. A requester chooses the weakest: the lowest of them. Where they share
/// none of the three, both choose nothing.
pub proof fn law_sides_choose_from_opposite_ends(common: u32)
    ensures
        (common / 4) % 2 == 1 ==> strongest_of(common) == 4,
        (common / 4) % 2 == 0 && (common / 2) % 2 == 1 ==> strongest_of(common) == 2,
        (common / 4) % 2 == 0 && (common / 2) % 2 == 0 ==> strongest_of(common) == common % 2,
        common % 2 == 1 ==> weakest_of(common) == 1,
        common % 2 == 0 && (common / 2) % 2 == 1 ==> weakest_of(common) == 2,
        common % 2 == 0 && (common / 2) % 2 == 0 ==> weakest_of(common) == 4 * ((common / 4) % 2),
{
    assert((common & 4 != 0) == ((common / 4) % 2 == 1) && (common & 2 != 0) == ((common / 2) % 2
        == 1) && (common & 1 != 0) == (common % 2 == 1)) by (bit_vector);
}

} // verus!
