//! Writing a message field by field into a bounded buffer, and reading it back.

use vstd::prelude::*;

use crate::error::{SpdmResult, SpdmStatus};

verus! {

/// The two bytes of a number, the low one first.
pub open spec fn le16(value: u16) -> Seq<u8> {
    seq![(value % 0x100) as u8, (value / 0x100) as u8]
}

/// The number that two bytes stand for, the low byte first.
pub open spec fn le16_value(bytes: Seq<u8>) -> int {
    bytes[0] + 0x100 * bytes[1]
}

/// The four bytes of a number, the low one first.
pub open spec fn le32(value: u32) -> Seq<u8> {
    seq![
        (value % 0x100) as u8,
        ((value / 0x100) % 0x100) as u8,
        ((value / 0x1_0000) % 0x100) as u8,
        (value / 0x100_0000) as u8,
    ]
}

/// The number that four bytes stand for, the low byte first.
pub open spec fn le32_value(bytes: Seq<u8>) -> int {
    bytes[0] + 0x100 * bytes[1] + 0x1_0000 * bytes[2] + 0x100_0000 * bytes[3]
}

/// A number is read back from its two bytes.
pub proof fn law_le16_round_trip(value: u16)
    ensures
        le16(value).len() == 2,
        le16_value(le16(value)) == value,
{
}

/// A number is read back from its four bytes.
pub proof fn law_le32_round_trip(value: u32)
    ensures
        le32(value).len() == 4,
        le32_value(le32(value)) == value,
{
}

/// What a writer holds: the bytes written so far, and how many fit in all.
#[verifier::ext_equal]
pub struct WriterView {
    pub used: Seq<u8>,
    pub limit: nat,
}

impl WriterView {
    /// Whether no more is written than fits.
    pub open spec fn wf(self) -> bool {
        self.used.len() <= self.limit
    }
}

/// The writer after the fields have been written in turn, up to the first one
/// that has no room.
pub open spec fn put_fields(writer: WriterView, fields: Seq<Seq<u8>>) -> WriterView
    decreases fields.len(),
{
    if fields.len() > 0 && writer.used.len() + fields[0].len() <= writer.limit {
        put_fields(
            WriterView { used: writer.used + fields[0], ..writer },
            fields.drop_first(),
        )
    } else {
        writer
    }
}

/// The bytes of all fields, one after the other.
pub open spec fn joined(fields: Seq<Seq<u8>>) -> Seq<u8>
    decreases fields.len(),
{
    if fields.len() == 0 {
        Seq::empty()
    } else {
        fields[0] + joined(fields.drop_first())
    }
}

/// Whether all fields have room.
pub open spec fn fits(writer: WriterView, fields: Seq<Seq<u8>>) -> bool {
    writer.used.len() + joined(fields).len() <= writer.limit
}

/// Fields that all have room are appended as they stand.
pub proof fn law_fitting_fields_are_appended(writer: WriterView, fields: Seq<Seq<u8>>)
    requires
        fits(writer, fields),
    ensures
        put_fields(writer, fields) == (WriterView { used: writer.used + joined(fields), ..writer }),
    decreases fields.len(),
{
    if fields.len() == 0 {
        assert(writer.used + joined(fields) =~= writer.used);
    } else {
        let next = WriterView { used: writer.used + fields[0], ..writer };
        law_fitting_fields_are_appended(next, fields.drop_first());
        assert(writer.used + joined(fields) =~= next.used + joined(fields.drop_first()));
    }
}

/// Fields that all have room in a buffer stand at its front, and the rest of the
/// buffer stays as it was.
pub proof fn law_fitting_fields_fill_the_front(buffer: Seq<u8>, fields: Seq<Seq<u8>>)
    requires
        joined(fields).len() <= buffer.len(),
    ensures
        written_over(buffer, fields).len() == buffer.len(),
        written_over(buffer, fields).take(joined(fields).len() as int) == joined(fields),
        written_over(buffer, fields).skip(joined(fields).len() as int) == buffer.skip(
            joined(fields).len() as int,
        ),
{
    let writer = empty_writer(buffer.len());
    law_fitting_fields_are_appended(writer, fields);
    let bytes = joined(fields);
    assert(writer.used + bytes =~= bytes);
    assert(written_over(buffer, fields).take(bytes.len() as int) =~= bytes);
    assert(written_over(buffer, fields).skip(bytes.len() as int) =~= buffer.skip(
        bytes.len() as int,
    ));
}

/// Writing never goes past the limit and never touches what is already there.
pub proof fn law_writing_only_appends(writer: WriterView, fields: Seq<Seq<u8>>)
    requires
        writer.wf(),
    ensures
        put_fields(writer, fields).wf(),
        put_fields(writer, fields).limit == writer.limit,
        writer.used.len() <= put_fields(writer, fields).used.len(),
        put_fields(writer, fields).used.take(writer.used.len() as int) == writer.used,
    decreases fields.len(),
{
    let after = put_fields(writer, fields);
    if fields.len() > 0 && writer.used.len() + fields[0].len() <= writer.limit {
        let next = WriterView { used: writer.used + fields[0], ..writer };
        law_writing_only_appends(next, fields.drop_first());
        assert(after.used.take(writer.used.len() as int) =~= writer.used) by {
            assert forall|i: int| 0 <= i < writer.used.len() implies after.used[i]
                == writer.used[i] by {
                assert(after.used.take(next.used.len() as int)[i] == next.used[i]);
            }
        }
    } else {
        assert(after.used.take(writer.used.len() as int) =~= writer.used);
    }
}

/// The fields of a list of owned fields.
pub open spec fn field_views(fields: Seq<Vec<u8>>) -> Seq<Seq<u8>> {
    fields.map_values(|field: Vec<u8>| field@)
}

/// A bounded buffer that a message is written into.
#[derive(Debug)]
pub struct Writer {
    pub data: Vec<u8>,
    pub limit: usize,
}

impl View for Writer {
    type V = WriterView;

    open spec fn view(&self) -> WriterView {
        WriterView { used: self.data@, limit: self.limit as nat }
    }
}

impl Writer {
    /// An empty writer with room for `limit` bytes.
    pub fn init(limit: usize) -> (writer: Writer)
        ensures
            writer@ == empty_writer(limit as nat),
            writer@.wf(),
    {
        Writer { data: Vec::new(), limit }
    }

    /// The bytes written so far.
    pub fn used_slice(&self) -> (bytes: &[u8])
        ensures
            bytes@ == self@.used,
    {
        self.data.as_slice()
    }

    /// Writes one field, if it has room.
    fn put(&mut self, field: &Vec<u8>) -> (written: bool)
        ensures
            written == (old(self)@.used.len() + field@.len() <= old(self)@.limit),
            final(self)@.limit == old(self)@.limit,
            final(self)@.used == if written {
                old(self)@.used + field@
            } else {
                old(self)@.used
            },
    {
        if self.data.len() <= self.limit && field.len() <= self.limit - self.data.len() {
            let mut i: usize = 0;
            let ghost before = self.data@;
            let ghost limit = self.limit;
            assert(field@.take(0) =~= Seq::empty());
            while i < field.len()
                invariant
                    i <= field@.len(),
                    self.limit == limit,
                    self.data@ == before + field@.take(i as int),
                decreases field@.len() - i,
            {
                self.data.push(field[i]);
                i = i + 1;
                assert(self.data@ =~= before + field@.take(i as int));
            }
            assert(field@.take(i as int) =~= field@);
            true
        } else {
            false
        }
    }

    /// Writes the fields in turn, up to the first one that has no room.
    pub fn put_all(&mut self, fields: &Vec<Vec<u8>>) -> (count: SpdmResult<usize>)
        requires
            old(self)@.wf(),
        ensures
            final(self)@ == put_fields(old(self)@, field_views(fields@)),
            final(self)@.wf(),
            fits(old(self)@, field_views(fields@)) ==> count == Ok::<usize, SpdmStatus>(
                joined(field_views(fields@)).len() as usize,
            ),
            !fits(old(self)@, field_views(fields@)) ==> count == Err::<usize, SpdmStatus>(
                SpdmStatus::BufferFull,
            ),
    {
        let ghost before = self@;
        let ghost views = field_views(fields@);
        let start: usize = self.data.len();
        let mut i: usize = 0;
        assert(views.skip(0) =~= views);
        while i < fields.len()
            invariant
                i <= fields@.len(),
                before == old(self)@,
                views == field_views(fields@),
                start == before.used.len(),
                start <= self@.used.len() <= self@.limit,
                self@.limit == before.limit,
                put_fields(before, views) == put_fields(self@, views.skip(i as int)),
                before.used.len() + joined(views).len() == self@.used.len() + joined(
                    views.skip(i as int),
                ).len(),
            decreases fields@.len() - i,
        {
            let ghost rest = views.skip(i as int);
            assert(rest[0] == fields@[i as int]@);
            assert(rest.drop_first() =~= views.skip(i + 1));
            if !self.put(&fields[i]) {
                return Err(SpdmStatus::BufferFull);
            }
            i = i + 1;
        }
        assert(views.skip(i as int) =~= Seq::empty());
        Ok(self.data.len() - start)
    }
}

/// The front of a buffer after `bytes` have been copied to it.
pub open spec fn overlaid(buffer: Seq<u8>, bytes: Seq<u8>) -> Seq<u8> {
    bytes + buffer.skip(bytes.len() as int)
}

/// A buffer after fields have been written to its front in turn, up to the first
/// one that has no room.
pub open spec fn written_over(buffer: Seq<u8>, fields: Seq<Seq<u8>>) -> Seq<u8> {
    overlaid(buffer, put_fields(empty_writer(buffer.len()), fields).used)
}

/// A writer with room for `limit` bytes and nothing written.
pub open spec fn empty_writer(limit: nat) -> WriterView {
    WriterView { used: Seq::empty(), limit }
}

/// Copies `bytes` to the front of `buffer`.
pub fn overlay(buffer: &mut [u8], bytes: &[u8])
    requires
        bytes@.len() <= old(buffer)@.len(),
    ensures
        final(buffer)@ == overlaid(old(buffer)@, bytes@),
{
    let mut i: usize = 0;
    let ghost before = buffer@;
    assert(before =~= overlaid(before, bytes@.take(0)));
    while i < bytes.len()
        invariant
            i <= bytes@.len() <= before.len(),
            buffer@.len() == before.len(),
            buffer@ == overlaid(before, bytes@.take(i as int)),
        decreases bytes@.len() - i,
    {
        buffer[i] = bytes[i];
        i = i + 1;
        assert(buffer@ =~= overlaid(before, bytes@.take(i as int)));
    }
    assert(bytes@.take(i as int) =~= bytes@);
}

/// A place in a received message.
#[derive(Clone, Copy, Debug)]
pub struct Reader<'a> {
    pub buffer: &'a [u8],
    pub offset: usize,
}

impl<'a> Reader<'a> {
    /// What is still to be read.
    pub open spec fn rest(self) -> Seq<u8> {
        if self.offset <= self.buffer@.len() {
            self.buffer@.skip(self.offset as int)
        } else {
            Seq::empty()
        }
    }

    /// The start of a message.
    pub fn init(buffer: &'a [u8]) -> (reader: Reader<'a>)
        ensures
            reader.buffer@ == buffer@,
            reader.offset == 0,
            reader.rest() == buffer@,
    {
        let reader = Reader { buffer, offset: 0 };
        assert(reader.rest() =~= buffer@);
        reader
    }

    /// How many bytes have been read.
    pub fn used(&self) -> (count: usize)
        ensures
            count == self.offset,
    {
        self.offset
    }

    /// Reads one byte.
    pub fn read_u8(&mut self) -> (byte: Option<u8>)
        ensures
            final(self).buffer@ == old(self).buffer@,
            old(self).rest().len() >= 1 ==> byte == Some(old(self).rest()[0])
                && final(self).offset == old(self).offset + 1,
            old(self).rest().len() < 1 ==> byte is None && final(self).offset
                == old(self).offset,
    {
        if self.offset < self.buffer.len() {
            let byte: u8 = self.buffer[self.offset];
            self.offset = self.offset + 1;
            Some(byte)
        } else {
            None
        }
    }

    /// Reads a number of two bytes.
    pub fn read_u16(&mut self) -> (value: Option<u16>)
        ensures
            final(self).buffer@ == old(self).buffer@,
            old(self).rest().len() >= 2 ==> value is Some && value->0 == le16_value(
                old(self).rest(),
            ) && final(self).offset == old(self).offset + 2,
            old(self).rest().len() < 2 ==> value is None && final(self).offset
                == old(self).offset,
    {
        if self.offset <= self.buffer.len() && self.buffer.len() - self.offset >= 2 {
            let low: u16 = self.buffer[self.offset] as u16;
            let high: u16 = self.buffer[self.offset + 1] as u16;
            self.offset = self.offset + 2;
            Some(low + 0x100 * high)
        } else {
            None
        }
    }

    /// Reads a number of four bytes.
    pub fn read_u32(&mut self) -> (value: Option<u32>)
        ensures
            final(self).buffer@ == old(self).buffer@,
            old(self).rest().len() >= 4 ==> value is Some && value->0 == le32_value(
                old(self).rest(),
            ) && final(self).offset == old(self).offset + 4,
            old(self).rest().len() < 4 ==> value is None && final(self).offset
                == old(self).offset,
    {
        if self.offset <= self.buffer.len() && self.buffer.len() - self.offset >= 4 {
            let b0: u32 = self.buffer[self.offset] as u32;
            let b1: u32 = self.buffer[self.offset + 1] as u32;
            let b2: u32 = self.buffer[self.offset + 2] as u32;
            let b3: u32 = self.buffer[self.offset + 3] as u32;
            self.offset = self.offset + 4;
            Some(b0 + 0x100 * b1 + 0x1_0000 * b2 + 0x100_0000 * b3)
        } else {
            None
        }
    }
}

/// A field of one byte.
pub fn field_u8(value: u8) -> (field: Vec<u8>)
    ensures
        field@ == seq![value],
{
    let mut field: Vec<u8> = Vec::new();
    field.push(value);
    assert(field@ =~= seq![value]);
    field
}

/// A field of two bytes.
pub fn field_u16(value: u16) -> (field: Vec<u8>)
    ensures
        field@ == le16(value),
{
    let mut field: Vec<u8> = Vec::new();
    field.push((value % 0x100) as u8);
    field.push((value / 0x100) as u8);
    assert(field@ =~= le16(value));
    field
}

/// A field of four bytes.
pub fn field_u32(value: u32) -> (field: Vec<u8>)
    ensures
        field@ == le32(value),
{
    let mut field: Vec<u8> = Vec::new();
    field.push((value % 0x100) as u8);
    field.push(((value / 0x100) % 0x100) as u8);
    field.push(((value / 0x1_0000) % 0x100) as u8);
    field.push((value / 0x100_0000) as u8);
    assert(field@ =~= le32(value));
    field
}

} // verus!
