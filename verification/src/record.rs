//! Title records and the decoder that reads them out of a byte buffer.
//!
//! A stored record is twelve bytes: a big-endian 64-bit title identifier, two
//! reserved bytes that carry no meaning, and a big-endian 16-bit install slot.

use crate::error::Error;
use vstd::prelude::*;

verus! {

/// Bytes that one stored record occupies.
pub const RECORD_LEN: usize = 12;

/// The slot that stands for install index zero: lower slots belong to the system.
pub const FIRST_USER_SLOT: u16 = 4095;

/// One decoded record: a title and the slot it was installed in.
#[derive(Clone, Copy, Debug, PartialEq, Eq, Structural)]
pub struct TitleRecord {
    /// The title identifier: category in the high half, code in the low half.
    pub title_id: u64,
    /// The slot number as stored.
    pub install_slot: u16,
}

/// The number that eight bytes spell, most significant byte first.
pub open spec fn be_u64(bytes: Seq<u8>) -> u64
    recommends
        bytes.len() == 8,
{
    (bytes[0] * 0x0100_0000_0000_0000 + bytes[1] * 0x0001_0000_0000_0000 + bytes[2]
        * 0x0000_0100_0000_0000 + bytes[3] * 0x0000_0001_0000_0000 + bytes[4] * 0x0100_0000
        + bytes[5] * 0x0001_0000 + bytes[6] * 0x0100 + bytes[7]) as u64
}

/// The number that two bytes spell, most significant byte first.
pub open spec fn be_u16(bytes: Seq<u8>) -> u16
    recommends
        bytes.len() == 2,
{
    (bytes[0] * 0x0100 + bytes[1]) as u16
}

/// The eight bytes that spell `value`, most significant byte first.
pub open spec fn be_bytes_u64(value: u64) -> Seq<u8> {
    seq![
        (value / 0x0100_0000_0000_0000 % 0x100) as u8,
        (value / 0x0001_0000_0000_0000 % 0x100) as u8,
        (value / 0x0000_0100_0000_0000 % 0x100) as u8,
        (value / 0x0000_0001_0000_0000 % 0x100) as u8,
        (value / 0x0100_0000 % 0x100) as u8,
        (value / 0x0001_0000 % 0x100) as u8,
        (value / 0x0100 % 0x100) as u8,
        (value % 0x100) as u8,
    ]
}

/// The two bytes that spell `value`, most significant byte first.
pub open spec fn be_bytes_u16(value: u16) -> Seq<u8> {
    seq![(value / 0x0100 % 0x100) as u8, (value % 0x100) as u8]
}

/// The record that a twelve-byte chunk holds. Bytes 8 and 9 are not read.
pub open spec fn record_of(chunk: Seq<u8>) -> TitleRecord
    recommends
        chunk.len() == 12,
{
    TitleRecord {
        title_id: be_u64(chunk.subrange(0, 8)),
        install_slot: be_u16(chunk.subrange(10, 12)),
    }
}

/// The `index`-th twelve-byte chunk of a buffer.
pub open spec fn chunk_at(buffer: Seq<u8>, index: int) -> Seq<u8>
    recommends
        0 <= index,
        12 * index + 12 <= buffer.len(),
{
    buffer.subrange(12 * index, 12 * index + 12)
}

/// The records of a buffer whose length is a multiple of twelve, in buffer order.
pub open spec fn decoded(buffer: Seq<u8>) -> Seq<TitleRecord>
    recommends
        buffer.len() % 12 == 0,
{
    Seq::new((buffer.len() / 12) as nat, |index: int| record_of(chunk_at(buffer, index)))
}

/// The twelve bytes that store a record, with both reserved bytes zero.
pub open spec fn encoded(record: TitleRecord) -> Seq<u8> {
    be_bytes_u64(record.title_id) + seq![0u8, 0u8] + be_bytes_u16(record.install_slot)
}

impl TitleRecord {
    /// The high half of the title identifier.
    pub open spec fn spec_category(&self) -> u32 {
        (self.title_id / 0x1_0000_0000) as u32
    }

    /// The low half of the title identifier.
    pub open spec fn spec_code(&self) -> u32 {
        (self.title_id % 0x1_0000_0000) as u32
    }

    /// The install slot counted from the first slot that is not reserved.
    /// Negative for a reserved slot.
    pub open spec fn spec_install_index(&self) -> i32 {
        (self.install_slot - FIRST_USER_SLOT) as i32
    }

    /// The category: the high 32 bits of the title identifier.
    #[verifier::when_used_as_spec(spec_category)]
    pub fn category(&self) -> (category: u32)
        ensures
            category == self.spec_category(),
    {
        (self.title_id / 0x1_0000_0000) as u32
    }

    /// The code: the low 32 bits of the title identifier.
    #[verifier::when_used_as_spec(spec_code)]
    pub fn code(&self) -> (code: u32)
        ensures
            code == self.spec_code(),
    {
        (self.title_id % 0x1_0000_0000) as u32
    }

    /// The install index shown to the user: the slot less the reserved ones.
    #[verifier::when_used_as_spec(spec_install_index)]
    pub fn install_index(&self) -> (index: i32)
        ensures
            index == self.spec_install_index(),
            index == self.install_slot - 4095,
    {
        self.install_slot as i32 - FIRST_USER_SLOT as i32
    }
}

/// Reads the record stored at `offset` in `buffer`.
fn read_record(buffer: &[u8], offset: usize) -> (record: TitleRecord)
    requires
        offset + 12 <= buffer@.len(),
    ensures
        record == record_of(buffer@.subrange(offset as int, offset + 12)),
{
    let high: u64 = buffer[offset] as u64 * 0x0100_0000 + buffer[offset + 1] as u64 * 0x0001_0000
        + buffer[offset + 2] as u64 * 0x0100 + buffer[offset + 3] as u64;
    let low: u64 = buffer[offset + 4] as u64 * 0x0100_0000 + buffer[offset + 5] as u64
        * 0x0001_0000 + buffer[offset + 6] as u64 * 0x0100 + buffer[offset + 7] as u64;
    let install_slot: u16 = buffer[offset + 10] as u16 * 0x0100 + buffer[offset + 11] as u16;
    TitleRecord { title_id: high * 0x1_0000_0000 + low, install_slot }
}

impl From<&[u8; 12]> for TitleRecord {
    /// Reads the record that one twelve-byte chunk holds.
    fn from(chunk: &[u8; 12]) -> (record: TitleRecord) {
        let bytes = chunk.as_slice();
        assert(bytes@.subrange(0, 12) =~= chunk@);
        read_record(bytes, 0)
    }
}

impl vstd::std_specs::convert::FromSpecImpl<&[u8; 12]> for TitleRecord {
    open spec fn obeys_from_spec() -> bool {
        true
    }

    open spec fn from_spec(chunk: &[u8; 12]) -> TitleRecord {
        record_of(chunk@)
    }
}

/// Decodes a whole buffer into its records, in buffer order.
///
/// A buffer whose length is not a multiple of twelve is refused as a whole:
/// no record of it is returned.
pub fn decode(buffer: &[u8]) -> (result: Result<Vec<TitleRecord>, Error>)
    ensures
        buffer@.len() % 12 == 0 ==> (result matches Ok(records) && records@ == decoded(buffer@)),
        buffer@.len() % 12 != 0 ==> result == Err::<Vec<TitleRecord>, Error>(
            Error::MalformedRecordLength,
        ),
{
    let len: usize = buffer.len();
    if len % RECORD_LEN != 0 {
        return Err(Error::MalformedRecordLength);
    }
    let count: usize = len / RECORD_LEN;
    let mut records: Vec<TitleRecord> = Vec::with_capacity(count);
    let mut index: usize = 0;
    while index < count
        invariant
            buffer@.len() == len == 12 * count,
            index <= count,
            records@.len() == index,
            forall|k: int| 0 <= k < index ==> records@[k] == record_of(chunk_at(buffer@, k)),
        decreases count - index,
    {
        let record = read_record(buffer, index * 12);
        records.push(record);
        index += 1;
    }
    assert(records@ =~= decoded(buffer@));
    Ok(records)
}

/// A buffer of whole records decodes to one record for every twelve bytes,
/// in buffer order, each read from its own bytes: the identifier from the
/// first eight, the slot from the last two.
pub proof fn lemma_decoded_records(buffer: Seq<u8>, index: int)
    requires
        buffer.len() % 12 == 0,
        0 <= index < buffer.len() / 12,
    ensures
        decoded(buffer).len() == buffer.len() / 12,
        decoded(buffer)[index].title_id == be_u64(buffer.subrange(12 * index, 12 * index + 8)),
        decoded(buffer)[index].install_slot == be_u16(
            buffer.subrange(12 * index + 10, 12 * index + 12),
        ),
{
    let chunk = chunk_at(buffer, index);
    assert(chunk.subrange(0, 8) =~= buffer.subrange(12 * index, 12 * index + 8));
    assert(chunk.subrange(10, 12) =~= buffer.subrange(12 * index + 10, 12 * index + 12));
}

/// Reading back the eight bytes that spell a number gives the number.
pub proof fn lemma_be_u64_of_bytes(value: u64)
    ensures
        be_u64(be_bytes_u64(value)) == value,
{
    assert(value / 0x0100_0000_0000_0000 % 0x100 * 0x0100_0000_0000_0000 + value
        / 0x0001_0000_0000_0000 % 0x100 * 0x0001_0000_0000_0000 + value / 0x0000_0100_0000_0000
        % 0x100 * 0x0000_0100_0000_0000 + value / 0x0000_0001_0000_0000 % 0x100
        * 0x0000_0001_0000_0000 + value / 0x0100_0000 % 0x100 * 0x0100_0000 + value / 0x0001_0000
        % 0x100 * 0x0001_0000 + value / 0x0100 % 0x100 * 0x0100 + value % 0x100 == value)
        by (bit_vector);
}

/// Reading back the two bytes that spell a number gives the number.
pub proof fn lemma_be_u16_of_bytes(value: u16)
    ensures
        be_u16(be_bytes_u16(value)) == value,
{
}

/// Decoding the stored form of a record gives the record back.
pub proof fn lemma_decode_encoded(record: TitleRecord)
    ensures
        encoded(record).len() == 12,
        record_of(encoded(record)) == record,
        decoded(encoded(record)) == seq![record],
{
    let bytes = encoded(record);
    assert(bytes.subrange(0, 8) =~= be_bytes_u64(record.title_id));
    assert(bytes.subrange(10, 12) =~= be_bytes_u16(record.install_slot));
    lemma_be_u64_of_bytes(record.title_id);
    lemma_be_u16_of_bytes(record.install_slot);
    assert(chunk_at(bytes, 0) =~= bytes);
    assert(decoded(bytes) =~= seq![record]);
}

} // verus!
