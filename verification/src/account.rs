//! The persisted counter record and its byte layout.
//!
//! An account owned by this program stores exactly one `CounterRecord`:
//! a single unsigned 64-bit count, serialized as exactly 8 bytes
//! little-endian with no padding, tag, or version byte.

use vstd::bytes::lemma_auto_spec_u64_to_from_le_bytes;
use vstd::bytes::spec_u64_from_le_bytes;
use vstd::bytes::spec_u64_to_le_bytes;
use vstd::bytes::u64_from_le_bytes;
use vstd::bytes::u64_to_le_bytes;
use vstd::prelude::*;

verus! {

/// The counter account's persisted payload: a single unsigned 64-bit count.
#[derive(Debug, Clone, Copy, PartialEq, Eq, Structural)]
pub struct CounterAccount {
    /// The stored counter value.
    pub count: u64,
}

/// What an account data buffer means as a counter record: a record holding
/// the little-endian value of its 8 bytes, or a malformed-data failure when
/// the buffer is not exactly 8 bytes long.
pub open spec fn spec_record_from_bytes(data: Seq<u8>) -> Option<CounterAccount> {
    if data.len() == 8 {
        Some(CounterAccount { count: spec_u64_from_le_bytes(data) })
    } else {
        None
    }
}

/// The byte layout of a counter record: its count as exactly 8 bytes,
/// little-endian.
pub open spec fn spec_record_bytes(record: CounterAccount) -> Seq<u8> {
    spec_u64_to_le_bytes(record.count)
}

impl CounterAccount {
    /// Deserialize a counter record from an account data buffer; fails
    /// (with `None`) unless the buffer is exactly 8 bytes long.
    pub fn try_from_slice(data: &[u8]) -> (result: Option<CounterAccount>)
        ensures
            result == spec_record_from_bytes(data@),
    {
        if data.len() != 8 {
            return None;
        }
        let count = u64_from_le_bytes(data);
        Some(CounterAccount { count })
    }

    /// Serialize this record to its exact 8-byte little-endian layout.
    pub fn serialize_to_vec(&self) -> (result: Vec<u8>)
        ensures
            result@ == spec_record_bytes(*self),
            result@.len() == 8,
    {
        u64_to_le_bytes(self.count)
    }
}

/// Law: every counter record survives a round trip through its byte
/// layout — serializing it gives exactly 8 bytes, and deserializing those
/// bytes gives the record back.
pub proof fn lemma_record_to_from(record: CounterAccount)
    ensures
        spec_record_bytes(record).len() == 8,
        spec_record_from_bytes(spec_record_bytes(record)) == Some(record),
{
    lemma_auto_spec_u64_to_from_le_bytes();
}

/// Law: every 8-byte buffer survives a round trip through the record it
/// denotes — deserializing it succeeds, and re-serializing the record
/// reproduces the buffer byte for byte.
pub proof fn lemma_record_from_to(data: Seq<u8>)
    requires
        data.len() == 8,
    ensures
        spec_record_from_bytes(data) is Some,
        spec_record_bytes(spec_record_from_bytes(data)->Some_0) == data,
{
    lemma_auto_spec_u64_to_from_le_bytes();
}

} // verus!
