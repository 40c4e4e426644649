//! The instruction codec: parses an opaque byte buffer into a typed
//! instruction value, and encodes instructions back to bytes.
//!
//! Wire format, byte-exact: the first byte is the discriminant (`0` selects
//! `InitializeCounter`, `1` selects `IncrementCounter`); an
//! `InitializeCounter` payload is exactly 8 bytes, an unsigned 64-bit
//! little-endian integer, immediately after the discriminant;
//! `IncrementCounter` carries no payload, and trailing bytes after its
//! discriminant are ignored.

use vstd::bytes::lemma_auto_spec_u64_to_from_le_bytes;
use vstd::bytes::spec_u64_from_le_bytes;
use vstd::bytes::spec_u64_to_le_bytes;
use vstd::bytes::u64_from_le_bytes;
use vstd::bytes::u64_to_le_bytes;
use vstd::prelude::*;
use vstd::slice::slice_subrange;

verus! {

/// Why a byte buffer failed to decode as an instruction.
#[derive(Debug, Clone, Copy, PartialEq, Eq, Structural)]
pub enum DecodeError {
    /// The buffer has zero length, so no discriminant byte is available.
    Empty,
    /// The discriminant selects `InitializeCounter`, but the remaining
    /// length is not exactly 8 bytes.
    MalformedPayload,
    /// The discriminant byte does not name any instruction.
    UnknownVariant,
}

/// An instruction this program can execute.
#[derive(Debug, Clone, Copy, PartialEq, Eq, Structural)]
pub enum CounterInstruction {
    /// Create the counter account and store `initial_value` in it.
    InitializeCounter { initial_value: u64 },
    /// Add one to the stored counter value.
    IncrementCounter,
}

/// What a byte buffer means as an instruction: the decoded instruction, or
/// the exact reason decoding fails.
pub open spec fn spec_unpack(input: Seq<u8>) -> Result<CounterInstruction, DecodeError> {
    if input.len() == 0 {
        Err(DecodeError::Empty)
    } else if input[0] == 0u8 {
        if input.len() == 9 {
            Ok(CounterInstruction::InitializeCounter {
                initial_value: spec_u64_from_le_bytes(input.skip(1)),
            })
        } else {
            Err(DecodeError::MalformedPayload)
        }
    } else if input[0] == 1u8 {
        Ok(CounterInstruction::IncrementCounter)
    } else {
        Err(DecodeError::UnknownVariant)
    }
}

/// The byte encoding of an instruction: the discriminant byte, followed by
/// the little-endian payload for `InitializeCounter`.
pub open spec fn spec_pack(instruction: CounterInstruction) -> Seq<u8> {
    match instruction {
        CounterInstruction::InitializeCounter { initial_value } => seq![0u8]
            + spec_u64_to_le_bytes(initial_value),
        CounterInstruction::IncrementCounter => seq![1u8],
    }
}

impl CounterInstruction {
    /// Decode an instruction from a byte buffer of arbitrary length.
    pub fn unpack(input: &[u8]) -> (result: Result<CounterInstruction, DecodeError>)
        ensures
            result == spec_unpack(input@),
    {
        if input.len() == 0 {
            return Err(DecodeError::Empty);
        }
        let variant: u8 = input[0];
        if variant == 0 {
            if input.len() != 9 {
                return Err(DecodeError::MalformedPayload);
            }
            let payload = slice_subrange(input, 1, 9);
            let initial_value = u64_from_le_bytes(payload);
            Ok(CounterInstruction::InitializeCounter { initial_value })
        } else if variant == 1 {
            Ok(CounterInstruction::IncrementCounter)
        } else {
            Err(DecodeError::UnknownVariant)
        }
    }

    /// Encode an instruction to the exact byte buffer that [`unpack`]
    /// decodes it from.
    ///
    /// [`unpack`]: CounterInstruction::unpack
    pub fn pack(&self) -> (result: Vec<u8>)
        ensures
            result@ == spec_pack(*self),
    {
        match self {
            CounterInstruction::InitializeCounter { initial_value } => {
                let mut out: Vec<u8> = Vec::new();
                out.push(0u8);
                let mut payload = u64_to_le_bytes(*initial_value);
                out.append(&mut payload);
                out
            },
            CounterInstruction::IncrementCounter => {
                let mut out: Vec<u8> = Vec::new();
                out.push(1u8);
                out
            },
        }
    }
}

/// Law: decoding the encoding of any instruction gives that instruction
/// back, so every instruction value survives a round trip through the wire
/// format.
pub proof fn lemma_pack_unpack(instruction: CounterInstruction)
    ensures
        spec_unpack(spec_pack(instruction)) == Ok::<CounterInstruction, DecodeError>(instruction),
{
    lemma_auto_spec_u64_to_from_le_bytes();
    match instruction {
        CounterInstruction::InitializeCounter { initial_value } => {
            let encoded = spec_pack(instruction);
            assert(encoded.skip(1) =~= spec_u64_to_le_bytes(initial_value));
        },
        CounterInstruction::IncrementCounter => {},
    }
}

/// Law: every buffer whose first byte is the `IncrementCounter`
/// discriminant decodes to `IncrementCounter`, whatever bytes trail it.
pub proof fn lemma_increment_decodes(input: Seq<u8>)
    requires
        input.len() >= 1,
        input[0] == 1u8,
    ensures
        spec_unpack(input) == Ok::<CounterInstruction, DecodeError>(
            CounterInstruction::IncrementCounter,
        ),
{
}

/// Law: every well-formed `InitializeCounter` buffer (a zero discriminant
/// byte followed by exactly 8 payload bytes) decodes successfully, and
/// re-encoding the decoded instruction reproduces the buffer byte for byte.
pub proof fn lemma_unpack_pack(input: Seq<u8>)
    requires
        input.len() == 9,
        input[0] == 0u8,
    ensures
        spec_unpack(input) is Ok,
        spec_pack(spec_unpack(input)->Ok_0) == input,
{
    lemma_auto_spec_u64_to_from_le_bytes();
    let decoded = spec_unpack(input)->Ok_0;
    assert(spec_pack(decoded) =~= input);
}

} // verus!
