//! Tests for the instruction codec and the record byte layout.

use counter_program::account::CounterAccount;
use counter_program::codec::CounterInstruction;
use counter_program::codec::DecodeError;

fn le64(v: u64) -> Vec<u8> {
    v.to_le_bytes().to_vec()
}

fn initialize_buffer(v: u64) -> Vec<u8> {
    let mut buffer = vec![0u8];
    buffer.extend_from_slice(&le64(v));
    buffer
}

#[test]
fn unpack_initialize() {
    let buffer = initialize_buffer(42);
    assert_eq!(
        CounterInstruction::unpack(&buffer),
        Ok(CounterInstruction::InitializeCounter { initial_value: 42 })
    );
}

#[test]
fn unpack_initialize_zero() {
    let buffer = initialize_buffer(0);
    assert_eq!(
        CounterInstruction::unpack(&buffer),
        Ok(CounterInstruction::InitializeCounter { initial_value: 0 })
    );
}

#[test]
fn unpack_initialize_max() {
    let buffer = initialize_buffer(u64::MAX);
    assert_eq!(
        CounterInstruction::unpack(&buffer),
        Ok(CounterInstruction::InitializeCounter {
            initial_value: u64::MAX
        })
    );
}

#[test]
fn unpack_increment() {
    assert_eq!(
        CounterInstruction::unpack(&[1]),
        Ok(CounterInstruction::IncrementCounter)
    );
}

#[test]
fn unpack_increment_ignores_trailing_bytes() {
    assert_eq!(
        CounterInstruction::unpack(&[1, 9, 8, 7]),
        Ok(CounterInstruction::IncrementCounter)
    );
}

#[test]
fn unpack_empty_buffer_fails() {
    assert_eq!(CounterInstruction::unpack(&[]), Err(DecodeError::Empty));
}

#[test]
fn unpack_short_payload_fails() {
    let buffer = vec![0u8, 1, 2, 3, 4, 5, 6, 7];
    assert_eq!(
        CounterInstruction::unpack(&buffer),
        Err(DecodeError::MalformedPayload)
    );
}

#[test]
fn unpack_long_payload_fails() {
    let mut buffer = initialize_buffer(42);
    buffer.push(0);
    assert_eq!(
        CounterInstruction::unpack(&buffer),
        Err(DecodeError::MalformedPayload)
    );
}

#[test]
fn unpack_unknown_variant_fails() {
    assert_eq!(
        CounterInstruction::unpack(&[2, 0, 0]),
        Err(DecodeError::UnknownVariant)
    );
    assert_eq!(
        CounterInstruction::unpack(&[255]),
        Err(DecodeError::UnknownVariant)
    );
}

#[test]
fn pack_initialize_exact_bytes() {
    let packed = CounterInstruction::InitializeCounter { initial_value: 42 }.pack();
    assert_eq!(packed, initialize_buffer(42));
}

#[test]
fn pack_increment_exact_bytes() {
    assert_eq!(CounterInstruction::IncrementCounter.pack(), vec![1u8]);
}

#[test]
fn pack_unpack_roundtrip() {
    let instructions = [
        CounterInstruction::InitializeCounter { initial_value: 0 },
        CounterInstruction::InitializeCounter { initial_value: 42 },
        CounterInstruction::InitializeCounter {
            initial_value: u64::MAX,
        },
        CounterInstruction::IncrementCounter,
    ];
    for instruction in instructions {
        assert_eq!(
            CounterInstruction::unpack(&instruction.pack()),
            Ok(instruction)
        );
    }
}

#[test]
fn unpack_pack_roundtrip() {
    let buffer = initialize_buffer(123_456_789);
    let decoded = CounterInstruction::unpack(&buffer).unwrap();
    assert_eq!(decoded.pack(), buffer);
}

#[test]
fn record_roundtrip() {
    let record = CounterAccount { count: 42 };
    let bytes = record.serialize_to_vec();
    assert_eq!(bytes, le64(42));
    assert_eq!(CounterAccount::try_from_slice(&bytes), Some(record));
}

#[test]
fn record_rejects_wrong_length() {
    assert_eq!(CounterAccount::try_from_slice(&[]), None);
    assert_eq!(CounterAccount::try_from_slice(&[0; 7]), None);
    assert_eq!(CounterAccount::try_from_slice(&[0; 9]), None);
}

#[test]
fn record_layout_matches_borsh() {
    let record = CounterAccount { count: 42 };
    assert_eq!(record.serialize_to_vec(), borsh::to_vec(&42u64).unwrap());
}

#[test]
fn instruction_layout_matches_borsh() {
    let packed = CounterInstruction::InitializeCounter { initial_value: 42 }.pack();
    assert_eq!(packed, borsh::to_vec(&(0u8, 42u64)).unwrap());
    let packed = CounterInstruction::IncrementCounter.pack();
    assert_eq!(packed, borsh::to_vec(&1u8).unwrap());
}
