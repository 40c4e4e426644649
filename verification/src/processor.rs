//! The state-transition handler: validates an instruction against a set of
//! account handles, creates or mutates the counter account's data, and
//! reports a typed failure otherwise.
//!
//! Accounts are modelled as plain values: the owner identity recorded
//! against the account, its balance, and its mutable data buffer. The host
//! environment hands the handler these values for the duration of one
//! operation (together with the rent collaborator's answer for an 8-byte
//! account) and writes the results back to its own storage.

use crate::account::lemma_record_to_from;
use crate::account::spec_record_bytes;
use crate::account::spec_record_from_bytes;
use crate::account::CounterAccount;
use crate::codec::spec_unpack;
use crate::codec::CounterInstruction;
use crate::codec::DecodeError;
use vstd::bytes::spec_u64_from_le_bytes;
use vstd::bytes::spec_u64_to_le_bytes;
use vstd::prelude::*;

verus! {

broadcast use vstd::array::group_array_axioms;

/// A 32-byte identity: the address of an account, or the identity recorded
/// against an account as its owner.
#[derive(Debug, Clone, Copy, PartialEq, Eq)]
pub struct Pubkey {
    /// The raw bytes of the identity.
    pub bytes: [u8; 32],
}

impl Pubkey {
    /// Whether two identities are the same, byte for byte.
    pub fn key_eq(&self, other: &Pubkey) -> (result: bool)
        ensures
            result == (*self == *other),
    {
        let mut i: usize = 0;
        while i < 32
            invariant
                i <= 32,
                forall|j: int| 0 <= j < i ==> self.bytes@[j] == other.bytes@[j],
            decreases 32 - i,
        {
            if self.bytes[i] != other.bytes[i] {
                return false;
            }
            i += 1;
        }
        proof {
            assert(self.bytes =~= other.bytes);
        }
        true
    }
}

/// Why an operation failed, including the decode failures surfaced
/// unchanged by the dispatch layer.
#[derive(Debug, Clone, Copy, PartialEq, Eq, Structural)]
pub enum CounterError {
    /// The instruction buffer failed to decode; carries the codec's reason.
    InvalidInstruction(DecodeError),
    /// The increment target is not owned by this program's identity.
    IncorrectOwner,
    /// The account's data is not exactly an 8-byte counter record.
    MalformedAccountData,
    /// The stored count is already the maximum representable value.
    Overflow,
    /// The allocator refused to create an account that already has
    /// allocated space or existing data.
    AccountAlreadyInUse,
    /// The payer's balance cannot fund the requested amount.
    InsufficientFunds,
    /// The allocator could not complete the transfer: the target's balance
    /// would exceed the representable range.
    AllocationFailed,
}

/// The model of one account handle: an owner identity, a balance, and a
/// mutable data buffer. The host owns the storage underneath; the handler
/// holds these values only for the duration of one operation.
#[derive(Debug, Clone, PartialEq, Eq)]
pub struct AccountView {
    /// The identity recorded against the account, authorized to mutate its
    /// data.
    pub owner: Pubkey,
    /// The account's balance.
    pub lamports: u64,
    /// The account's data buffer.
    pub data: Vec<u8>,
}

/// When the allocator accepts a creation request: the target has no
/// allocated space or existing data, the payer can fund the amount, and the
/// target's balance stays representable.
pub open spec fn create_accepted(payer: AccountView, target: AccountView, lamports: u64) -> bool {
    &&& target.data@.len() == 0
    &&& payer.lamports >= lamports
    &&& target.lamports + lamports <= u64::MAX
}

/// Which error a refused creation request reports, if and only if its
/// condition holds.
pub open spec fn create_error(
    payer: AccountView,
    target: AccountView,
    lamports: u64,
    e: CounterError,
) -> bool {
    &&& (e == CounterError::AccountAlreadyInUse <==> target.data@.len() != 0)
    &&& (e == CounterError::InsufficientFunds <==> target.data@.len() == 0 && payer.lamports
        < lamports)
    &&& (e == CounterError::AllocationFailed <==> target.data@.len() == 0 && payer.lamports
        >= lamports && target.lamports + lamports > u64::MAX)
}

/// The model of the host's account-allocation collaborator: one atomic
/// operation that allocates a zeroed account of `space` bytes at the target,
/// funds it from the payer, and records `owner` as the target's owner.
///
/// An account that already has allocated space or existing data is rejected
/// as a collision, never silently overwritten; on any failure both accounts
/// are left unchanged.
pub fn create_account(
    payer: &mut AccountView,
    target: &mut AccountView,
    lamports: u64,
    space: u64,
    owner: &Pubkey,
) -> (result: Result<(), CounterError>)
    requires
        space <= usize::MAX as u64,
    ensures
        result is Ok <==> create_accepted(*old(payer), *old(target), lamports),
        match result {
            Ok(()) => {
                &&& final(payer).owner == old(payer).owner
                &&& final(payer).lamports == old(payer).lamports - lamports
                &&& final(payer).data@ == old(payer).data@
                &&& final(target).owner == *owner
                &&& final(target).lamports == old(target).lamports + lamports
                &&& final(target).data@ == Seq::<u8>::new(space as nat, |i: int| 0u8)
            },
            Err(e) => {
                &&& *final(payer) == *old(payer)
                &&& *final(target) == *old(target)
                &&& create_error(*old(payer), *old(target), lamports, e)
            },
        },
{
    if target.data.len() != 0 {
        return Err(CounterError::AccountAlreadyInUse);
    }
    if payer.lamports < lamports {
        return Err(CounterError::InsufficientFunds);
    }
    let funded = match target.lamports.checked_add(lamports) {
        Some(v) => v,
        None => {
            return Err(CounterError::AllocationFailed);
        },
    };
    payer.lamports = payer.lamports - lamports;
    target.lamports = funded;
    target.owner = *owner;
    let space_len = space as usize;
    let mut zeroed: Vec<u8> = Vec::new();
    while zeroed.len() < space_len
        invariant
            zeroed@.len() <= space_len,
            forall|i: int| 0 <= i < zeroed@.len() ==> zeroed@[i] == 0u8,
        decreases space_len - zeroed.len(),
    {
        zeroed.push(0u8);
    }
    proof {
        assert(zeroed@ =~= Seq::<u8>::new(space as nat, |i: int| 0u8));
    }
    target.data = zeroed;
    Ok(())
}

/// When the initialize operation is owed success: exactly when the
/// allocator accepts the creation request for the counter account.
pub open spec fn initialize_accepted(
    counter: AccountView,
    payer: AccountView,
    lamports: u64,
) -> bool {
    create_accepted(payer, counter, lamports)
}

/// The two accounts after a successful initialize with `initial_value`:
/// the counter account is owned by this program, funded with the requested
/// amount, and holds exactly the 8-byte record of `initial_value`; the
/// payer paid that amount and is otherwise unchanged.
pub open spec fn initialize_transition(
    program_id: Pubkey,
    pre_counter: AccountView,
    pre_payer: AccountView,
    post_counter: AccountView,
    post_payer: AccountView,
    initial_value: u64,
    lamports: u64,
) -> bool {
    &&& post_counter.owner == program_id
    &&& post_counter.lamports == pre_counter.lamports + lamports
    &&& post_counter.data@ == spec_record_bytes(CounterAccount { count: initial_value })
    &&& post_payer.owner == pre_payer.owner
    &&& post_payer.lamports == pre_payer.lamports - lamports
    &&& post_payer.data@ == pre_payer.data@
}

/// Create the counter account and store `initial_value` in it.
///
/// The creation itself is one atomic step of the allocation collaborator;
/// `required_lamports` is the rent collaborator's answer for an 8-byte
/// account, obtained by the caller. Any allocator failure is surfaced
/// unchanged and leaves both accounts untouched.
pub fn process_initialize_counter(
    program_id: &Pubkey,
    counter_account: &mut AccountView,
    payer_account: &mut AccountView,
    initial_value: u64,
    required_lamports: u64,
) -> (result: Result<(), CounterError>)
    ensures
        result is Ok <==> initialize_accepted(
            *old(counter_account),
            *old(payer_account),
            required_lamports,
        ),
        match result {
            Ok(()) => initialize_transition(
                *program_id,
                *old(counter_account),
                *old(payer_account),
                *final(counter_account),
                *final(payer_account),
                initial_value,
                required_lamports,
            ),
            Err(e) => {
                &&& *final(counter_account) == *old(counter_account)
                &&& *final(payer_account) == *old(payer_account)
                &&& create_error(*old(payer_account), *old(counter_account), required_lamports, e)
            },
        },
{
    match create_account(payer_account, counter_account, required_lamports, 8, program_id) {
        Ok(()) => {},
        Err(e) => {
            return Err(e);
        },
    }
    let record = CounterAccount { count: initial_value };
    counter_account.data = record.serialize_to_vec();
    Ok(())
}

/// When the increment operation is owed success: the counter account is
/// owned by this program, holds an 8-byte record, and the stored count is
/// below the maximum representable value.
pub open spec fn increment_accepted(program_id: Pubkey, counter: AccountView) -> bool {
    &&& counter.owner == program_id
    &&& counter.data@.len() == 8
    &&& spec_u64_from_le_bytes(counter.data@) < u64::MAX
}

/// The counter account after a successful increment: the stored record's
/// count is one more than before, re-serialized in place in the same
/// 8-byte layout; owner and balance are unchanged.
pub open spec fn increment_transition(pre: AccountView, post: AccountView) -> bool {
    &&& post.owner == pre.owner
    &&& post.lamports == pre.lamports
    &&& post.data@ == spec_u64_to_le_bytes((spec_u64_from_le_bytes(pre.data@) + 1) as u64)
}

/// Which error a failed increment reports, if and only if its condition
/// holds: an ownership mismatch is reported first, then malformed data,
/// then overflow of the stored count.
pub open spec fn increment_error(
    program_id: Pubkey,
    counter: AccountView,
    e: CounterError,
) -> bool {
    &&& (e == CounterError::IncorrectOwner <==> counter.owner != program_id)
    &&& (e == CounterError::MalformedAccountData <==> counter.owner == program_id
        && counter.data@.len() != 8)
    &&& (e == CounterError::Overflow <==> counter.owner == program_id && counter.data@.len() == 8
        && spec_u64_from_le_bytes(counter.data@) == u64::MAX)
}

/// Add one to the counter stored in the account's data.
///
/// The sole authorization check in the system: the account's recorded owner
/// must equal this program's identity. The stored count is incremented with
/// overflow-detecting addition — no wraparound is permitted — and any
/// failure leaves the account unchanged.
pub fn process_increment_counter(
    program_id: &Pubkey,
    counter_account: &mut AccountView,
) -> (result: Result<(), CounterError>)
    ensures
        result is Ok <==> increment_accepted(*program_id, *old(counter_account)),
        match result {
            Ok(()) => increment_transition(*old(counter_account), *final(counter_account)),
            Err(e) => {
                &&& *final(counter_account) == *old(counter_account)
                &&& increment_error(*program_id, *old(counter_account), e)
            },
        },
{
    if !counter_account.owner.key_eq(program_id) {
        return Err(CounterError::IncorrectOwner);
    }
    let record = match CounterAccount::try_from_slice(counter_account.data.as_slice()) {
        Some(record) => record,
        None => {
            return Err(CounterError::MalformedAccountData);
        },
    };
    let new_count = match record.count.checked_add(1) {
        Some(count) => count,
        None => {
            return Err(CounterError::Overflow);
        },
    };
    let updated = CounterAccount { count: new_count };
    counter_account.data = updated.serialize_to_vec();
    Ok(())
}

/// Decode an instruction buffer and route it to the matching handler.
///
/// A decode failure is surfaced unchanged, wrapped as
/// `CounterError::InvalidInstruction`, and mutates nothing. An
/// `InitializeCounter` instruction acts on the counter and payer accounts;
/// an `IncrementCounter` instruction acts on the counter account alone.
pub fn process_instruction(
    program_id: &Pubkey,
    counter_account: &mut AccountView,
    payer_account: &mut AccountView,
    instruction_data: &[u8],
    required_lamports: u64,
) -> (result: Result<(), CounterError>)
    ensures
        match spec_unpack(instruction_data@) {
            Err(e) => {
                &&& result == Err::<(), CounterError>(CounterError::InvalidInstruction(e))
                &&& *final(counter_account) == *old(counter_account)
                &&& *final(payer_account) == *old(payer_account)
            },
            Ok(instruction) => match instruction {
                CounterInstruction::InitializeCounter { initial_value } => {
                    &&& (result is Ok <==> initialize_accepted(
                        *old(counter_account),
                        *old(payer_account),
                        required_lamports,
                    ))
                    &&& (result is Ok ==> initialize_transition(
                        *program_id,
                        *old(counter_account),
                        *old(payer_account),
                        *final(counter_account),
                        *final(payer_account),
                        initial_value,
                        required_lamports,
                    ))
                    &&& (result is Err ==> *final(counter_account) == *old(counter_account)
                        && *final(payer_account) == *old(payer_account) && create_error(
                        *old(payer_account),
                        *old(counter_account),
                        required_lamports,
                        result->Err_0,
                    ))
                },
                CounterInstruction::IncrementCounter => {
                    &&& *final(payer_account) == *old(payer_account)
                    &&& (result is Ok <==> increment_accepted(*program_id, *old(counter_account)))
                    &&& (result is Ok ==> increment_transition(
                        *old(counter_account),
                        *final(counter_account),
                    ))
                    &&& (result is Err ==> *final(counter_account) == *old(counter_account)
                        && increment_error(*program_id, *old(counter_account), result->Err_0))
                },
            },
        },
{
    let instruction = match CounterInstruction::unpack(instruction_data) {
        Ok(instruction) => instruction,
        Err(e) => {
            return Err(CounterError::InvalidInstruction(e));
        },
    };
    match instruction {
        CounterInstruction::InitializeCounter { initial_value } => process_initialize_counter(
            program_id,
            counter_account,
            payer_account,
            initial_value,
            required_lamports,
        ),
        CounterInstruction::IncrementCounter => process_increment_counter(
            program_id,
            counter_account,
        ),
    }
}

/// Law: initialize then read — after a successful initialize with value
/// `v`, deserializing the counter account's data yields the record holding
/// exactly `v`.
pub proof fn lemma_initialize_then_read(
    program_id: Pubkey,
    pre_counter: AccountView,
    pre_payer: AccountView,
    post_counter: AccountView,
    post_payer: AccountView,
    initial_value: u64,
    lamports: u64,
)
    requires
        initialize_transition(
            program_id,
            pre_counter,
            pre_payer,
            post_counter,
            post_payer,
            initial_value,
            lamports,
        ),
    ensures
        spec_record_from_bytes(post_counter.data@) == Some(
            CounterAccount { count: initial_value },
        ),
{
    lemma_record_to_from(CounterAccount { count: initial_value });
}

/// Law: increment is a pure +1 on the stored record — a successful
/// increment of an account whose record holds `v` (with `v` below the
/// maximum) leaves an account whose record holds exactly `v + 1`.
pub proof fn lemma_increment_adds_one(pre: AccountView, post: AccountView, v: u64)
    requires
        spec_record_from_bytes(pre.data@) == Some(CounterAccount { count: v }),
        v < u64::MAX,
        increment_transition(pre, post),
    ensures
        spec_record_from_bytes(post.data@) == Some(CounterAccount { count: (v + 1) as u64 }),
{
    lemma_record_to_from(CounterAccount { count: v });
    lemma_record_to_from(CounterAccount { count: (v + 1) as u64 });
}

} // verus!
