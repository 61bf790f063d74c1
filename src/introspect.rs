//! Confirms that an earlier operation of the current transaction went through
//! the rate limiter with the expected policy.
use crate::forward::AccountRef;
use crate::key::{derive_policy_address, keys_equal, policy_address, Key, VALVE_ID};
use crate::state::{Failure, ValveError};
use anchor_lang::solana_program::sanitize::SanitizeError;
use anchor_lang::solana_program::sysvar::instructions;
use vstd::prelude::*;

verus! {

/// One operation of a transaction.
#[derive(Clone, Debug)]
pub struct Operation {
    pub program_id: Key,
    pub accounts: Vec<AccountRef>,
    pub data: Vec<u8>,
}

/// Why an operation could not be read from a transaction's list.
#[derive(Clone, Copy, Debug, PartialEq, Eq, Structural)]
pub enum LoadError {
    /// The index lies past the last operation (or the list is cut short).
    PastEnd,
    /// The list does not decode.
    Malformed,
}

/// An operation addressed to the rate limiter that carries `policy` in its
/// third account slot.
pub open spec fn op_matches(program_id: Seq<u8>, accounts: Seq<AccountRef>, policy: Seq<u8>) -> bool {
    &&& program_id == VALVE_ID@
    &&& accounts.len() > 2
    &&& accounts[2].key@ == policy
}

/// Whether one of the first `current_index` operations of `ops` matches.
pub open spec fn preceded_by(ops: Seq<Operation>, current_index: int, policy: Seq<u8>) -> bool {
    exists|i: int|
        0 <= i < current_index && i < ops.len() && op_matches(
            (#[trigger] ops[i]).program_id@,
            ops[i].accounts@,
            policy,
        )
}

fn op_is_for(op: &Operation, policy: &Key) -> (r: bool)
    ensures
        r == op_matches(op.program_id@, op.accounts@, policy@),
{
    keys_equal(&op.program_id, &VALVE_ID) && op.accounts.len() > 2 && keys_equal(
        &op.accounts[2].key,
        policy,
    )
}

/// Succeeds iff an operation before position `current_index` of `ops` is
/// addressed to the rate limiter and carries the policy of
/// `(program, endpoint)` in its third account slot, whichever entry point it
/// invoked; fails with `Unchecked` otherwise.
pub fn verify_operations(ops: &Vec<Operation>, current_index: usize, program: &Key, endpoint: u32) -> (r: Result<(), Failure>)
    ensures
        policy_address(program@, endpoint) is None ==> r == Err::<(), Failure>(Failure::NoViableAddress),
        policy_address(program@, endpoint) is Some ==> r == if preceded_by(
            ops@,
            current_index as int,
            policy_address(program@, endpoint)->Some_0.0,
        ) {
            Ok::<(), Failure>(())
        } else {
            Err(Failure::Valve(ValveError::Unchecked))
        },
{
    let expected = match derive_policy_address(program, endpoint) {
        None => return Err(Failure::NoViableAddress),
        Some((k, _)) => k,
    };
    let mut i: usize = 0;
    while i < current_index && i < ops.len()
        invariant
            i <= ops@.len(),
            policy_address(program@, endpoint) is Some,
            policy_address(program@, endpoint)->Some_0.0 == expected@,
            forall|j: int| 0 <= j < i ==> !op_matches(
                (#[trigger] ops@[j]).program_id@,
                ops@[j].accounts@,
                expected@,
            ),
        decreases ops@.len() - i,
    {
        if op_is_for(&ops[i], &expected) {
            return Ok(());
        }
        i = i + 1;
    }
    Err(Failure::Valve(ValveError::Unchecked))
}

/// What the runtime's instruction list `data` holds at `index`: the program
/// id, the accounts and the data of that operation.
pub uninterp spec fn instruction_at(data: Seq<u8>, index: int) -> Result<(Seq<u8>, Seq<AccountRef>, Seq<u8>), LoadError>;

/// The position of the executing operation: the last two bytes of `data`,
/// little-endian.
pub open spec fn current_index_of(data: Seq<u8>) -> int {
    data[data.len() - 2] as int + 256 * data[data.len() - 1] as int
}

/// Relies on `sysvar::instructions::load_current_index`, which reads the last
/// two bytes of the instruction list as a little-endian `u16` (and panics on a
/// shorter list).
#[verifier::external_body]
#[allow(deprecated)]
fn load_current_index(data: &Vec<u8>) -> (r: u16)
    requires
        data@.len() >= 2,
    ensures
        r as int == current_index_of(data@),
{
    instructions::load_current_index(data)
}

/// Relies on `sysvar::instructions::load_instruction_at`, which decodes the
/// operation at `index` of the instruction list; an index past the end (or a
/// list cut short) is its `IndexOutOfBounds`.
#[verifier::external_body]
#[allow(deprecated)]
fn load_operation(index: usize, data: &Vec<u8>) -> (r: Result<Operation, LoadError>)
    ensures
        r is Ok ==> instruction_at(data@, index as int) == Ok::<_, LoadError>(
            (r->Ok_0.program_id@, r->Ok_0.accounts@, r->Ok_0.data@),
        ),
        r is Err ==> instruction_at(data@, index as int) == Err::<(Seq<u8>, Seq<AccountRef>, Seq<u8>), LoadError>(r->Err_0),
{
    match instructions::load_instruction_at(index, data) {
        Ok(ix) => Ok(Operation {
            program_id: ix.program_id.to_bytes(),
            accounts: ix.accounts.iter().map(|m| AccountRef {
                key: m.pubkey.to_bytes(),
                is_signer: m.is_signer,
                is_writable: m.is_writable,
            }).collect(),
            data: ix.data,
        }),
        Err(SanitizeError::IndexOutOfBounds) => Err(LoadError::PastEnd),
        Err(_) => Err(LoadError::Malformed),
    }
}

/// Scans the operations at positions `i .. end` of `data`: whether one
/// matches `policy`, stopping quietly at the end of the list and failing on
/// one that does not decode.
pub open spec fn scan(data: Seq<u8>, i: int, end: int, policy: Seq<u8>) -> Result<bool, Failure>
    decreases end - i,
{
    if i >= end {
        Ok(false)
    } else {
        match instruction_at(data, i) {
            Err(LoadError::PastEnd) => Ok(false),
            Err(LoadError::Malformed) => Err(Failure::InvalidInstructionData),
            Ok((program_id, accounts, _)) => match scan(data, i + 1, end, policy) {
                Err(e) => Err(e),
                Ok(found) => Ok(found || op_matches(program_id, accounts, policy)),
            },
        }
    }
}

pub open spec fn scan_from(found: bool, rest: Result<bool, Failure>) -> Result<bool, Failure> {
    match rest {
        Err(e) => Err(e),
        Ok(b) => Ok(found || b),
    }
}

/// What `verify` returns for a scan's outcome.
pub open spec fn verdict(s: Result<bool, Failure>) -> Result<(), Failure> {
    match s {
        Ok(true) => Ok(()),
        Ok(false) => Err(Failure::Valve(ValveError::Unchecked)),
        Err(e) => Err(e),
    }
}

/// Reads the runtime's instruction list `data` and succeeds iff an operation
/// before the executing one is addressed to the rate limiter and carries the
/// policy of `(program, endpoint)` in its third account slot.
pub fn verify(data: &Vec<u8>, program: &Key, endpoint: u32) -> (r: Result<(), Failure>)
    requires
        data@.len() >= 2,
    ensures
        policy_address(program@, endpoint) is None ==> r == Err::<(), Failure>(Failure::NoViableAddress),
        policy_address(program@, endpoint) is Some ==> r == verdict(
            scan(data@, 0, current_index_of(data@), policy_address(program@, endpoint)->Some_0.0),
        ),
{
    let expected = match derive_policy_address(program, endpoint) {
        None => return Err(Failure::NoViableAddress),
        Some((k, _)) => k,
    };
    let current_index = load_current_index(data);
    let end = current_index as usize;
    let ghost whole = scan(data@, 0, end as int, expected@);
    let mut checked = false;
    let mut i: usize = 0;
    while i < end
        invariant
            i <= end,
            policy_address(program@, endpoint) is Some,
            policy_address(program@, endpoint)->Some_0.0 == expected@,
            end as int == current_index_of(data@),
            whole == scan(data@, 0, end as int, expected@),
            whole == scan_from(checked, scan(data@, i as int, end as int, expected@)),
        decreases end - i,
    {
        let loaded = load_operation(i, data);
        assert(scan(data@, i as int, end as int, expected@) == match instruction_at(data@, i as int) {
            Err(LoadError::PastEnd) => Ok(false),
            Err(LoadError::Malformed) => Err(Failure::InvalidInstructionData),
            Ok((program_id, accounts, _)) => scan_from(
                op_matches(program_id, accounts, expected@),
                scan(data@, i + 1, end as int, expected@),
            ),
        });
        match loaded {
            Err(LoadError::PastEnd) => {
                // past the last operation: nothing more to scan
                i = end;
            },
            Err(LoadError::Malformed) => {
                return Err(Failure::InvalidInstructionData);
            },
            Ok(op) => {
                if op_is_for(&op, &expected) {
                    checked = true;
                }
                i = i + 1;
            },
        }
    }
    assert(whole == scan_from(checked, Ok(false)));
    if !checked {
        return Err(Failure::Valve(ValveError::Unchecked));
    }
    Ok(())
}

} // verus!
