//! Check, then hand a caller's instruction on to the policy's program under
//! the identity derived from the policy.
use crate::engine::{admits, after_check, check};
use crate::key::{gen_signer_seeds, le8, seeds_view, Key};
use crate::state::{Bucket, Failure, Policy, ValveError};
use vstd::prelude::*;

verus! {

/// How many leading accounts a call reserves: bucket, owner, policy.
pub const NUM_CALL_ACCOUNTS: usize = 3;

/// One account of an instruction, as the runtime passes it on.
#[derive(Clone, Copy, Debug, PartialEq, Eq)]
pub struct AccountRef {
    pub key: Key,
    pub is_signer: bool,
    pub is_writable: bool,
}

/// An instruction to invoke, signed by the identity that `signer_seeds`
/// derive under the rate limiter's program id.
#[derive(Debug)]
pub struct Forward {
    pub program_id: Key,
    pub accounts: Vec<AccountRef>,
    pub data: Vec<u8>,
    pub signer_seeds: Vec<Vec<u8>>,
}

/// `f` carries `data` to the policy's program with the accounts after the
/// reserved ones, signed by the seeds of the policy at `accounts[2]`.
pub open spec fn forwards(f: Forward, policy: Policy, data: Seq<u8>, accounts: Seq<AccountRef>) -> bool {
    &&& f.program_id == policy.program
    &&& f.accounts@ == accounts.subrange(NUM_CALL_ACCOUNTS as int, accounts.len() as int)
    &&& f.data@ == data
    &&& seeds_view(f.signer_seeds@) == seq![accounts[2].key@, le8(policy.bump as u64)]
}

/// Checks `bucket` at `now` as `check` does; where that admits, returns the
/// instruction to forward, and otherwise fails with the same error and
/// forwards nothing. `accounts` are all the accounts of the call, the
/// reserved ones first.
pub fn call(
    bucket: &mut Bucket,
    policy: &Policy,
    now: i64,
    ix: Vec<u8>,
    accounts: &Vec<AccountRef>,
) -> (r: Result<Forward, Failure>)
    requires
        policy.period > 0,
    ensures
        accounts@.len() < NUM_CALL_ACCOUNTS ==> r == Err::<Forward, Failure>(Failure::NotEnoughAccounts)
            && *final(bucket) == *old(bucket),
        accounts@.len() >= NUM_CALL_ACCOUNTS ==> {
            &&& *final(bucket) == after_check(*policy, *old(bucket), now)
            &&& r is Ok == admits(*policy, *old(bucket), now)
            &&& r is Err ==> r == Err::<Forward, Failure>(Failure::Valve(ValveError::TooManyRequests))
            &&& r is Ok ==> forwards(r->Ok_0, *policy, ix@, accounts@)
        },
{
    if accounts.len() < NUM_CALL_ACCOUNTS {
        return Err(Failure::NotEnoughAccounts);
    }
    if let Err(e) = check(bucket, policy, now) {
        return Err(Failure::Valve(e));
    }
    let mut rest: Vec<AccountRef> = Vec::new();
    let mut i: usize = NUM_CALL_ACCOUNTS;
    while i < accounts.len()
        invariant
            NUM_CALL_ACCOUNTS <= i <= accounts@.len(),
            rest@ == accounts@.subrange(NUM_CALL_ACCOUNTS as int, i as int),
        decreases accounts@.len() - i,
    {
        rest.push(accounts[i]);
        i = i + 1;
        assert(rest@ =~= accounts@.subrange(NUM_CALL_ACCOUNTS as int, i as int));
    }
    let nonce: u64 = policy.bump as u64;
    let signer_seeds = gen_signer_seeds(nonce, &accounts[2].key);
    Ok(Forward { program_id: policy.program, accounts: rest, data: ix, signer_seeds })
}

} // verus!
