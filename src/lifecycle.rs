//! Creation of policies and buckets at their derived addresses.
use crate::key::{bucket_address, derive_bucket_address, derive_policy_address, keys_equal, policy_address, Key};
use crate::state::{Bucket, Failure, Policy};
use vstd::prelude::*;

verus! {

/// What an address holds.
#[derive(Clone, Copy, Debug)]
pub enum Account {
    Policy(Policy),
    Bucket(Bucket),
}

/// The accounts that the rate limiter has created, each under its address.
pub struct Ledger {
    pub accounts: Vec<(Key, Account)>,
}

/// Whether some entry of `accs` sits at `k`.
pub open spec fn occupied(accs: Seq<(Key, Account)>, k: Seq<u8>) -> bool {
    exists|i: int| 0 <= i < accs.len() && (#[trigger] accs[i]).0@ == k
}

/// No two entries share an address.
pub open spec fn unique_keys(accs: Seq<(Key, Account)>) -> bool {
    forall|i: int, j: int|
        0 <= i < accs.len() && 0 <= j < accs.len() && i != j ==> (#[trigger] accs[i]).0@
            != (#[trigger] accs[j]).0@
}

/// The policy stored at `k`, if one is.
pub open spec fn policy_at(accs: Seq<(Key, Account)>, k: Seq<u8>) -> Option<Policy> {
    if exists|i: int| 0 <= i < accs.len() && (#[trigger] accs[i]).0@ == k && accs[i].1 is Policy {
        let i = choose|i: int| 0 <= i < accs.len() && (#[trigger] accs[i]).0@ == k && accs[i].1 is Policy;
        Some(accs[i].1->Policy_0)
    } else {
        None
    }
}

/// The bucket stored at `k`, if one is.
pub open spec fn bucket_at(accs: Seq<(Key, Account)>, k: Seq<u8>) -> Option<Bucket> {
    if exists|i: int| 0 <= i < accs.len() && (#[trigger] accs[i]).0@ == k && accs[i].1 is Bucket {
        let i = choose|i: int| 0 <= i < accs.len() && (#[trigger] accs[i]).0@ == k && accs[i].1 is Bucket;
        Some(accs[i].1->Bucket_0)
    } else {
        None
    }
}

/// How `initialize_policy` relates the accounts before (`pre`) and after
/// (`post`) to its result.
pub open spec fn policy_init(
    pre: Seq<(Key, Account)>,
    program: Key,
    endpoint: u32,
    max_reqs: u32,
    period: u32,
    post: Seq<(Key, Account)>,
    r: Result<Key, Failure>,
) -> bool {
    match policy_address(program@, endpoint) {
        None => r == Err::<Key, Failure>(Failure::NoViableAddress) && post == pre,
        Some((addr, bump)) => if occupied(pre, addr) {
            r == Err::<Key, Failure>(Failure::AccountInUse) && post == pre
        } else {
            r is Ok && r->Ok_0@ == addr && post == pre.push(
                (
                    r->Ok_0,
                    Account::Policy(Policy { program, endpoint, max_reqs, period, bump }),
                ),
            )
        },
    }
}

/// How `initialize_bucket` relates the accounts before and after to its result.
pub open spec fn bucket_init(
    pre: Seq<(Key, Account)>,
    policy: Key,
    owner: Key,
    now: i64,
    post: Seq<(Key, Account)>,
    r: Result<Key, Failure>,
) -> bool {
    match policy_at(pre, policy@) {
        None => r == Err::<Key, Failure>(Failure::AccountNotFound) && post == pre,
        Some(p) => match bucket_address(policy@, owner@) {
            None => r == Err::<Key, Failure>(Failure::NoViableAddress) && post == pre,
            Some((addr, _)) => if occupied(pre, addr) {
                r == Err::<Key, Failure>(Failure::AccountInUse) && post == pre
            } else {
                r is Ok && r->Ok_0@ == addr && post == pre.push(
                    (
                        r->Ok_0,
                        Account::Bucket(
                            Bucket { policy, owner, tokens: p.max_reqs, last_ts: now },
                        ),
                    ),
                )
            },
        },
    }
}

impl Ledger {
    pub open spec fn wf(&self) -> bool {
        unique_keys(self.accounts@)
    }

    /// An empty ledger.
    pub fn new() -> (r: Ledger)
        ensures
            r.wf(),
            r.accounts@.len() == 0,
    {
        Ledger { accounts: Vec::new() }
    }

    /// The position of the entry at `k`, if any.
    fn find(&self, k: &Key) -> (r: Option<usize>)
        requires
            self.wf(),
        ensures
            r.is_none() == !occupied(self.accounts@, k@),
            r.is_some() ==> r.unwrap() < self.accounts@.len() && self.accounts@[r.unwrap() as int].0@
                == k@,
    {
        let mut i: usize = 0;
        while i < self.accounts.len()
            invariant
                i <= self.accounts@.len(),
                forall|j: int| 0 <= j < i ==> (#[trigger] self.accounts@[j]).0@ != k@,
            decreases self.accounts@.len() - i,
        {
            if keys_equal(&self.accounts[i].0, k) {
                return Some(i);
            }
            i = i + 1;
        }
        None
    }

    /// The policy stored at `k`, if one is.
    pub fn policy(&self, k: &Key) -> (r: Option<Policy>)
        requires
            self.wf(),
        ensures
            r == policy_at(self.accounts@, k@),
    {
        match self.find(k) {
            None => None,
            Some(i) => match self.accounts[i].1 {
                Account::Policy(p) => Some(p),
                Account::Bucket(_) => None,
            },
        }
    }

    /// The bucket stored at `k`, if one is.
    pub fn bucket(&self, k: &Key) -> (r: Option<Bucket>)
        requires
            self.wf(),
        ensures
            r == bucket_at(self.accounts@, k@),
    {
        match self.find(k) {
            None => None,
            Some(i) => match self.accounts[i].1 {
                Account::Bucket(b) => Some(b),
                Account::Policy(_) => None,
            },
        }
    }
}

/// Creates the policy of `(program, endpoint)` at its derived address;
/// fails where an account is there already.
pub fn initialize_policy(ledger: &mut Ledger, program: &Key, endpoint: u32, max_reqs: u32, period: u32) -> (r: Result<Key, Failure>)
    requires
        old(ledger).wf(),
    ensures
        final(ledger).wf(),
        policy_init(old(ledger).accounts@, *program, endpoint, max_reqs, period, final(ledger).accounts@, r),
{
    match derive_policy_address(program, endpoint) {
        None => Err(Failure::NoViableAddress),
        Some((addr, bump)) => {
            if ledger.find(&addr).is_some() {
                return Err(Failure::AccountInUse);
            }
            let policy = Policy { program: *program, endpoint, max_reqs, period, bump };
            ledger.accounts.push((addr, Account::Policy(policy)));
            Ok(addr)
        },
    }
}

/// Creates `owner`'s bucket under the policy at `policy`, full, with its
/// clock at `now`; fails where the policy is missing or the bucket exists.
pub fn initialize_bucket(ledger: &mut Ledger, policy: &Key, owner: &Key, now: i64) -> (r: Result<Key, Failure>)
    requires
        old(ledger).wf(),
    ensures
        final(ledger).wf(),
        bucket_init(old(ledger).accounts@, *policy, *owner, now, final(ledger).accounts@, r),
{
    let p = match ledger.policy(policy) {
        None => return Err(Failure::AccountNotFound),
        Some(p) => p,
    };
    match derive_bucket_address(policy, owner) {
        None => Err(Failure::NoViableAddress),
        Some((addr, _)) => {
            if ledger.find(&addr).is_some() {
                return Err(Failure::AccountInUse);
            }
            let bucket = Bucket { policy: *policy, owner: *owner, tokens: p.max_reqs, last_ts: now };
            ledger.accounts.push((addr, Account::Bucket(bucket)));
            Ok(addr)
        },
    }
}

/// A policy is created once: repeating `initialize_policy` with the same
/// `(program, endpoint)` on the accounts that the first call left fails with
/// `AccountInUse`, whatever capacity and period the second call asks for.
pub proof fn policy_created_once(
    l0: Seq<(Key, Account)>,
    l1: Seq<(Key, Account)>,
    l2: Seq<(Key, Account)>,
    program: Key,
    endpoint: u32,
    max1: u32,
    period1: u32,
    max2: u32,
    period2: u32,
    r1: Result<Key, Failure>,
    r2: Result<Key, Failure>,
)
    requires
        policy_init(l0, program, endpoint, max1, period1, l1, r1),
        r1 is Ok,
        policy_init(l1, program, endpoint, max2, period2, l2, r2),
    ensures
        r2 == Err::<Key, Failure>(Failure::AccountInUse),
        l2 == l1,
{
    let last = l1.len() - 1;
    assert(l1[last].0@ == r1->Ok_0@);
    assert(occupied(l1, r1->Ok_0@));
}

} // verus!
