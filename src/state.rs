//! The persisted records and the errors of the rate limiter.
use crate::key::Key;
use vstd::prelude::*;

verus! {

/// Quota configuration for one `(program, endpoint)` pair.
#[derive(Clone, Copy, Debug)]
pub struct Policy {
    /// The gated target program.
    pub program: Key,
    /// Selects one gated operation of `program`.
    pub endpoint: u32,
    /// Capacity of every bucket under this policy.
    pub max_reqs: u32,
    /// Seconds in which an empty bucket refills completely.
    pub period: u32,
    /// The nonce that derived this policy's address.
    pub bump: u8,
}

/// One owner's quota state under one policy.
#[derive(Clone, Copy, Debug)]
pub struct Bucket {
    /// Address of the owning policy.
    pub policy: Key,
    /// The identity meant to consume the tokens.
    pub owner: Key,
    /// Tokens left.
    pub tokens: u32,
    /// Unix time of the last refill computation.
    pub last_ts: i64,
}

/// The rate limiter's own errors.
#[derive(Clone, Copy, Debug, PartialEq, Eq, Structural)]
pub enum ValveError {
    /// No preceding operation of the transaction carried the expected policy.
    Unchecked,
    /// The bucket had no token left after its refill.
    TooManyRequests,
}

/// Every way an operation of the rate limiter can fail.
#[derive(Clone, Copy, Debug, PartialEq, Eq, Structural)]
pub enum Failure {
    Valve(ValveError),
    /// An account already exists at the derived address.
    AccountInUse,
    /// No account exists at the given address.
    AccountNotFound,
    /// The operation was handed fewer accounts than it reserves.
    NotEnoughAccounts,
    /// No bump seed yields a keyless address for the seeds.
    NoViableAddress,
    /// The transaction's list of operations could not be read.
    InvalidInstructionData,
}

} // verus!
