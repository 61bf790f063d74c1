use anchor_lang::solana_program::pubkey::Pubkey;
use valve::engine::{check, elapsed_secs, refill_tokens};
use valve::forward::{call, AccountRef, NUM_CALL_ACCOUNTS};
use valve::introspect::{verify, verify_operations, Operation};
use valve::key::{
    derive_bucket_address, derive_policy_address, gen_signer_seeds, keys_equal, le4_bytes,
    le8_bytes, Key, VALVE_ID,
};
use valve::lifecycle::{initialize_bucket, initialize_policy, Ledger};
use valve::state::{Bucket, Failure, Policy, ValveError};

fn key(b: u8) -> Key {
    [b; 32]
}

fn policy(max_reqs: u32, period: u32) -> Policy {
    Policy { program: key(7), endpoint: 111, max_reqs, period, bump: 254 }
}

fn bucket(tokens: u32, last_ts: i64) -> Bucket {
    Bucket { policy: key(1), owner: key(2), tokens, last_ts }
}

fn acct(b: u8) -> AccountRef {
    AccountRef { key: key(b), is_signer: b % 2 == 0, is_writable: b % 3 == 0 }
}

#[test]
fn refill_formula_floors_the_rate() {
    // 5 tokens per 10 s, 3 s later: floor(1.5) = 1
    assert_eq!(refill_tokens(5, 10, 0, 3), 1);
    assert_eq!(refill_tokens(5, 10, 2, 4), 4);
    assert_eq!(refill_tokens(5, 10, 4, 100), 5);
    assert_eq!(refill_tokens(3, 7, 0, 0), 0);
    assert_eq!(refill_tokens(u32::MAX, 1, u32::MAX, u64::MAX), u32::MAX);
}

#[test]
fn refill_never_exceeds_capacity_nor_decreases() {
    for e in 0..40u64 {
        let a = refill_tokens(5, 10, 1, e);
        let b = refill_tokens(5, 10, 1, e + 1);
        assert!(a <= 5);
        assert!(a >= 1);
        assert!(a <= b);
    }
}

#[test]
fn elapsed_clamps_clock_regression() {
    assert_eq!(elapsed_secs(100, 90), 0);
    assert_eq!(elapsed_secs(100, 130), 30);
    assert_eq!(elapsed_secs(i64::MIN, i64::MAX), u64::MAX);
}

#[test]
fn capacity_checks_then_rate_limited() {
    let p = policy(5, 10);
    let mut b = bucket(5, 0);
    for i in 0..5u32 {
        assert_eq!(check(&mut b, &p, 0), Ok(()));
        assert_eq!(b.tokens, 4 - i);
    }
    assert_eq!(b.tokens, 0);
    assert_eq!(check(&mut b, &p, 0), Err(ValveError::TooManyRequests));
    assert_eq!(b.tokens, 0);
    assert_eq!(check(&mut b, &p, 10), Ok(()));
    assert_eq!(b.tokens, 4);
    assert_eq!(b.last_ts, 10);
}

#[test]
fn empty_bucket_full_after_period() {
    let p = policy(8, 60);
    let mut b = bucket(0, 1_000);
    assert_eq!(check(&mut b, &p, 1_060), Ok(()));
    assert_eq!(b.tokens, 7);
    let mut b = bucket(0, 1_000);
    assert_eq!(check(&mut b, &p, 5_000), Ok(()));
    assert_eq!(b.tokens, 7);
}

#[test]
fn denied_check_still_moves_the_clock() {
    let p = policy(5, 10);
    let mut b = bucket(0, 0);
    assert_eq!(check(&mut b, &p, 1), Err(ValveError::TooManyRequests));
    assert_eq!(b.last_ts, 1);
    assert_eq!(b.tokens, 0);
    assert_eq!(b.owner, key(2));
    assert_eq!(b.policy, key(1));
}

#[test]
fn zero_capacity_always_denies() {
    let p = policy(0, 10);
    let mut b = bucket(0, 0);
    assert_eq!(check(&mut b, &p, 1_000), Err(ValveError::TooManyRequests));
}

#[test]
fn little_endian_encodings() {
    assert_eq!(le4_bytes(0x0403_0201), vec![1, 2, 3, 4]);
    assert_eq!(le4_bytes(111), vec![111, 0, 0, 0]);
    assert_eq!(le8_bytes(0x0807_0605_0403_0201), vec![1, 2, 3, 4, 5, 6, 7, 8]);
    assert_eq!(le8_bytes(255), vec![255, 0, 0, 0, 0, 0, 0, 0]);
}

#[test]
fn signer_seeds_are_policy_and_bump() {
    let s = gen_signer_seeds(254, &key(9));
    assert_eq!(s.len(), 2);
    assert_eq!(s[0], vec![9u8; 32]);
    assert_eq!(s[1], vec![254, 0, 0, 0, 0, 0, 0, 0]);
}

#[test]
fn keys_equal_compares_bytes() {
    let mut k = key(3);
    assert!(keys_equal(&k, &key(3)));
    k[31] = 4;
    assert!(!keys_equal(&k, &key(3)));
}

#[test]
fn policy_address_matches_runtime_derivation() {
    let program = key(7);
    let (addr, bump) = derive_policy_address(&program, 111).unwrap();
    let id = Pubkey::new_from_array(VALVE_ID);
    let expected = Pubkey::find_program_address(
        &[b"Policy".as_ref(), program.as_ref(), &111u32.to_le_bytes()],
        &id,
    );
    assert_eq!(addr, expected.0.to_bytes());
    assert_eq!(bump, expected.1);
    assert_ne!(addr, program);
    let other = derive_policy_address(&program, 112).unwrap();
    assert_ne!(other.0, addr);
}

#[test]
fn bucket_address_matches_runtime_derivation() {
    let (addr, bump) = derive_bucket_address(&key(1), &key(2)).unwrap();
    let id = Pubkey::new_from_array(VALVE_ID);
    let expected =
        Pubkey::find_program_address(&[b"Bucket".as_ref(), &key(1), &key(2)], &id);
    assert_eq!(addr, expected.0.to_bytes());
    assert_eq!(bump, expected.1);
}

#[test]
fn policy_initialized_once() {
    let mut l = Ledger::new();
    let a = initialize_policy(&mut l, &key(7), 111, 5, 10).unwrap();
    let p = l.policy(&a).unwrap();
    assert_eq!((p.program, p.endpoint, p.max_reqs, p.period), (key(7), 111, 5, 10));
    assert_eq!(p.bump, derive_policy_address(&key(7), 111).unwrap().1);
    assert_eq!(initialize_policy(&mut l, &key(7), 111, 9, 1), Err(Failure::AccountInUse));
    assert_eq!(l.accounts.len(), 1);
    assert!(initialize_policy(&mut l, &key(7), 112, 5, 10).is_ok());
    assert!(initialize_policy(&mut l, &key(8), 111, 5, 10).is_ok());
    assert_eq!(l.accounts.len(), 3);
}

#[test]
fn bucket_starts_full_and_once() {
    let mut l = Ledger::new();
    let pa = initialize_policy(&mut l, &key(7), 111, 5, 10).unwrap();
    let ba = initialize_bucket(&mut l, &pa, &key(2), 42).unwrap();
    let b = l.bucket(&ba).unwrap();
    assert_eq!((b.policy, b.owner, b.tokens, b.last_ts), (pa, key(2), 5, 42));
    assert_eq!(initialize_bucket(&mut l, &pa, &key(2), 43), Err(Failure::AccountInUse));
    assert!(initialize_bucket(&mut l, &pa, &key(3), 43).is_ok());
    assert!(l.policy(&ba).is_none());
    assert!(l.bucket(&pa).is_none());
}

#[test]
fn bucket_needs_policy() {
    let mut l = Ledger::new();
    assert_eq!(initialize_bucket(&mut l, &key(5), &key(2), 0), Err(Failure::AccountNotFound));
    assert_eq!(l.accounts.len(), 0);
}

#[test]
fn call_forwards_trailing_accounts() {
    let p = policy(5, 10);
    let mut b = bucket(5, 0);
    let accounts = vec![acct(1), acct(2), acct(9), acct(4), acct(5), acct(6)];
    let f = call(&mut b, &p, 0, vec![1, 2, 3], &accounts).unwrap();
    assert_eq!(f.program_id, key(7));
    assert_eq!(f.accounts, accounts[NUM_CALL_ACCOUNTS..].to_vec());
    assert_eq!(f.data, vec![1, 2, 3]);
    assert_eq!(f.signer_seeds, vec![vec![9u8; 32], vec![254, 0, 0, 0, 0, 0, 0, 0]]);
    assert_eq!(b.tokens, 4);
}

#[test]
fn call_rate_limited_forwards_nothing() {
    let p = policy(5, 10);
    let mut b = bucket(0, 0);
    let accounts = vec![acct(1), acct(2), acct(9)];
    let r = call(&mut b, &p, 0, vec![], &accounts);
    assert!(matches!(r, Err(Failure::Valve(ValveError::TooManyRequests))));
    assert_eq!(b.tokens, 0);
}

#[test]
fn call_with_no_trailing_accounts() {
    let p = policy(5, 10);
    let mut b = bucket(1, 0);
    let accounts = vec![acct(1), acct(2), acct(9)];
    let f = call(&mut b, &p, 0, vec![], &accounts).unwrap();
    assert!(f.accounts.is_empty());
    assert!(f.data.is_empty());
}

#[test]
fn call_needs_reserved_accounts() {
    let p = policy(5, 10);
    let mut b = bucket(3, 0);
    let r = call(&mut b, &p, 50, vec![], &vec![acct(1), acct(2)]);
    assert!(matches!(r, Err(Failure::NotEnoughAccounts)));
    assert_eq!((b.tokens, b.last_ts), (3, 0));
}

fn op(program_id: Key, policy_slot: Key, n_accounts: usize) -> Operation {
    let mut accounts = vec![acct(1), acct(2), AccountRef { key: policy_slot, is_signer: false, is_writable: false }];
    accounts.truncate(n_accounts);
    Operation { program_id, accounts, data: vec![0; 8] }
}

#[test]
fn verify_finds_earlier_valve_operation() {
    let (pa, _) = derive_policy_address(&key(7), 111).unwrap();
    let ops = vec![op(key(4), key(4), 3), op(VALVE_ID, pa, 3), op(key(7), key(0), 3)];
    assert_eq!(verify_operations(&ops, 2, &key(7), 111), Ok(()));
    assert_eq!(verify_operations(&ops, 1, &key(7), 111), Err(Failure::Valve(ValveError::Unchecked)));
    assert_eq!(verify_operations(&ops, 2, &key(7), 112), Err(Failure::Valve(ValveError::Unchecked)));
    assert_eq!(verify_operations(&ops, 9, &key(7), 111), Ok(()));
}

#[test]
fn verify_ignores_other_programs_and_short_operations() {
    let (pa, _) = derive_policy_address(&key(7), 111).unwrap();
    let ops = vec![op(key(4), pa, 3), op(VALVE_ID, pa, 2), op(key(7), key(0), 3)];
    assert_eq!(verify_operations(&ops, 2, &key(7), 111), Err(Failure::Valve(ValveError::Unchecked)));
    let none: Vec<Operation> = vec![];
    assert_eq!(verify_operations(&none, 0, &key(7), 111), Err(Failure::Valve(ValveError::Unchecked)));
}

fn sysvar_data(ops: &[Operation], current: u16) -> Vec<u8> {
    let mut data = Vec::new();
    data.extend_from_slice(&(ops.len() as u16).to_le_bytes());
    data.extend(std::iter::repeat(0u8).take(2 * ops.len()));
    for (i, o) in ops.iter().enumerate() {
        let start = (data.len() as u16).to_le_bytes();
        data[2 + 2 * i] = start[0];
        data[3 + 2 * i] = start[1];
        data.extend_from_slice(&(o.accounts.len() as u16).to_le_bytes());
        for a in &o.accounts {
            data.push((a.is_signer as u8) | ((a.is_writable as u8) << 1));
            data.extend_from_slice(&a.key);
        }
        data.extend_from_slice(&o.program_id);
        data.extend_from_slice(&(o.data.len() as u16).to_le_bytes());
        data.extend_from_slice(&o.data);
    }
    data.extend_from_slice(&current.to_le_bytes());
    data
}

#[test]
fn verify_reads_instruction_list() {
    let (pa, _) = derive_policy_address(&key(7), 111).unwrap();
    let ops = vec![op(VALVE_ID, pa, 3), op(key(7), key(0), 3)];
    assert_eq!(verify(&sysvar_data(&ops, 1), &key(7), 111), Ok(()));
    assert_eq!(verify(&sysvar_data(&ops, 0), &key(7), 111), Err(Failure::Valve(ValveError::Unchecked)));
    assert_eq!(verify(&sysvar_data(&ops, 1), &key(8), 111), Err(Failure::Valve(ValveError::Unchecked)));
    // an index past the list stops the scan without an error
    assert_eq!(verify(&sysvar_data(&ops, 7), &key(7), 111), Ok(()));
    let later = vec![op(key(3), key(0), 3), op(key(7), key(0), 3)];
    assert_eq!(verify(&sysvar_data(&later, 5), &key(7), 111), Err(Failure::Valve(ValveError::Unchecked)));
}

#[test]
fn verify_rejects_undecodable_list() {
    let (pa, _) = derive_policy_address(&key(7), 111).unwrap();
    let ops = vec![op(VALVE_ID, pa, 3)];
    let mut data = sysvar_data(&ops, 1);
    // point the first operation's offset at a pubkey that runs off the end
    let n = data.len();
    data[2] = (n - 4) as u8;
    data[3] = 0;
    let r = verify(&data, &key(7), 111);
    assert!(r.is_err());
}
