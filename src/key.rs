//! Account keys, little-endian encodings, and keyless address derivation.
use anchor_lang::solana_program::pubkey::Pubkey;
use vstd::prelude::*;

verus! {

/// An account address or program id: 32 raw bytes.
pub type Key = [u8; 32];

/// The rate limiter's own program id.
pub const VALVE_ID: Key = [
    121, 200, 22, 154, 127, 205, 107, 139, 253, 154, 240, 3, 178, 229, 114, 71,
    184, 54, 140, 141, 99, 248, 113, 11, 96, 218, 227, 22, 25, 38, 171, 152,
];

/// The 4 little-endian bytes of `x`.
pub open spec fn le4(x: u32) -> Seq<u8> {
    seq![
        (x % 256) as u8,
        ((x / 0x100) % 256) as u8,
        ((x / 0x1_0000) % 256) as u8,
        ((x / 0x100_0000) % 256) as u8,
    ]
}

/// The 8 little-endian bytes of `x`.
pub open spec fn le8(x: u64) -> Seq<u8> {
    seq![
        (x % 256) as u8,
        ((x / 0x100) % 256) as u8,
        ((x / 0x1_0000) % 256) as u8,
        ((x / 0x100_0000) % 256) as u8,
        ((x / 0x1_0000_0000) % 256) as u8,
        ((x / 0x100_0000_0000) % 256) as u8,
        ((x / 0x1_0000_0000_0000) % 256) as u8,
        ((x / 0x100_0000_0000_0000) % 256) as u8,
    ]
}

pub fn le4_bytes(x: u32) -> (r: Vec<u8>)
    ensures
        r@ == le4(x),
{
    vec![
        (x % 256) as u8,
        ((x / 0x100) % 256) as u8,
        ((x / 0x1_0000) % 256) as u8,
        ((x / 0x100_0000) % 256) as u8,
    ]
}

pub fn le8_bytes(x: u64) -> (r: Vec<u8>)
    ensures
        r@ == le8(x),
{
    vec![
        (x % 256) as u8,
        ((x / 0x100) % 256) as u8,
        ((x / 0x1_0000) % 256) as u8,
        ((x / 0x100_0000) % 256) as u8,
        ((x / 0x1_0000_0000) % 256) as u8,
        ((x / 0x100_0000_0000) % 256) as u8,
        ((x / 0x1_0000_0000_0000) % 256) as u8,
        ((x / 0x100_0000_0000_0000) % 256) as u8,
    ]
}

/// The bytes of `k` as a vector.
pub fn key_bytes(k: &Key) -> (r: Vec<u8>)
    ensures
        r@ == k@,
{
    let mut r: Vec<u8> = Vec::new();
    let mut i: usize = 0;
    while i < 32
        invariant
            i <= 32,
            k@.len() == 32,
            r@ == k@.subrange(0, i as int),
        decreases 32 - i,
    {
        r.push(k[i]);
        i = i + 1;
        assert(r@ =~= k@.subrange(0, i as int));
    }
    assert(k@.subrange(0, 32) =~= k@);
    r
}

/// Whether two keys hold the same bytes.
pub fn keys_equal(a: &Key, b: &Key) -> (r: bool)
    ensures
        r == (a@ == b@),
{
    let mut i: usize = 0;
    while i < 32
        invariant
            i <= 32,
            a@.len() == 32,
            b@.len() == 32,
            forall|j: int| 0 <= j < i ==> a@[j] == b@[j],
        decreases 32 - i,
    {
        if a[i] != b[i] {
            return false;
        }
        i = i + 1;
    }
    assert(a@ =~= b@);
    true
}

/// The keyless address and bump nonce that the runtime derives from `seeds`
/// under `program_id`, or `None` where no bump yields an address off the curve
/// (or the seeds exceed the runtime's limits).
pub uninterp spec fn program_address_of(seeds: Seq<Seq<u8>>, program_id: Seq<u8>) -> Option<(Seq<u8>, u8)>;

pub open spec fn seeds_view(seeds: Seq<Vec<u8>>) -> Seq<Seq<u8>> {
    seeds.map_values(|s: Vec<u8>| s@)
}

/// Relies on `Pubkey::try_find_program_address`, which searches bump seeds
/// from 255 down and hashes the seeds, the bump and the program id; its result
/// depends on those arguments alone.
#[verifier::external_body]
fn find_program_address(seeds: &Vec<Vec<u8>>, program_id: &Key) -> (r: Option<(Key, u8)>)
    ensures
        r.is_none() == program_address_of(seeds_view(seeds@), program_id@).is_none(),
        r.is_some() ==> program_address_of(seeds_view(seeds@), program_id@) == Some(
            (r.unwrap().0@, r.unwrap().1),
        ),
{
    let refs: Vec<&[u8]> = seeds.iter().map(|s| s.as_slice()).collect();
    let id = Pubkey::new_from_array(*program_id);
    Pubkey::try_find_program_address(&refs, &id).map(|(k, b)| (k.to_bytes(), b))
}

/// The tag that opens a Policy's seeds.
pub open spec fn policy_tag() -> Seq<u8> {
    seq![80u8, 111u8, 108u8, 105u8, 99u8, 121u8]
}

/// The tag that opens a Bucket's seeds.
pub open spec fn bucket_tag() -> Seq<u8> {
    seq![66u8, 117u8, 99u8, 107u8, 101u8, 116u8]
}

pub open spec fn policy_seeds(program: Seq<u8>, endpoint: u32) -> Seq<Seq<u8>> {
    seq![policy_tag(), program, le4(endpoint)]
}

pub open spec fn bucket_seeds(policy: Seq<u8>, owner: Seq<u8>) -> Seq<Seq<u8>> {
    seq![bucket_tag(), policy, owner]
}

/// The address (and bump) of the Policy for `(program, endpoint)`.
pub open spec fn policy_address(program: Seq<u8>, endpoint: u32) -> Option<(Seq<u8>, u8)> {
    program_address_of(policy_seeds(program, endpoint), VALVE_ID@)
}

/// The address (and bump) of the Bucket of `owner` under the Policy at `policy`.
pub open spec fn bucket_address(policy: Seq<u8>, owner: Seq<u8>) -> Option<(Seq<u8>, u8)> {
    program_address_of(bucket_seeds(policy, owner), VALVE_ID@)
}

/// Derives the Policy address for `(program, endpoint)`.
pub fn derive_policy_address(program: &Key, endpoint: u32) -> (r: Option<(Key, u8)>)
    ensures
        r.is_none() == policy_address(program@, endpoint).is_none(),
        r.is_some() ==> policy_address(program@, endpoint) == Some((r.unwrap().0@, r.unwrap().1)),
{
    let seeds: Vec<Vec<u8>> = vec![
        vec![80u8, 111u8, 108u8, 105u8, 99u8, 121u8],
        key_bytes(program),
        le4_bytes(endpoint),
    ];
    assert(seeds_view(seeds@) =~= policy_seeds(program@, endpoint));
    find_program_address(&seeds, &VALVE_ID)
}

/// Derives the Bucket address for `owner` under the Policy at `policy`.
pub fn derive_bucket_address(policy: &Key, owner: &Key) -> (r: Option<(Key, u8)>)
    ensures
        r.is_none() == bucket_address(policy@, owner@).is_none(),
        r.is_some() ==> bucket_address(policy@, owner@) == Some((r.unwrap().0@, r.unwrap().1)),
{
    let seeds: Vec<Vec<u8>> = vec![
        vec![66u8, 117u8, 99u8, 107u8, 101u8, 116u8],
        key_bytes(policy),
        key_bytes(owner),
    ];
    assert(seeds_view(seeds@) =~= bucket_seeds(policy@, owner@));
    find_program_address(&seeds, &VALVE_ID)
}

/// The seeds under which a call is forwarded: the Policy's address and its
/// bump widened to 8 little-endian bytes.
pub open spec fn signer_seeds(policy: Seq<u8>, bump: u8) -> Seq<Seq<u8>> {
    seq![policy, le8(bump as u64)]
}

pub fn gen_signer_seeds(nonce: u64, acc_pk: &Key) -> (r: Vec<Vec<u8>>)
    ensures
        seeds_view(r@) == seq![acc_pk@, le8(nonce)],
{
    let r: Vec<Vec<u8>> = vec![key_bytes(acc_pk), le8_bytes(nonce)];
    assert(seeds_view(r@) =~= seq![acc_pk@, le8(nonce)]);
    r
}

} // verus!
