use solana_program::program_pack::Pack;
use vstd::bytes::spec_u64_from_le_bytes;
use vstd::prelude::*;

use crate::error::{CustomError, VestingError};

verus! {

/// A 32-byte account address.
pub type Key = [u8; 32];

/// Length of a packed token account.
pub const TOKEN_ACCOUNT_LEN: usize = 165;

/// The address and bump seed derived from `seeds` under `program_id`, or
/// `None` when no bump seed yields an address off the curve.
pub uninterp spec fn program_address(seeds: Seq<Seq<u8>>, program_id: Seq<u8>) -> Option<(Seq<u8>, u8)>;

/// The address derived from `seeds` under `program_id`, if there is one.
pub open spec fn derived_key(seeds: Seq<Seq<u8>>, program_id: Seq<u8>) -> Option<Seq<u8>> {
    match program_address(seeds, program_id) {
        Some(p) => Some(p.0),
        None => None,
    }
}

/// Relies on solana_program's `Pubkey::try_find_program_address`: the derived
/// address and bump depend on the seeds and the program id alone, and `None`
/// comes back when no bump seed gives a valid program address.
#[verifier::external_body]
pub(crate) fn find_program_address(seeds: &Vec<Vec<u8>>, program_id: &Key) -> (r: Option<(Key, u8)>)
    ensures
        program_address(seeds.deep_view(), program_id@) == match r {
            Some(p) => Some((p.0@, p.1)),
            None => None::<(Seq<u8>, u8)>,
        },
{
    let seeds: Vec<&[u8]> = seeds.iter().map(|s| s.as_slice()).collect();
    let program_id = solana_program::pubkey::Pubkey::new_from_array(*program_id);
    solana_program::pubkey::Pubkey::try_find_program_address(&seeds, &program_id).map(
        |(key, bump)| (key.to_bytes(), bump),
    )
}

/// Byte-wise equality of two addresses.
pub fn keys_equal(a: &Key, b: &Key) -> (r: bool)
    ensures
        r == (a@ == b@),
{
    let mut i: usize = 0;
    while i < 32
        invariant
            0 <= i <= 32,
            forall|j: int| 0 <= j < i ==> a@[j] == b@[j],
        decreases 32 - i,
    {
        if a[i] != b[i] {
            return false;
        }
        i = i + 1;
    }
    assert(a@ =~= b@);
    true
}

/// The bytes of an address as a vector.
pub fn key_to_vec(k: &Key) -> (r: Vec<u8>)
    ensures
        r@ == k@,
{
    let mut v: Vec<u8> = Vec::new();
    let mut i: usize = 0;
    while i < 32
        invariant
            0 <= i <= 32,
            v@ == k@.subrange(0, i as int),
        decreases 32 - i,
    {
        v.push(k[i]);
        i = i + 1;
    }
    assert(v@ =~= k@);
    v
}

/// Reads the address stored at `at..at + 32`.
pub fn key_at(s: &[u8], at: usize) -> (k: Key)
    requires
        at + 32 <= s@.len(),
    ensures
        k@ == s@.subrange(at as int, at + 32),
{
    let n = s.len();
    let mut k: Key = [0u8; 32];
    let mut i: usize = 0;
    while i < 32
        invariant
            0 <= i <= 32,
            n == s@.len(),
            at + 32 <= n,
            forall|j: int| 0 <= j < i ==> k@[j] == s@[at + j],
        decreases 32 - i,
    {
        k[i] = s[at + i];
        i = i + 1;
    }
    assert(k@ =~= s@.subrange(at as int, at + 32));
    k
}

/// Checks that `received` is the address derived from `seeds` under `program_id`.
pub fn check_expected_address(received: &Key, program_id: &Key, seeds: &Vec<Vec<u8>>) -> (r: Result<(), VestingError>)
    ensures
        r is Ok <==> derived_key(seeds.deep_view(), program_id@) == Some(received@),
        r is Err ==> r == Err::<(), VestingError>(VestingError::Custom(CustomError::InvalidPDAKey)),
{
    match find_program_address(seeds, program_id) {
        Some((calculated, _)) => {
            if keys_equal(received, &calculated) {
                Ok(())
            } else {
                Err(VestingError::Custom(CustomError::InvalidPDAKey))
            }
        },
        None => Err(VestingError::Custom(CustomError::InvalidPDAKey)),
    }
}

/// A four-byte option tag as packed in a token account: zero or one.
pub open spec fn valid_option_tag(s: Seq<u8>, at: int) -> bool {
    (s[at] == 0 || s[at] == 1) && s[at + 1] == 0 && s[at + 2] == 0 && s[at + 3] == 0
}

/// A packed token account whose optional fields and state byte are well formed.
pub open spec fn valid_token_account(s: Seq<u8>) -> bool {
    &&& valid_option_tag(s, 72)
    &&& s[108] <= 2
    &&& valid_option_tag(s, 109)
    &&& valid_option_tag(s, 129)
}

/// The token balance field of a packed token account.
pub open spec fn token_account_amount(s: Seq<u8>) -> u64 {
    spec_u64_from_le_bytes(s.subrange(64, 72))
}

/// Relies on spl_token's `Account::unpack_from_slice`: it reads the first 165
/// bytes, fails on a malformed delegate, state, native or close-authority
/// field, and otherwise yields the little-endian balance at bytes 64..72.
#[verifier::external_body]
fn unpack_token_amount(data: &[u8]) -> (r: Option<u64>)
    requires
        data@.len() >= TOKEN_ACCOUNT_LEN,
    ensures
        r == if valid_token_account(data@) {
            Some(token_account_amount(data@))
        } else {
            None::<u64>
        },
{
    spl_token::state::Account::unpack_from_slice(data).ok().map(|account| account.amount)
}

/// The balance held by a token account, zero where its storage does not hold one.
pub open spec fn token_balance(s: Seq<u8>) -> u64 {
    if s.len() >= TOKEN_ACCOUNT_LEN && valid_token_account(s) {
        token_account_amount(s)
    } else {
        0
    }
}

/// Reads the balance of a token account from its storage.
pub fn read_token_balance(data: &[u8]) -> (r: u64)
    ensures
        r == token_balance(data@),
{
    if data.len() < TOKEN_ACCOUNT_LEN {
        return 0;
    }
    match unpack_token_amount(data) {
        Some(amount) => amount,
        None => 0,
    }
}

} // verus!
