use vstd::bytes::{
    lemma_auto_spec_u64_to_from_le_bytes, spec_u64_from_le_bytes, spec_u64_to_le_bytes,
    u64_from_le_bytes, u64_to_le_bytes,
};
use vstd::prelude::*;
use vstd::slice::slice_subrange;

use crate::error::{CustomError, VestingError};
use crate::helpers::{
    derived_key, find_program_address, key_at, key_to_vec, keys_equal, program_address, read_token_balance,
    token_balance, Key, TOKEN_ACCOUNT_LEN,
};

verus! {

/// Length of a stored vesting record: four addresses and five 64-bit integers.
pub const VESTING_LEN: usize = 168;

/// The first `old.len()` actions of `new` are `old`, followed by `n` more.
pub open spec fn appended(old: Seq<Action>, new: Seq<Action>, n: int) -> bool {
    new.len() == old.len() + n && new.take(old.len() as int) == old
}

/// The record that an account's storage holds: decoded where the storage is one
/// record long, all zero otherwise.
pub open spec fn stored_record(s: Seq<u8>, v: Vesting) -> bool {
    if s.len() == VESTING_LEN {
        v.spec_bytes() == s
    } else {
        v.is_zeroed()
    }
}

/// Trait for the data held behind a derived account.
pub trait PDAData {}

/// The persisted vesting schedule.
#[derive(Debug, Clone, Copy, PartialEq, Eq)]
pub struct Vesting {
    pub beneficiary: Key,
    pub mint: Key,
    pub seed_key: Key,
    pub creator: Key,
    pub amount: u64,
    pub claimed: u64,
    pub start: u64,
    pub cliff: u64,
    pub duration: u64,
}

impl PDAData for Vesting {}

impl Default for Vesting {
    fn default() -> (r: Vesting)
        ensures
            r.is_zeroed(),
    {
        Vesting {
            beneficiary: [0u8; 32],
            mint: [0u8; 32],
            seed_key: [0u8; 32],
            creator: [0u8; 32],
            amount: 0,
            claimed: 0,
            start: 0,
            cliff: 0,
            duration: 0,
        }
    }
}

impl Vesting {
    /// The stored form: the four addresses, then amount, claimed, start, cliff
    /// and duration, each as eight little-endian bytes.
    pub open spec fn spec_bytes(self) -> Seq<u8> {
        self.beneficiary@ + self.mint@ + self.seed_key@ + self.creator@
            + spec_u64_to_le_bytes(self.amount) + spec_u64_to_le_bytes(self.claimed)
            + spec_u64_to_le_bytes(self.start) + spec_u64_to_le_bytes(self.cliff)
            + spec_u64_to_le_bytes(self.duration)
    }

    /// A record with every field zero.
    pub open spec fn is_zeroed(self) -> bool {
        &&& forall|i: int| 0 <= i < 32 ==> self.beneficiary@[i] == 0
        &&& forall|i: int| 0 <= i < 32 ==> self.mint@[i] == 0
        &&& forall|i: int| 0 <= i < 32 ==> self.seed_key@[i] == 0
        &&& forall|i: int| 0 <= i < 32 ==> self.creator@[i] == 0
        &&& self.amount == 0
        &&& self.claimed == 0
        &&& self.start == 0
        &&& self.cliff == 0
        &&& self.duration == 0
    }

    /// Serializes the record.
    pub fn to_bytes(&self) -> (r: Vec<u8>)
        ensures
            r@ == self.spec_bytes(),
            r@.len() == VESTING_LEN,
    {
        proof {
            lemma_auto_spec_u64_to_from_le_bytes();
        }
        let mut r = key_to_vec(&self.beneficiary);
        let mut part = key_to_vec(&self.mint);
        r.append(&mut part);
        let mut part = key_to_vec(&self.seed_key);
        r.append(&mut part);
        let mut part = key_to_vec(&self.creator);
        r.append(&mut part);
        let mut part = u64_to_le_bytes(self.amount);
        r.append(&mut part);
        let mut part = u64_to_le_bytes(self.claimed);
        r.append(&mut part);
        let mut part = u64_to_le_bytes(self.start);
        r.append(&mut part);
        let mut part = u64_to_le_bytes(self.cliff);
        r.append(&mut part);
        let mut part = u64_to_le_bytes(self.duration);
        r.append(&mut part);
        assert(r@ =~= self.spec_bytes());
        r
    }

    /// Deserializes a record; `None` unless `data` is exactly one record long.
    pub fn from_bytes(data: &[u8]) -> (r: Option<Vesting>)
        ensures
            match r {
                Some(v) => v.spec_bytes() == data@,
                None => data@.len() != VESTING_LEN,
            },
            r is Some <==> data@.len() == VESTING_LEN,
    {
        if data.len() != VESTING_LEN {
            return None;
        }
        proof {
            lemma_auto_spec_u64_to_from_le_bytes();
        }
        let v = Vesting {
            beneficiary: key_at(data, 0),
            mint: key_at(data, 32),
            seed_key: key_at(data, 64),
            creator: key_at(data, 96),
            amount: u64_from_le_bytes(slice_subrange(data, 128, 136)),
            claimed: u64_from_le_bytes(slice_subrange(data, 136, 144)),
            start: u64_from_le_bytes(slice_subrange(data, 144, 152)),
            cliff: u64_from_le_bytes(slice_subrange(data, 152, 160)),
            duration: u64_from_le_bytes(slice_subrange(data, 160, 168)),
        };
        proof {
            let s = data@;
            assert(spec_u64_to_le_bytes(v.amount) == s.subrange(128, 136));
            assert(spec_u64_to_le_bytes(v.claimed) == s.subrange(136, 144));
            assert(spec_u64_to_le_bytes(v.start) == s.subrange(144, 152));
            assert(spec_u64_to_le_bytes(v.cliff) == s.subrange(152, 160));
            assert(spec_u64_to_le_bytes(v.duration) == s.subrange(160, 168));
            assert(v.spec_bytes() =~= s);
        }
        Some(v)
    }
}

/// Reading back what was written gives the same record: a record whose
/// stored form equals that of `a` is `a` itself.
pub proof fn lemma_record_round_trip(a: Vesting, b: Vesting)
    requires
        b.spec_bytes() == a.spec_bytes(),
    ensures
        b == a,
{
    lemma_auto_spec_u64_to_from_le_bytes();
    let s = a.spec_bytes();
    assert(a.beneficiary@ =~= s.subrange(0, 32));
    assert(b.beneficiary@ =~= s.subrange(0, 32));
    assert(a.mint@ =~= s.subrange(32, 64));
    assert(b.mint@ =~= s.subrange(32, 64));
    assert(a.seed_key@ =~= s.subrange(64, 96));
    assert(b.seed_key@ =~= s.subrange(64, 96));
    assert(a.creator@ =~= s.subrange(96, 128));
    assert(b.creator@ =~= s.subrange(96, 128));
    assert(a.beneficiary =~= b.beneficiary);
    assert(a.mint =~= b.mint);
    assert(a.seed_key =~= b.seed_key);
    assert(a.creator =~= b.creator);
    assert(spec_u64_to_le_bytes(a.amount) =~= s.subrange(128, 136));
    assert(spec_u64_to_le_bytes(b.amount) =~= s.subrange(128, 136));
    assert(spec_u64_to_le_bytes(a.claimed) =~= s.subrange(136, 144));
    assert(spec_u64_to_le_bytes(b.claimed) =~= s.subrange(136, 144));
    assert(spec_u64_to_le_bytes(a.start) =~= s.subrange(144, 152));
    assert(spec_u64_to_le_bytes(b.start) =~= s.subrange(144, 152));
    assert(spec_u64_to_le_bytes(a.cliff) =~= s.subrange(152, 160));
    assert(spec_u64_to_le_bytes(b.cliff) =~= s.subrange(152, 160));
    assert(spec_u64_to_le_bytes(a.duration) =~= s.subrange(160, 168));
    assert(spec_u64_to_le_bytes(b.duration) =~= s.subrange(160, 168));
    assert(spec_u64_from_le_bytes(spec_u64_to_le_bytes(a.amount)) == a.amount);
    assert(spec_u64_from_le_bytes(spec_u64_to_le_bytes(b.amount)) == b.amount);
    assert(spec_u64_from_le_bytes(spec_u64_to_le_bytes(a.claimed)) == a.claimed);
    assert(spec_u64_from_le_bytes(spec_u64_to_le_bytes(b.claimed)) == b.claimed);
    assert(spec_u64_from_le_bytes(spec_u64_to_le_bytes(a.start)) == a.start);
    assert(spec_u64_from_le_bytes(spec_u64_to_le_bytes(b.start)) == b.start);
    assert(spec_u64_from_le_bytes(spec_u64_to_le_bytes(a.cliff)) == a.cliff);
    assert(spec_u64_from_le_bytes(spec_u64_to_le_bytes(b.cliff)) == b.cliff);
    assert(spec_u64_from_le_bytes(spec_u64_to_le_bytes(a.duration)) == a.duration);
    assert(spec_u64_from_le_bytes(spec_u64_to_le_bytes(b.duration)) == b.duration);
}

/// An account handed to an instruction: its address, whether it signed,
/// whether it has been allocated, and its storage.
#[derive(Debug)]
pub struct AccountState {
    pub key: Key,
    pub is_signer: bool,
    pub exists: bool,
    pub data: Vec<u8>,
}

/// Token account that locks the vested funds; its authority is its own address.
#[derive(Debug, Clone, Copy, PartialEq, Eq, Structural)]
pub struct Vault {
    pub amount: u64,
}

impl PDAData for Vault {}

/// Token account that receives claimed funds; its authority is the beneficiary.
#[derive(Debug, Clone, Copy, PartialEq, Eq, Structural)]
pub struct Distribute {}

impl PDAData for Distribute {}

impl Default for Vault {
    fn default() -> (r: Vault)
        ensures
            r.amount == 0,
    {
        Vault { amount: 0 }
    }
}

impl Default for Distribute {
    fn default() -> (r: Distribute) {
        Distribute {}
    }
}

/// Seed tag of the vesting record.
pub open spec fn vesting_tag() -> Seq<u8> {
    seq![86u8, 69, 83, 84, 73, 78, 71]
}

/// Seed tag of the vault.
pub open spec fn vault_tag() -> Seq<u8> {
    seq![86u8, 65, 85, 76, 84]
}

/// Seed tag of the distribution account.
pub open spec fn distribute_tag() -> Seq<u8> {
    seq![68u8, 73, 83, 84, 82, 73, 66, 85, 84, 69]
}

/// The seeds of a derived account: its tag, then the seed key.
pub open spec fn pda_seeds(tag: Seq<u8>, seed_key: Seq<u8>) -> Seq<Seq<u8>> {
    seq![tag, seed_key]
}

fn make_seeds(tag: Vec<u8>, seed_key: &Key) -> (r: Vec<Vec<u8>>)
    ensures
        r.deep_view() == pda_seeds(tag@, seed_key@),
{
    let ghost t = tag@;
    let mut r: Vec<Vec<u8>> = Vec::new();
    r.push(tag);
    r.push(key_to_vec(seed_key));
    assert(r.deep_view()[0] =~= t);
    assert(r.deep_view()[1] =~= seed_key@);
    assert(r.deep_view() =~= pda_seeds(t, seed_key@));
    r
}

/// Finds the bump seed under which `key` is the address derived from `seeds`.
fn locate(program_id: &Key, key: &Key, seeds: &Vec<Vec<u8>>) -> (r: Result<u8, VestingError>)
    ensures
        match r {
            Ok(bump) => program_address(seeds.deep_view(), program_id@) == Some((key@, bump)),
            Err(e) => e == VestingError::Custom(CustomError::InvalidPDAKey) && derived_key(
                seeds.deep_view(),
                program_id@,
            ) != Some(key@),
        },
{
    match find_program_address(seeds, program_id) {
        Some((calculated, bump)) => {
            if keys_equal(key, &calculated) {
                Ok(bump)
            } else {
                Err(VestingError::Custom(CustomError::InvalidPDAKey))
            }
        },
        None => Err(VestingError::Custom(CustomError::InvalidPDAKey)),
    }
}

/// Who owns an account once it is created.
#[derive(Debug, Clone, Copy, PartialEq, Eq, Structural)]
pub enum Owner {
    /// This program, for records in its own schema.
    Program,
    /// The token program, for token accounts.
    TokenProgram,
}

/// A call into the runtime that an instruction asks for, signed where needed
/// with the seeds and bump of a derived account.
#[derive(Debug)]
pub enum Action {
    /// Allocate `space` bytes at `address`, paid by `payer`, for `owner`.
    CreateAccount {
        payer: Key,
        address: Key,
        seeds: Vec<Vec<u8>>,
        bump: u8,
        space: usize,
        owner: Owner,
    },
    /// Bind the allocated `address` to `mint` as a token account of `authority`.
    InitializeTokenAccount { address: Key, mint: Key, authority: Key },
    /// Move `amount` tokens from the token account `source` to `destination`,
    /// authorised by the signer `authority`.
    TransferIn { source: Key, destination: Key, authority: Key, amount: u64 },
    /// Move `amount` tokens from the derived token account `source` to `destination`.
    TransferOut {
        source: Key,
        destination: Key,
        seeds: Vec<Vec<u8>>,
        bump: u8,
        amount: u64,
    },
}

/// `a` allocates the derived account `address` with `space` bytes for `owner`.
pub open spec fn is_create(
    a: Action,
    payer: Key,
    address: Key,
    seeds: Seq<Seq<u8>>,
    bump: u8,
    space: usize,
    owner: Owner,
) -> bool {
    match a {
        Action::CreateAccount { payer: p, address: k, seeds: s, bump: b, space: n, owner: o } => {
            p == payer && k == address && s.deep_view() == seeds && b == bump && n == space && o
                == owner
        },
        _ => false,
    }
}

/// `a` moves `amount` from the derived account `source` to `destination`.
pub open spec fn is_transfer_out(
    a: Action,
    source: Key,
    destination: Key,
    seeds: Seq<Seq<u8>>,
    bump: u8,
    amount: u64,
) -> bool {
    match a {
        Action::TransferOut { source: f, destination: t, seeds: s, bump: b, amount: n } => {
            f == source && t == destination && s.deep_view() == seeds && b == bump && n == amount
        },
        _ => false,
    }
}

/// An account at an address derived by this program, with its decoded data.
#[derive(Debug)]
pub struct PDA<D: PDAData> {
    pub info: AccountState,
    pub data: D,
    pub program_id: Key,
    pub seeds: Vec<Vec<u8>>,
    pub bump: u8,
}

impl<D: PDAData> PDA<D> {
    /// The account's address is the one derived from its seeds, under its bump.
    pub open spec fn addressed(&self) -> bool {
        program_address(self.seeds.deep_view(), self.program_id@) == Some((self.info.key@, self.bump))
    }

    /// Validates that the account's address matches the seeds.
    pub fn check(&self) -> (r: Result<(), VestingError>)
        ensures
            r is Ok <==> crate::helpers::derived_key(self.seeds.deep_view(), self.program_id@)
                == Some(self.info.key@),
            r is Err ==> r == Err::<(), VestingError>(
                VestingError::Custom(CustomError::InvalidPDAKey),
            ),
    {
        crate::helpers::check_expected_address(&self.info.key, &self.program_id, &self.seeds)
    }

    /// `other` is this account, at the same address, with possibly other
    /// existence, storage and data.
    pub open spec fn same_place(&self, other: &PDA<D>) -> bool {
        &&& other.info.key == self.info.key
        &&& other.info.is_signer == self.info.is_signer
        &&& other.program_id == self.program_id
        &&& other.seeds == self.seeds
        &&& other.bump == self.bump
    }

    /// `other` is this account with only its existence and storage changed.
    pub open spec fn same_but_storage(&self, other: &PDA<D>) -> bool {
        &&& self.same_place(other)
        &&& other.data == self.data
    }

    /// Allocates the account, recording the call in `actions`.
    fn allocate(&mut self, payer: &Key, space: usize, owner: Owner, actions: &mut Vec<Action>) -> (r:
        Result<(), VestingError>)
        ensures
            old(self).info.exists ==> {
                &&& r == Err::<(), VestingError>(VestingError::AccountAlreadyInitialized)
                &&& *final(self) == *old(self)
                &&& final(actions)@ == old(actions)@
            },
            !old(self).info.exists ==> {
                &&& r is Ok
                &&& old(self).same_but_storage(final(self))
                &&& final(self).info.exists
                &&& final(self).info.data@ == Seq::new(space as nat, |i: int| 0u8)
                &&& final(actions)@.len() == old(actions)@.len() + 1
                &&& final(actions)@.take(old(actions)@.len() as int) == old(actions)@
                &&& is_create(
                    final(actions)@.last(),
                    *payer,
                    old(self).info.key,
                    old(self).seeds.deep_view(),
                    old(self).bump,
                    space,
                    owner,
                )
            },
    {
        if self.info.exists {
            return Err(VestingError::AccountAlreadyInitialized);
        }
        self.info.exists = true;
        self.info.data = vec![0u8; space];
        assert(self.info.data@ =~= Seq::new(space as nat, |i: int| 0u8));
        actions.push(
            Action::CreateAccount {
                payer: *payer,
                address: self.info.key,
                seeds: self.seeds.clone(),
                bump: self.bump,
                space,
                owner,
            },
        );
        assert(actions@.take(old(actions)@.len() as int) =~= old(actions)@);
        Ok(())
    }
}

fn vesting_tag_bytes() -> (r: Vec<u8>)
    ensures
        r@ == vesting_tag(),
{
    let r = vec![86u8, 69, 83, 84, 73, 78, 71];
    assert(r@ =~= vesting_tag());
    r
}

fn vault_tag_bytes() -> (r: Vec<u8>)
    ensures
        r@ == vault_tag(),
{
    let r = vec![86u8, 65, 85, 76, 84];
    assert(r@ =~= vault_tag());
    r
}

fn distribute_tag_bytes() -> (r: Vec<u8>)
    ensures
        r@ == distribute_tag(),
{
    let r = vec![68u8, 73, 83, 84, 82, 73, 66, 85, 84, 69];
    assert(r@ =~= distribute_tag());
    r
}

impl PDA<Vesting> {
    /// Size of the storage allocated for the record.
    pub fn size() -> (r: usize)
        ensures
            r == VESTING_LEN,
    {
        VESTING_LEN
    }

    /// Wraps the vesting record account of `seed_key`, validating its address.
    pub fn new(program_id: &Key, info: AccountState, seed_key: &Key) -> (r: Result<
        PDA<Vesting>,
        VestingError,
    >)
        ensures
            r is Ok <==> derived_key(pda_seeds(vesting_tag(), seed_key@), program_id@) == Some(
                info.key@,
            ),
            r is Err ==> r == Err::<PDA<Vesting>, VestingError>(
                VestingError::Custom(CustomError::InvalidPDAKey),
            ),
            r matches Ok(p) ==> {
                &&& p.info == info
                &&& p.program_id == *program_id
                &&& p.seeds.deep_view() == pda_seeds(vesting_tag(), seed_key@)
                &&& p.addressed()
                &&& stored_record(info.data@, p.data)
            },
    {
        let seeds = make_seeds(vesting_tag_bytes(), seed_key);
        let bump = locate(program_id, &info.key, &seeds)?;
        let data = match Vesting::from_bytes(info.data.as_slice()) {
            Some(v) => v,
            None => Vesting::default(),
        };
        Ok(PDA { info, data, program_id: *program_id, seeds, bump })
    }

    /// Stores the record in the account; fails where the storage is not one record long.
    pub fn write(&mut self) -> (r: Result<(), VestingError>)
        ensures
            r is Ok <==> old(self).info.data@.len() == VESTING_LEN,
            r is Err ==> r == Err::<(), VestingError>(VestingError::AccountDataTooSmall),
            r is Err ==> *final(self) == *old(self),
            r is Ok ==> {
                &&& old(self).same_but_storage(final(self))
                &&& final(self).info.exists == old(self).info.exists
                &&& final(self).info.data@ == old(self).data.spec_bytes()
            },
    {
        if self.info.data.len() != VESTING_LEN {
            return Err(VestingError::AccountDataTooSmall);
        }
        self.info.data = self.data.to_bytes();
        Ok(())
    }

    /// Allocates the record account, owned by this program.
    pub fn create(&mut self, payer: &Key, actions: &mut Vec<Action>) -> (r: Result<(), VestingError>)
        ensures
            old(self).info.exists ==> {
                &&& r == Err::<(), VestingError>(VestingError::AccountAlreadyInitialized)
                &&& *final(self) == *old(self)
                &&& final(actions)@ == old(actions)@
            },
            !old(self).info.exists ==> {
                &&& r is Ok
                &&& old(self).same_but_storage(final(self))
                &&& final(self).info.exists
                &&& final(self).info.data@ == Seq::new(VESTING_LEN as nat, |i: int| 0u8)
                &&& appended(old(actions)@, final(actions)@, 1)
                &&& is_create(
                    final(actions)@.last(),
                    *payer,
                    old(self).info.key,
                    old(self).seeds.deep_view(),
                    old(self).bump,
                    VESTING_LEN,
                    Owner::Program,
                )
            },
    {
        self.allocate(payer, VESTING_LEN, Owner::Program, actions)
    }
}

impl PDA<Vault> {
    /// Size of the storage allocated for a token account.
    pub fn size() -> (r: usize)
        ensures
            r == TOKEN_ACCOUNT_LEN,
    {
        TOKEN_ACCOUNT_LEN
    }

    /// Wraps the vault account of `seed_key`, validating its address and
    /// reading its token balance.
    pub fn new(program_id: &Key, info: AccountState, seed_key: &Key) -> (r: Result<
        PDA<Vault>,
        VestingError,
    >)
        ensures
            r is Ok <==> derived_key(pda_seeds(vault_tag(), seed_key@), program_id@) == Some(
                info.key@,
            ),
            r is Err ==> r == Err::<PDA<Vault>, VestingError>(
                VestingError::Custom(CustomError::InvalidPDAKey),
            ),
            r matches Ok(p) ==> {
                &&& p.info == info
                &&& p.program_id == *program_id
                &&& p.seeds.deep_view() == pda_seeds(vault_tag(), seed_key@)
                &&& p.addressed()
                &&& p.data.amount == token_balance(info.data@)
            },
    {
        let seeds = make_seeds(vault_tag_bytes(), seed_key);
        let bump = locate(program_id, &info.key, &seeds)?;
        let amount = read_token_balance(info.data.as_slice());
        Ok(PDA { info, data: Vault { amount }, program_id: *program_id, seeds, bump })
    }

    /// A token account has no schema of this program to write.
    pub fn write(&mut self) -> (r: Result<(), VestingError>)
        ensures
            r == Err::<(), VestingError>(VestingError::Custom(CustomError::WriteToPDAForbidden)),
            *final(self) == *old(self),
    {
        Err(VestingError::Custom(CustomError::WriteToPDAForbidden))
    }

    /// Allocates the vault as an empty token account of `mint` whose authority
    /// is the vault's own address.
    pub fn create(&mut self, payer: &Key, mint: &Key, actions: &mut Vec<Action>) -> (r: Result<
        (),
        VestingError,
    >)
        ensures
            old(self).info.exists ==> {
                &&& r == Err::<(), VestingError>(VestingError::AccountAlreadyInitialized)
                &&& *final(self) == *old(self)
                &&& final(actions)@ == old(actions)@
            },
            !old(self).info.exists ==> {
                &&& r is Ok
                &&& old(self).same_place(final(self))
                &&& final(self).data.amount == 0
                &&& final(self).info.exists
                &&& final(self).info.data@ == Seq::new(TOKEN_ACCOUNT_LEN as nat, |i: int| 0u8)
                &&& appended(old(actions)@, final(actions)@, 2)
                &&& is_create(
                    final(actions)@[old(actions)@.len() as int],
                    *payer,
                    old(self).info.key,
                    old(self).seeds.deep_view(),
                    old(self).bump,
                    TOKEN_ACCOUNT_LEN,
                    Owner::TokenProgram,
                )
                &&& final(actions)@.last() == (Action::InitializeTokenAccount {
                    address: old(self).info.key,
                    mint: *mint,
                    authority: old(self).info.key,
                })
            },
    {
        self.allocate(payer, TOKEN_ACCOUNT_LEN, Owner::TokenProgram, actions)?;
        self.data.amount = 0;
        let ghost mid = actions@;
        actions.push(
            Action::InitializeTokenAccount {
                address: self.info.key,
                mint: *mint,
                authority: self.info.key,
            },
        );
        proof {
            let n = old(actions)@.len() as int;
            assert(actions@.take(n) =~= mid.take(n));
            assert(actions@[n] == mid.last());
        }
        Ok(())
    }

    /// Moves `amount` from the token account `source` into the vault,
    /// authorised by the signer `authority`.
    pub fn transfer_in(&mut self, source: &Key, authority: &Key, amount: u64, actions: &mut Vec<
        Action,
    >) -> (r: Result<(), VestingError>)
        ensures
            old(self).data.amount + amount > u64::MAX ==> {
                &&& r == Err::<(), VestingError>(VestingError::InsufficientFunds)
                &&& *final(self) == *old(self)
                &&& final(actions)@ == old(actions)@
            },
            old(self).data.amount + amount <= u64::MAX ==> {
                &&& r is Ok
                &&& final(self).data.amount == old(self).data.amount + amount
                &&& final(self).info == old(self).info
                &&& final(self).program_id == old(self).program_id
                &&& final(self).seeds == old(self).seeds
                &&& final(self).bump == old(self).bump
                &&& appended(old(actions)@, final(actions)@, 1)
                &&& final(actions)@.last() == (Action::TransferIn {
                    source: *source,
                    destination: old(self).info.key,
                    authority: *authority,
                    amount,
                })
            },
    {
        if amount > u64::MAX - self.data.amount {
            return Err(VestingError::InsufficientFunds);
        }
        self.data.amount = self.data.amount + amount;
        actions.push(
            Action::TransferIn {
                source: *source,
                destination: self.info.key,
                authority: *authority,
                amount,
            },
        );
        assert(actions@.take(old(actions)@.len() as int) =~= old(actions)@);
        Ok(())
    }

    /// Moves `amount` out of the vault to `destination`, signed with the
    /// vault's seeds; fails where the vault holds less.
    pub fn transfer_out(&mut self, destination: &Key, amount: u64, actions: &mut Vec<Action>) -> (r:
        Result<(), VestingError>)
        ensures
            amount > old(self).data.amount ==> {
                &&& r == Err::<(), VestingError>(VestingError::InsufficientFunds)
                &&& *final(self) == *old(self)
                &&& final(actions)@ == old(actions)@
            },
            amount <= old(self).data.amount ==> {
                &&& r is Ok
                &&& final(self).data.amount == old(self).data.amount - amount
                &&& final(self).info == old(self).info
                &&& final(self).program_id == old(self).program_id
                &&& final(self).seeds == old(self).seeds
                &&& final(self).bump == old(self).bump
                &&& appended(old(actions)@, final(actions)@, 1)
                &&& is_transfer_out(
                    final(actions)@.last(),
                    old(self).info.key,
                    *destination,
                    old(self).seeds.deep_view(),
                    old(self).bump,
                    amount,
                )
            },
    {
        if amount > self.data.amount {
            return Err(VestingError::InsufficientFunds);
        }
        self.data.amount = self.data.amount - amount;
        actions.push(
            Action::TransferOut {
                source: self.info.key,
                destination: *destination,
                seeds: self.seeds.clone(),
                bump: self.bump,
                amount,
            },
        );
        assert(actions@.take(old(actions)@.len() as int) =~= old(actions)@);
        Ok(())
    }
}

impl PDA<Distribute> {
    /// Size of the storage allocated for a token account.
    pub fn size() -> (r: usize)
        ensures
            r == TOKEN_ACCOUNT_LEN,
    {
        TOKEN_ACCOUNT_LEN
    }

    /// Wraps the distribution account of `seed_key`, validating its address.
    pub fn new(program_id: &Key, info: AccountState, seed_key: &Key) -> (r: Result<
        PDA<Distribute>,
        VestingError,
    >)
        ensures
            r is Ok <==> derived_key(pda_seeds(distribute_tag(), seed_key@), program_id@) == Some(
                info.key@,
            ),
            r is Err ==> r == Err::<PDA<Distribute>, VestingError>(
                VestingError::Custom(CustomError::InvalidPDAKey),
            ),
            r matches Ok(p) ==> {
                &&& p.info == info
                &&& p.program_id == *program_id
                &&& p.seeds.deep_view() == pda_seeds(distribute_tag(), seed_key@)
                &&& p.addressed()
            },
    {
        let seeds = make_seeds(distribute_tag_bytes(), seed_key);
        let bump = locate(program_id, &info.key, &seeds)?;
        Ok(PDA { info, data: Distribute {}, program_id: *program_id, seeds, bump })
    }

    /// A token account has no schema of this program to write.
    pub fn write(&mut self) -> (r: Result<(), VestingError>)
        ensures
            r == Err::<(), VestingError>(VestingError::Custom(CustomError::WriteToPDAForbidden)),
            *final(self) == *old(self),
    {
        Err(VestingError::Custom(CustomError::WriteToPDAForbidden))
    }

    /// Allocates the distribution account as a token account of `mint` whose
    /// authority is `authority`, the beneficiary.
    pub fn create(&mut self, payer: &Key, mint: &Key, authority: &Key, actions: &mut Vec<Action>) -> (r:
        Result<(), VestingError>)
        ensures
            old(self).info.exists ==> {
                &&& r == Err::<(), VestingError>(VestingError::AccountAlreadyInitialized)
                &&& *final(self) == *old(self)
                &&& final(actions)@ == old(actions)@
            },
            !old(self).info.exists ==> {
                &&& r is Ok
                &&& old(self).same_but_storage(final(self))
                &&& final(self).info.exists
                &&& final(self).info.data@ == Seq::new(TOKEN_ACCOUNT_LEN as nat, |i: int| 0u8)
                &&& appended(old(actions)@, final(actions)@, 2)
                &&& is_create(
                    final(actions)@[old(actions)@.len() as int],
                    *payer,
                    old(self).info.key,
                    old(self).seeds.deep_view(),
                    old(self).bump,
                    TOKEN_ACCOUNT_LEN,
                    Owner::TokenProgram,
                )
                &&& final(actions)@.last() == (Action::InitializeTokenAccount {
                    address: old(self).info.key,
                    mint: *mint,
                    authority: *authority,
                })
            },
    {
        self.allocate(payer, TOKEN_ACCOUNT_LEN, Owner::TokenProgram, actions)?;
        let ghost mid = actions@;
        actions.push(
            Action::InitializeTokenAccount { address: self.info.key, mint: *mint, authority: *authority },
        );
        proof {
            let n = old(actions)@.len() as int;
            assert(actions@.take(n) =~= mid.take(n));
            assert(actions@[n] == mid.last());
        }
        Ok(())
    }
}

} // verus!
