use vstd::bytes::{
    lemma_auto_spec_u64_to_from_le_bytes, spec_u64_to_le_bytes, u64_from_le_bytes,
    u64_to_le_bytes,
};
use vstd::prelude::*;
use vstd::slice::slice_subrange;

use crate::error::VestingError;
use crate::helpers::{key_at, key_to_vec, Key};
use crate::pda::{AccountState, Distribute, Vault, Vesting, PDA};

verus! {

/// Length of an encoded `CreateVesting` instruction.
pub const CREATE_VESTING_LEN: usize = 65;

/// Length of an encoded `Claim` instruction.
pub const CLAIM_LEN: usize = 33;

/// The two instructions of the program.
#[derive(Debug, Clone, Copy, PartialEq, Eq)]
pub enum VestingInstruction {
    /// Open a schedule of `amount` tokens for `beneficiary`.
    CreateVesting { beneficiary: Key, amount: u64, start: u64, cliff: u64, duration: u64 },
    /// Release what has unlocked under the schedule of `seed_key`.
    Claim { seed_key: Key },
}

/// Byte strings of the shape of an encoded instruction: tag 0 and 65 bytes,
/// or tag 1 and 33 bytes.
pub open spec fn instruction_shape(s: Seq<u8>) -> bool {
    ||| (s.len() == CREATE_VESTING_LEN && s[0] == 0)
    ||| (s.len() == CLAIM_LEN && s[0] == 1)
}

impl VestingInstruction {
    /// The encoding: a variant tag byte, then the fields in order, addresses as
    /// 32 bytes and integers as eight little-endian bytes.
    pub open spec fn spec_bytes(self) -> Seq<u8> {
        match self {
            VestingInstruction::CreateVesting { beneficiary, amount, start, cliff, duration } => {
                seq![0u8] + beneficiary@ + spec_u64_to_le_bytes(amount) + spec_u64_to_le_bytes(start)
                    + spec_u64_to_le_bytes(cliff) + spec_u64_to_le_bytes(duration)
            },
            VestingInstruction::Claim { seed_key } => seq![1u8] + seed_key@,
        }
    }

    /// Encodes the instruction.
    pub fn pack(&self) -> (r: Vec<u8>)
        ensures
            r@ == self.spec_bytes(),
    {
        proof {
            lemma_auto_spec_u64_to_from_le_bytes();
        }
        match self {
            VestingInstruction::CreateVesting { beneficiary, amount, start, cliff, duration } => {
                let mut r: Vec<u8> = Vec::new();
                r.push(0u8);
                let mut part = key_to_vec(beneficiary);
                r.append(&mut part);
                let mut part = u64_to_le_bytes(*amount);
                r.append(&mut part);
                let mut part = u64_to_le_bytes(*start);
                r.append(&mut part);
                let mut part = u64_to_le_bytes(*cliff);
                r.append(&mut part);
                let mut part = u64_to_le_bytes(*duration);
                r.append(&mut part);
                assert(r@ =~= self.spec_bytes());
                r
            },
            VestingInstruction::Claim { seed_key } => {
                let mut r: Vec<u8> = Vec::new();
                r.push(1u8);
                let mut part = key_to_vec(seed_key);
                r.append(&mut part);
                assert(r@ =~= self.spec_bytes());
                r
            },
        }
    }

    /// Decodes an instruction; fails unless `data` is exactly one encoded instruction.
    pub fn unpack(data: &[u8]) -> (r: Result<VestingInstruction, VestingError>)
        ensures
            r is Ok <==> instruction_shape(data@),
            r is Err ==> r == Err::<VestingInstruction, VestingError>(
                VestingError::InvalidInstructionData,
            ),
            r matches Ok(i) ==> i.spec_bytes() == data@,
    {
        proof {
            lemma_auto_spec_u64_to_from_le_bytes();
        }
        let n = data.len();
        if n == CREATE_VESTING_LEN && data[0] == 0 {
            let i = VestingInstruction::CreateVesting {
                beneficiary: key_at(data, 1),
                amount: u64_from_le_bytes(slice_subrange(data, 33, 41)),
                start: u64_from_le_bytes(slice_subrange(data, 41, 49)),
                cliff: u64_from_le_bytes(slice_subrange(data, 49, 57)),
                duration: u64_from_le_bytes(slice_subrange(data, 57, 65)),
            };
            proof {
                let s = data@;
                assert(spec_u64_to_le_bytes(i->amount) == s.subrange(33, 41));
                assert(spec_u64_to_le_bytes(i->start) == s.subrange(41, 49));
                assert(spec_u64_to_le_bytes(i->cliff) == s.subrange(49, 57));
                assert(spec_u64_to_le_bytes(i->duration) == s.subrange(57, 65));
                assert(i.spec_bytes() =~= s);
            }
            Ok(i)
        } else if n == CLAIM_LEN && data[0] == 1 {
            let i = VestingInstruction::Claim { seed_key: key_at(data, 1) };
            assert(i.spec_bytes() =~= data@);
            Ok(i)
        } else {
            Err(VestingError::InvalidInstructionData)
        }
    }
}

/// Two instructions with the same encoding are the same instruction.
pub proof fn lemma_encoding_injective(a: VestingInstruction, b: VestingInstruction)
    requires
        a.spec_bytes() == b.spec_bytes(),
    ensures
        a == b,
{
    lemma_auto_spec_u64_to_from_le_bytes();
    let s = a.spec_bytes();
    assert(s[0] == a.spec_bytes()[0]);
    match a {
        VestingInstruction::CreateVesting { beneficiary, amount, start, cliff, duration } => {
            match b {
                VestingInstruction::CreateVesting { .. } => {
                    assert(beneficiary@ =~= s.subrange(1, 33));
                    assert(b->beneficiary@ =~= s.subrange(1, 33));
                    assert(beneficiary =~= b->beneficiary);
                    assert(spec_u64_to_le_bytes(amount) =~= s.subrange(33, 41));
                    assert(spec_u64_to_le_bytes(b->amount) =~= s.subrange(33, 41));
                    assert(spec_u64_to_le_bytes(start) =~= s.subrange(41, 49));
                    assert(spec_u64_to_le_bytes(b->start) =~= s.subrange(41, 49));
                    assert(spec_u64_to_le_bytes(cliff) =~= s.subrange(49, 57));
                    assert(spec_u64_to_le_bytes(b->cliff) =~= s.subrange(49, 57));
                    assert(spec_u64_to_le_bytes(duration) =~= s.subrange(57, 65));
                    assert(spec_u64_to_le_bytes(b->duration) =~= s.subrange(57, 65));
                    assert(vstd::bytes::spec_u64_from_le_bytes(spec_u64_to_le_bytes(amount)) == amount);
                    assert(vstd::bytes::spec_u64_from_le_bytes(spec_u64_to_le_bytes(b->amount)) == b->amount);
                    assert(vstd::bytes::spec_u64_from_le_bytes(spec_u64_to_le_bytes(start)) == start);
                    assert(vstd::bytes::spec_u64_from_le_bytes(spec_u64_to_le_bytes(b->start)) == b->start);
                    assert(vstd::bytes::spec_u64_from_le_bytes(spec_u64_to_le_bytes(cliff)) == cliff);
                    assert(vstd::bytes::spec_u64_from_le_bytes(spec_u64_to_le_bytes(b->cliff)) == b->cliff);
                    assert(vstd::bytes::spec_u64_from_le_bytes(spec_u64_to_le_bytes(duration)) == duration);
                    assert(vstd::bytes::spec_u64_from_le_bytes(spec_u64_to_le_bytes(b->duration)) == b->duration);
                },
                VestingInstruction::Claim { seed_key } => {
                    assert(b.spec_bytes()[0] == 1);
                },
            }
        },
        VestingInstruction::Claim { seed_key } => {
            match b {
                VestingInstruction::CreateVesting { .. } => {
                    assert(b.spec_bytes()[0] == 0);
                },
                VestingInstruction::Claim { .. } => {
                    assert(seed_key@ =~= s.subrange(1, 33));
                    assert(b->seed_key@ =~= s.subrange(1, 33));
                    assert(seed_key =~= b->seed_key);
                },
            }
        },
    }
}

/// Every instruction encodes to a byte string of the instruction shape.
pub proof fn lemma_encoding_shape(i: VestingInstruction)
    ensures
        instruction_shape(i.spec_bytes()),
{
    lemma_auto_spec_u64_to_from_le_bytes();
}

/// The accounts of `CreateVesting`, once the rent sysvar has been read.
pub struct CreateVestingAccounts {
    /// The creator, who pays for the new accounts.
    pub signer: AccountState,
    /// The account whose address seeds the derived accounts.
    pub seed: AccountState,
    /// The mint of the vested token.
    pub mint: AccountState,
    pub vesting: PDA<Vesting>,
    pub vault: PDA<Vault>,
    pub distribute: PDA<Distribute>,
    /// The creator's token account of the mint, from which the grant is deposited.
    pub wallet: AccountState,
}

/// The accounts of `Claim`, once the clock sysvar has been read.
pub struct ClaimAccounts {
    /// The current time of the clock sysvar.
    pub unix_timestamp: i64,
    pub vesting: PDA<Vesting>,
    pub vault: PDA<Vault>,
    pub distribute: PDA<Distribute>,
}

} // verus!
