use vstd::prelude::*;

use crate::error::{CustomError, VestingError};
use crate::helpers::Key;
use crate::helpers::{derived_key, program_address, read_token_balance, token_balance};
use crate::instruction::{
    instruction_shape, lemma_encoding_injective, ClaimAccounts, CreateVestingAccounts,
    VestingInstruction,
};
use crate::pda::{
    appended, distribute_tag, is_create, is_transfer_out, pda_seeds, vault_tag, vesting_tag,
    AccountState, Action, Distribute, Owner, PDAData, Vault, Vesting, PDA, VESTING_LEN,
};
use crate::helpers::TOKEN_ACCOUNT_LEN;

verus! {

/// Tokens unlocked at `now` under a linear schedule: nothing before the cliff,
/// `u64::MAX` ("release whatever the vault holds") once `duration` has elapsed
/// since `start`, and the floor of `amount * elapsed / duration` in between.
pub open spec fn unlocked(start: u64, cliff: u64, duration: u64, amount: u64, now: u64) -> u64 {
    if start + cliff > now {
        0
    } else if now - start >= duration {
        u64::MAX
    } else {
        (amount * (now - start) / duration as int) as u64
    }
}

/// Amount unlocked at the `now` moment, see [`unlocked`].
pub fn calculate_amount(start: u64, cliff: u64, duration: u64, amount: u64, now: u64) -> (r: u64)
    ensures
        r == unlocked(start, cliff, duration, amount, now),
{
    if start as u128 + cliff as u128 > now as u128 {
        return 0;
    }
    let elapsed: u64 = now - start;
    if elapsed >= duration {
        return u64::MAX;
    }
    proof {
        lemma_scaled_below(amount as int, elapsed as int, duration as int);
    }
    let scaled: u128 = amount as u128 * elapsed as u128 / duration as u128;
    scaled as u64
}

/// `amount * elapsed / duration` stays below `amount` when `elapsed < duration`,
/// and the product fits in 128 bits.
proof fn lemma_scaled_below(amount: int, elapsed: int, duration: int)
    requires
        0 <= amount <= u64::MAX,
        0 <= elapsed < duration <= u64::MAX,
    ensures
        amount * elapsed <= u128::MAX,
        0 <= amount * elapsed / duration <= amount,
{
    assert(amount * elapsed <= u64::MAX * u64::MAX) by (nonlinear_arith)
        requires
            0 <= amount <= u64::MAX,
            0 <= elapsed <= u64::MAX,
    ;
    assert(amount * elapsed <= amount * duration) by (nonlinear_arith)
        requires
            0 <= amount,
            0 <= elapsed < duration,
    ;
    vstd::arithmetic::div_mod::lemma_div_is_ordered(amount * elapsed, amount * duration, duration);
    vstd::arithmetic::div_mod::lemma_div_multiples_vanish(amount, duration);
    vstd::arithmetic::mul::lemma_mul_is_commutative(amount, duration);
    vstd::arithmetic::div_mod::lemma_div_pos_is_pos(amount * elapsed, duration);
}

/// The first rule that a new schedule breaks, if any: `start + cliff` must fit
/// in 64 bits, the cliff must not exceed the duration, and the amount must not be zero.
pub open spec fn schedule_error(amount: u64, start: u64, cliff: u64, duration: u64) -> Option<
    CustomError,
> {
    if start + cliff > u64::MAX {
        Some(CustomError::StartCliffOverflow)
    } else if cliff > duration {
        Some(CustomError::CliffOverDuration)
    } else if amount == 0 {
        Some(CustomError::ZeroAmount)
    } else {
        None
    }
}

/// Checks the parameters of a new schedule.
pub fn check_schedule(amount: u64, start: u64, cliff: u64, duration: u64) -> (r: Result<
    (),
    VestingError,
>)
    ensures
        match schedule_error(amount, start, cliff, duration) {
            Some(e) => r == Err::<(), VestingError>(VestingError::Custom(e)),
            None => r is Ok,
        },
{
    if start.checked_add(cliff).is_none() {
        return Err(VestingError::Custom(CustomError::StartCliffOverflow));
    }
    if cliff > duration {
        return Err(VestingError::Custom(CustomError::CliffOverDuration));
    }
    if amount == 0 {
        return Err(VestingError::Custom(CustomError::ZeroAmount));
    }
    Ok(())
}

/// The record that `CreateVesting` stores.
pub open spec fn new_record(
    accounts: CreateVestingAccounts,
    beneficiary: Key,
    amount: u64,
    start: u64,
    cliff: u64,
    duration: u64,
) -> Vesting {
    Vesting {
        beneficiary,
        mint: accounts.mint.key,
        seed_key: accounts.seed.key,
        creator: accounts.signer.key,
        amount,
        claimed: 0,
        start,
        cliff,
        duration,
    }
}

/// A derived account as the runtime calls see it: address, seeds and bump.
pub type Derived = (Key, Seq<Seq<u8>>, u8);

/// The calls that `CreateVesting` asks for: allocate the record, allocate and
/// initialize the vault under its own authority, allocate and initialize the
/// distribution account under the beneficiary's authority, then deposit
/// `amount` from the creator's `wallet` into the vault.
pub open spec fn creation_calls(
    actions: Seq<Action>,
    payer: Key,
    wallet: Key,
    mint: Key,
    beneficiary: Key,
    amount: u64,
    record: Derived,
    vault: Derived,
    distribute: Derived,
) -> bool {
    &&& actions.len() == 6
    &&& is_create(actions[0], payer, record.0, record.1, record.2, VESTING_LEN, Owner::Program)
    &&& is_create(actions[1], payer, vault.0, vault.1, vault.2, TOKEN_ACCOUNT_LEN, Owner::TokenProgram)
    &&& actions[2] == (Action::InitializeTokenAccount { address: vault.0, mint, authority: vault.0 })
    &&& is_create(
        actions[3],
        payer,
        distribute.0,
        distribute.1,
        distribute.2,
        TOKEN_ACCOUNT_LEN,
        Owner::TokenProgram,
    )
    &&& actions[4] == (Action::InitializeTokenAccount {
        address: distribute.0,
        mint,
        authority: beneficiary,
    })
    &&& actions[5] == (Action::TransferIn {
        source: wallet,
        destination: vault.0,
        authority: payer,
        amount,
    })
}

/// The address, seeds and bump of a wrapped account.
pub open spec fn derived<D: PDAData>(p: PDA<D>) -> Derived {
    (p.info.key, p.seeds.deep_view(), p.bump)
}

/// Opens a schedule: checks its parameters, allocates the record, the vault
/// and the distribution account, stores the record with nothing claimed, and
/// deposits `amount` from the creator's wallet into the vault. Returns the
/// runtime calls that allocate and initialize the accounts and move the deposit.
pub fn create_vesting(
    accounts: &mut CreateVestingAccounts,
    beneficiary: Key,
    amount: u64,
    start: u64,
    cliff: u64,
    duration: u64,
) -> (r: Result<Vec<Action>, VestingError>)
    ensures
        schedule_error(amount, start, cliff, duration) matches Some(e) ==> r == Err::<
            Vec<Action>,
            VestingError,
        >(VestingError::Custom(e)),
        schedule_error(amount, start, cliff, duration) is None && (old(accounts).vesting.info.exists
            || old(accounts).vault.info.exists || old(accounts).distribute.info.exists) ==> r
            == Err::<Vec<Action>, VestingError>(VestingError::AccountAlreadyInitialized),
        schedule_error(amount, start, cliff, duration) is None && !old(accounts).vesting.info.exists
            && !old(accounts).vault.info.exists && !old(accounts).distribute.info.exists
            && token_balance(old(accounts).wallet.data@) < amount ==> r == Err::<
            Vec<Action>,
            VestingError,
        >(VestingError::InsufficientFunds),
        r is Ok <==> schedule_error(amount, start, cliff, duration) is None
            && !old(accounts).vesting.info.exists && !old(accounts).vault.info.exists
            && !old(accounts).distribute.info.exists && token_balance(old(accounts).wallet.data@)
            >= amount,
        r is Err ==> *final(accounts) == *old(accounts),
        r matches Ok(actions) ==> {
            let record = new_record(*old(accounts), beneficiary, amount, start, cliff, duration);
            &&& final(accounts).vesting.data == record
            &&& final(accounts).vesting.info.data@ == record.spec_bytes()
            &&& final(accounts).vesting.info.exists
            &&& final(accounts).vault.info.exists
            &&& final(accounts).distribute.info.exists
            &&& final(accounts).vault.data.amount == amount
            &&& old(accounts).vesting.same_place(&final(accounts).vesting)
            &&& old(accounts).vault.same_place(&final(accounts).vault)
            &&& old(accounts).distribute.same_but_storage(&final(accounts).distribute)
            &&& final(accounts).signer == old(accounts).signer
            &&& final(accounts).seed == old(accounts).seed
            &&& final(accounts).mint == old(accounts).mint
            &&& final(accounts).wallet == old(accounts).wallet
            &&& creation_calls(
                actions@,
                old(accounts).signer.key,
                old(accounts).wallet.key,
                old(accounts).mint.key,
                beneficiary,
                amount,
                derived(old(accounts).vesting),
                derived(old(accounts).vault),
                derived(old(accounts).distribute),
            )
        },
{
    check_schedule(amount, start, cliff, duration)?;
    if accounts.vesting.info.exists || accounts.vault.info.exists || accounts.distribute.info.exists {
        return Err(VestingError::AccountAlreadyInitialized);
    }
    if read_token_balance(accounts.wallet.data.as_slice()) < amount {
        return Err(VestingError::InsufficientFunds);
    }
    let mut actions: Vec<Action> = Vec::new();
    let payer = accounts.signer.key;
    let mint = accounts.mint.key;
    let wallet = accounts.wallet.key;
    accounts.vesting.create(&payer, &mut actions)?;
    accounts.vault.create(&payer, &mint, &mut actions)?;
    accounts.distribute.create(&payer, &mint, &beneficiary, &mut actions)?;
    accounts.vault.transfer_in(&wallet, &payer, amount, &mut actions)?;
    accounts.vesting.data = Vesting {
        beneficiary,
        mint,
        seed_key: accounts.seed.key,
        creator: payer,
        amount,
        claimed: 0,
        start,
        cliff,
        duration,
    };
    accounts.vesting.write()?;
    Ok(actions)
}

/// What a claim releases: the unlocked amount not yet claimed, capped by the
/// vault's balance.
pub open spec fn claimable(total: u64, claimed: u64, balance: u64) -> u64 {
    let wanted: int = if total >= claimed {
        total - claimed
    } else {
        0
    };
    if wanted <= balance {
        wanted as u64
    } else {
        balance
    }
}

/// One claim at `now` on `record` with `balance` in the vault: the updated
/// record, the vault's remaining balance, and the amount released.
pub open spec fn claim_step(record: Vesting, balance: u64, now: u64) -> (Vesting, u64, u64) {
    let total = unlocked(record.start, record.cliff, record.duration, record.amount, now);
    let released = claimable(total, record.claimed, balance);
    (Vesting { claimed: (record.claimed + released) as u64, ..record }, (balance - released) as u64, released)
}

/// Releases what has unlocked at the clock's time: the amount not yet claimed,
/// capped by the vault's balance. The record is updated and stored first; the
/// returned calls move the released amount from the vault to the distribution
/// account, and are empty when nothing is released.
pub fn claim(accounts: &mut ClaimAccounts) -> (r: Result<Vec<Action>, VestingError>)
    requires
        old(accounts).unix_timestamp >= 0,
    ensures
        r is Ok <==> old(accounts).vesting.info.data@.len() == VESTING_LEN,
        r is Err ==> r == Err::<Vec<Action>, VestingError>(VestingError::AccountDataTooSmall),
        r is Err ==> *final(accounts) == *old(accounts),
        r matches Ok(actions) ==> {
            let step = claim_step(
                old(accounts).vesting.data,
                old(accounts).vault.data.amount,
                old(accounts).unix_timestamp as u64,
            );
            &&& step.2 <= old(accounts).vault.data.amount
            &&& final(accounts).vesting.data == step.0
            &&& final(accounts).vault.data.amount == step.1
            &&& final(accounts).vesting.info.key == old(accounts).vesting.info.key
            &&& final(accounts).vesting.info.exists == old(accounts).vesting.info.exists
            &&& final(accounts).vesting.program_id == old(accounts).vesting.program_id
            &&& final(accounts).vesting.seeds == old(accounts).vesting.seeds
            &&& final(accounts).vesting.bump == old(accounts).vesting.bump
            &&& final(accounts).vault.info == old(accounts).vault.info
            &&& final(accounts).vault.seeds == old(accounts).vault.seeds
            &&& final(accounts).vault.bump == old(accounts).vault.bump
            &&& final(accounts).distribute == old(accounts).distribute
            &&& final(accounts).unix_timestamp == old(accounts).unix_timestamp
            &&& final(accounts).vesting.info.data@ == step.0.spec_bytes()
            &&& step.2 == 0 ==> actions@.len() == 0
            &&& step.2 > 0 ==> actions@.len() == 1 && is_transfer_out(
                actions@[0],
                old(accounts).vault.info.key,
                old(accounts).distribute.info.key,
                old(accounts).vault.seeds.deep_view(),
                old(accounts).vault.bump,
                step.2,
            )
        },
{
    if accounts.vesting.info.data.len() != VESTING_LEN {
        return Err(VestingError::AccountDataTooSmall);
    }
    let now = accounts.unix_timestamp as u64;
    let record = accounts.vesting.data;
    let total = calculate_amount(record.start, record.cliff, record.duration, record.amount, now);
    let wanted = total.saturating_sub(record.claimed);
    let balance = accounts.vault.data.amount;
    let distribute = if wanted <= balance {
        wanted
    } else {
        balance
    };
    accounts.vesting.data.claimed = record.claimed + distribute;
    accounts.vesting.write()?;
    let mut actions: Vec<Action> = Vec::new();
    if distribute > 0 {
        let destination = accounts.distribute.info.key;
        accounts.vault.transfer_out(&destination, distribute, &mut actions)?;
    }
    Ok(actions)
}

/// The unlocked amount is zero before the cliff and never decreases as time
/// passes: for `t1 <= t2`, what is unlocked at `t1` is at most what is
/// unlocked at `t2`.
pub proof fn lemma_unlocked_monotone(start: u64, cliff: u64, duration: u64, amount: u64, t1: u64, t2: u64)
    requires
        t1 <= t2,
    ensures
        t1 < start + cliff ==> unlocked(start, cliff, duration, amount, t1) == 0,
        unlocked(start, cliff, duration, amount, t1) <= unlocked(start, cliff, duration, amount, t2),
{
    if start + cliff <= t1 && t2 - start < duration {
        let e1 = t1 - start;
        let e2 = t2 - start;
        assert(amount * e1 <= amount * e2) by (nonlinear_arith)
            requires
                0 <= amount,
                0 <= e1 <= e2,
        ;
        vstd::arithmetic::div_mod::lemma_div_is_ordered(amount * e1, amount * e2, duration as int);
        lemma_scaled_below(amount as int, e2, duration as int);
        vstd::arithmetic::div_mod::lemma_div_pos_is_pos(amount * e1, duration as int);
    }
}

/// A claim never lowers the claimed total, releases at most what the vault
/// holds, and moves exactly what it releases: the claimed total plus the
/// vault's balance is the same before and after. So the claimed total never
/// exceeds what was ever deposited.
pub proof fn lemma_claim_conserves(record: Vesting, balance: u64, now: u64)
    ensures
        ({
            let (next, rest, released) = claim_step(record, balance, now);
            &&& next.claimed >= record.claimed
            &&& released <= balance
            &&& next.claimed + rest == record.claimed + balance
            &&& next.claimed <= record.claimed + balance
        }),
{
}

/// Claiming twice with the clock unchanged releases nothing the second time.
pub proof fn lemma_claim_idempotent(record: Vesting, balance: u64, now: u64)
    ensures
        ({
            let (next, rest, _) = claim_step(record, balance, now);
            claim_step(next, rest, now).2 == 0
        }),
{
}

/// A claim before the cliff releases nothing and leaves the record and the
/// vault as they were.
pub proof fn lemma_claim_before_cliff(record: Vesting, balance: u64, now: u64)
    requires
        now < record.start + record.cliff,
    ensures
        ({
            let (next, rest, released) = claim_step(record, balance, now);
            &&& released == 0
            &&& next == record
            &&& rest == balance
        }),
{
}

/// Once the whole duration has elapsed, a claim drains the vault whatever it
/// holds: with `deposited` the claimed total plus the vault's balance, the
/// whole balance is released and the claimed total becomes `deposited`, be it
/// below or above the granted amount.
pub proof fn lemma_claim_after_duration_drains(record: Vesting, balance: u64, now: u64, deposited: u64)
    requires
        record.claimed + balance == deposited,
        now >= record.start + record.cliff,
        now - record.start >= record.duration,
    ensures
        ({
            let (next, rest, released) = claim_step(record, balance, now);
            &&& released == balance
            &&& rest == 0
            &&& next.claimed == deposited
        }),
{
}

/// What an instruction leaves for the runtime: the calls to make, in order,
/// and the new contents of the vesting record account.
#[derive(Debug)]
pub struct Processed {
    pub actions: Vec<Action>,
    pub record_key: Key,
    pub record: Vec<u8>,
}

/// `key` is the address derived from `tag` and `seed_key` under `program_id`.
pub open spec fn derives(tag: Seq<u8>, seed_key: Key, program_id: Key, key: Key) -> bool {
    derived_key(pda_seeds(tag, seed_key@), program_id@) == Some(key@)
}

/// The derived account of `tag` and `seed_key` as the runtime calls see it.
pub open spec fn derived_at(tag: Seq<u8>, seed_key: Key, program_id: Key, key: Key) -> Derived {
    let seeds = pda_seeds(tag, seed_key@);
    match program_address(seeds, program_id@) {
        Some(p) => (key, seeds, p.1),
        None => (key, seeds, 0),
    }
}

/// The outcome of `CreateVesting` on `accounts` (creator, seed, mint, record,
/// vault, distribution account, creator's token wallet). The parameters are
/// checked first; then each account in turn, as it is reached: that it is
/// there, that it signed where it must, that it is at its derived address.
pub open spec fn create_outcome(
    program_id: Key,
    accounts: Seq<AccountState>,
    beneficiary: Key,
    amount: u64,
    start: u64,
    cliff: u64,
    duration: u64,
    r: Result<Processed, VestingError>,
) -> bool {
    let missing = Err::<Processed, VestingError>(VestingError::NotEnoughAccountKeys);
    let unsigned = Err::<Processed, VestingError>(VestingError::MissingRequiredSignature);
    let misplaced = Err::<Processed, VestingError>(VestingError::Custom(CustomError::InvalidPDAKey));
    if schedule_error(amount, start, cliff, duration) is Some {
        r == Err::<Processed, VestingError>(
            VestingError::Custom(schedule_error(amount, start, cliff, duration)->Some_0),
        )
    } else if accounts.len() < 1 {
        r == missing
    } else if !accounts[0].is_signer {
        r == unsigned
    } else if accounts.len() < 2 {
        r == missing
    } else if !accounts[1].is_signer {
        r == unsigned
    } else if accounts.len() < 4 {
        r == missing
    } else if !derives(vesting_tag(), accounts[1].key, program_id, accounts[3].key) {
        r == misplaced
    } else if accounts.len() < 5 {
        r == missing
    } else if !derives(vault_tag(), accounts[1].key, program_id, accounts[4].key) {
        r == misplaced
    } else if accounts.len() < 6 {
        r == missing
    } else if !derives(distribute_tag(), accounts[1].key, program_id, accounts[5].key) {
        r == misplaced
    } else if accounts.len() < 7 {
        r == missing
    } else if accounts[3].exists || accounts[4].exists || accounts[5].exists {
        r == Err::<Processed, VestingError>(VestingError::AccountAlreadyInitialized)
    } else if token_balance(accounts[6].data@) < amount {
        r == Err::<Processed, VestingError>(VestingError::InsufficientFunds)
    } else {
        let seed = accounts[1].key;
        let record = Vesting {
            beneficiary,
            mint: accounts[2].key,
            seed_key: seed,
            creator: accounts[0].key,
            amount,
            claimed: 0,
            start,
            cliff,
            duration,
        };
        r matches Ok(p) && p.record_key == accounts[3].key && p.record@ == record.spec_bytes()
            && creation_calls(
            p.actions@,
            accounts[0].key,
            accounts[6].key,
            accounts[2].key,
            beneficiary,
            amount,
            derived_at(vesting_tag(), seed, program_id, accounts[3].key),
            derived_at(vault_tag(), seed, program_id, accounts[4].key),
            derived_at(distribute_tag(), seed, program_id, accounts[5].key),
        )
    }
}

/// The outcome of `Claim` for `seed_key` on `accounts` (record, vault,
/// distribution account) at time `now`. Each account is checked in turn, as
/// it is reached: that it is there and at its derived address.
pub open spec fn claim_outcome(
    program_id: Key,
    accounts: Seq<AccountState>,
    seed_key: Key,
    now: u64,
    r: Result<Processed, VestingError>,
) -> bool {
    let missing = Err::<Processed, VestingError>(VestingError::NotEnoughAccountKeys);
    let misplaced = Err::<Processed, VestingError>(VestingError::Custom(CustomError::InvalidPDAKey));
    if accounts.len() < 1 {
        r == missing
    } else if !derives(vesting_tag(), seed_key, program_id, accounts[0].key) {
        r == misplaced
    } else if accounts.len() < 2 {
        r == missing
    } else if !derives(vault_tag(), seed_key, program_id, accounts[1].key) {
        r == misplaced
    } else if accounts.len() < 3 {
        r == missing
    } else if !derives(distribute_tag(), seed_key, program_id, accounts[2].key) {
        r == misplaced
    } else if accounts[0].data@.len() != VESTING_LEN {
        r == Err::<Processed, VestingError>(VestingError::AccountDataTooSmall)
    } else {
        r matches Ok(p) && p.record_key == accounts[0].key && forall|record: Vesting|
            record.spec_bytes() == accounts[0].data@ ==> {
                let step = claim_step(record, token_balance(accounts[1].data@), now);
                let vault = derived_at(vault_tag(), seed_key, program_id, accounts[1].key);
                &&& p.record@ == step.0.spec_bytes()
                &&& step.2 == 0 ==> p.actions@.len() == 0
                &&& step.2 > 0 ==> p.actions@.len() == 1 && is_transfer_out(
                    p.actions@[0],
                    vault.0,
                    accounts[2].key,
                    vault.1,
                    vault.2,
                    step.2,
                )
            }
    }
}

/// Takes the next account of the instruction, failing where none is left.
pub fn next_account(accounts: &mut Vec<AccountState>) -> (r: Result<AccountState, VestingError>)
    ensures
        old(accounts)@.len() == 0 ==> r == Err::<AccountState, VestingError>(
            VestingError::NotEnoughAccountKeys,
        ) && final(accounts)@ == old(accounts)@,
        old(accounts)@.len() > 0 ==> r == Ok::<AccountState, VestingError>(old(accounts)@[0])
            && final(accounts)@ == old(accounts)@.subrange(1, old(accounts)@.len() as int),
{
    if accounts.len() == 0 {
        return Err(VestingError::NotEnoughAccountKeys);
    }
    let first = accounts.remove(0);
    assert(accounts@ =~= old(accounts)@.subrange(1, old(accounts)@.len() as int));
    Ok(first)
}

/// Runs one instruction. `accounts` are the instruction's accounts after the
/// leading sysvar, and `unix_timestamp` is the clock's time. Fails, with no
/// effect, where the data is not an instruction, an account is missing, a
/// signer did not sign, an account is not at its derived address, or the
/// instruction's own rules reject it.
pub fn process(
    program_id: &Key,
    accounts: Vec<AccountState>,
    instruction_data: &[u8],
    unix_timestamp: i64,
) -> (r: Result<Processed, VestingError>)
    requires
        unix_timestamp >= 0,
    ensures
        !instruction_shape(instruction_data@) ==> r == Err::<Processed, VestingError>(
            VestingError::InvalidInstructionData,
        ),
        forall|ins: VestingInstruction| #[trigger]
            ins.spec_bytes() == instruction_data@ ==> match ins {
                VestingInstruction::CreateVesting { beneficiary, amount, start, cliff, duration } =>
                    create_outcome(
                    *program_id,
                    accounts@,
                    beneficiary,
                    amount,
                    start,
                    cliff,
                    duration,
                    r,
                ),
                VestingInstruction::Claim { seed_key } => claim_outcome(
                    *program_id,
                    accounts@,
                    seed_key,
                    unix_timestamp as u64,
                    r,
                ),
            },
{
    proof {
        assert forall|ins: VestingInstruction| ins.spec_bytes() == instruction_data@ implies instruction_shape(
            instruction_data@,
        ) by {
            crate::instruction::lemma_encoding_shape(ins);
        }
    }
    let instruction = VestingInstruction::unpack(instruction_data)?;
    proof {
        assert forall|ins: VestingInstruction| ins.spec_bytes() == instruction_data@ implies ins
            == instruction by {
            lemma_encoding_injective(ins, instruction);
        }
    }
    let ghost given = accounts@;
    let mut accounts = accounts;
    match instruction {
        VestingInstruction::CreateVesting { beneficiary, amount, start, cliff, duration } => {
            check_schedule(amount, start, cliff, duration)?;
            let signer = next_account(&mut accounts)?;
            if !signer.is_signer {
                return Err(VestingError::MissingRequiredSignature);
            }
            let seed = next_account(&mut accounts)?;
            if !seed.is_signer {
                return Err(VestingError::MissingRequiredSignature);
            }
            let seed_key = seed.key;
            let mint = next_account(&mut accounts)?;
            let vesting = PDA::<Vesting>::new(program_id, next_account(&mut accounts)?, &seed_key)?;
            let vault = PDA::<Vault>::new(program_id, next_account(&mut accounts)?, &seed_key)?;
            let distribute = PDA::<Distribute>::new(
                program_id,
                next_account(&mut accounts)?,
                &seed_key,
            )?;
            let wallet = next_account(&mut accounts)?;
            let record_key = vesting.info.key;
            let mut created = CreateVestingAccounts {
                signer,
                seed,
                mint,
                vesting,
                vault,
                distribute,
                wallet,
            };
            let actions = create_vesting(&mut created, beneficiary, amount, start, cliff, duration)?;
            let record = created.vesting.data.to_bytes();
            Ok(Processed { actions, record_key, record })
        },
        VestingInstruction::Claim { seed_key } => {
            let vesting = PDA::<Vesting>::new(program_id, next_account(&mut accounts)?, &seed_key)?;
            let vault = PDA::<Vault>::new(program_id, next_account(&mut accounts)?, &seed_key)?;
            let distribute = PDA::<Distribute>::new(
                program_id,
                next_account(&mut accounts)?,
                &seed_key,
            )?;
            let record_key = vesting.info.key;
            let mut claimed = ClaimAccounts { unix_timestamp, vesting, vault, distribute };
            proof {
                if given[0].data@.len() == VESTING_LEN {
                    assert forall|record: Vesting| record.spec_bytes() == given[0].data@ implies record
                        == claimed.vesting.data by {
                        crate::pda::lemma_record_round_trip(claimed.vesting.data, record);
                    }
                }
            }
            let actions = claim(&mut claimed)?;
            let record = claimed.vesting.data.to_bytes();
            Ok(Processed { actions, record_key, record })
        },
    }
}

} // verus!
