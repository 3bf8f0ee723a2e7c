use solana_program::program_pack::Pack;
use solana_program::pubkey::Pubkey;
use solana_vesting::error::{CustomError, VestingError};
use solana_vesting::instruction::{ClaimAccounts, CreateVestingAccounts, VestingInstruction};
use solana_vesting::pda::{AccountState, Action, Distribute, Owner, Vault, Vesting, PDA};
use solana_vesting::processor::{calculate_amount, check_schedule, claim, create_vesting, process};

fn account(key: [u8; 32], is_signer: bool, exists: bool, data: Vec<u8>) -> AccountState {
    AccountState { key, is_signer, exists, data }
}

fn derived(tag: &[u8], seed_key: &Pubkey, program_id: &Pubkey) -> ([u8; 32], u8) {
    let (key, bump) = Pubkey::find_program_address(&[tag, seed_key.as_ref()], program_id);
    (key.to_bytes(), bump)
}

fn token_account(amount: u64) -> Vec<u8> {
    let mut data = vec![0u8; spl_token::state::Account::LEN];
    spl_token::state::Account {
        amount,
        state: spl_token::state::AccountState::Initialized,
        ..Default::default()
    }
    .pack_into_slice(&mut data);
    data
}

/// A program with one schedule's addresses, for driving instructions.
struct Setup {
    program_id: Pubkey,
    seed: Pubkey,
    creator: [u8; 32],
    mint: [u8; 32],
    beneficiary: [u8; 32],
    vesting: [u8; 32],
    vault: [u8; 32],
    distribute: [u8; 32],
    wallet: [u8; 32],
    wallet_balance: u64,
}

impl Setup {
    fn new() -> Setup {
        let program_id = Pubkey::new_unique();
        let seed = Pubkey::new_unique();
        Setup {
            program_id,
            seed,
            creator: Pubkey::new_unique().to_bytes(),
            mint: Pubkey::new_unique().to_bytes(),
            beneficiary: Pubkey::new_unique().to_bytes(),
            vesting: derived(b"VESTING", &seed, &program_id).0,
            vault: derived(b"VAULT", &seed, &program_id).0,
            distribute: derived(b"DISTRIBUTE", &seed, &program_id).0,
            wallet: Pubkey::new_unique().to_bytes(),
            wallet_balance: 100_000_000_000,
        }
    }

    fn create_accounts(&self, exists: bool) -> Vec<AccountState> {
        vec![
            account(self.creator, true, true, vec![]),
            account(self.seed.to_bytes(), true, true, vec![]),
            account(self.mint, false, true, vec![]),
            account(self.vesting, false, exists, vec![]),
            account(self.vault, false, exists, vec![]),
            account(self.distribute, false, exists, vec![]),
            account(self.wallet, false, true, token_account(self.wallet_balance)),
        ]
    }

    fn create(&self, amount: u64, start: u64, cliff: u64, duration: u64) -> Vec<u8> {
        let data = VestingInstruction::CreateVesting {
            beneficiary: self.beneficiary,
            amount,
            start,
            cliff,
            duration,
        }
        .pack();
        process(&self.program_id.to_bytes(), self.create_accounts(false), &data, 0).unwrap().record
    }

    /// Claims at `now` with `balance` in the vault; returns the new record and
    /// the amount moved out of the vault.
    fn claim(&self, record: Vec<u8>, balance: u64, now: i64) -> Result<(Vec<u8>, u64), VestingError> {
        let data = VestingInstruction::Claim { seed_key: self.seed.to_bytes() }.pack();
        let accounts = vec![
            account(self.vesting, false, true, record),
            account(self.vault, false, true, token_account(balance)),
            account(self.distribute, false, true, token_account(0)),
        ];
        let out = process(&self.program_id.to_bytes(), accounts, &data, now)?;
        let moved = match out.actions.as_slice() {
            [] => 0,
            [Action::TransferOut { source, destination, amount, .. }] => {
                assert_eq!(*source, self.vault);
                assert_eq!(*destination, self.distribute);
                assert!(*amount > 0);
                *amount
            }
            other => panic!("unexpected calls {:?}", other),
        };
        Ok((out.record, moved))
    }
}

fn claimed(record: &[u8]) -> u64 {
    Vesting::from_bytes(record).unwrap().claimed
}

#[test]
fn test_calculate_amount() {
    assert_eq!(calculate_amount(0, 0, 0, 0, 500), u64::MAX);
    assert_eq!(calculate_amount(1000, 20, 100, 1000, 500), 0);
    assert_eq!(calculate_amount(1000, 20, 100, 1000, 1000), 0);
    assert_eq!(calculate_amount(1000, 20, 100, 1000, 1010), 0);
    assert_eq!(calculate_amount(1000, 20, 100, 1000, 1019), 0);
    assert_eq!(calculate_amount(1000, 20, 100, 1000, 1020), 200);
    assert_eq!(calculate_amount(1000, 20, 100, 1000, 1090), 900);
    assert_eq!(calculate_amount(1000, 20, 100, 1000, 1099), 990);
    assert_eq!(calculate_amount(1000, 20, 100, 1000, 1100), u64::MAX);
    assert_eq!(calculate_amount(1000, 20, 100, 1000, 1200), u64::MAX);
}

#[test]
fn unlocked_amount_is_exact_for_large_values() {
    assert_eq!(calculate_amount(0, 0, u64::MAX, u64::MAX, u64::MAX - 1), u64::MAX - 1);
    assert_eq!(calculate_amount(10, 0, 3, 100, 11), 33);
    assert_eq!(calculate_amount(u64::MAX, 1, 5, 100, u64::MAX), 0);
}

#[test]
fn unlocked_amount_never_decreases() {
    let mut last = 0;
    for now in 990..1110 {
        let total = calculate_amount(1000, 20, 100, 1000, now);
        assert!(total >= last);
        last = total;
    }
}

fn dummy_pda_accounts(no_account: [u8; 32]) -> CreateVestingAccounts {
    let dummy = || account(no_account, false, false, vec![]);
    CreateVestingAccounts {
        signer: dummy(),
        mint: dummy(),
        seed: dummy(),
        vesting: PDA {
            data: Vesting::default(),
            info: dummy(),
            program_id: no_account,
            seeds: vec![],
            bump: 0,
        },
        vault: PDA { data: Vault::default(), info: dummy(), program_id: no_account, seeds: vec![], bump: 0 },
        distribute: PDA {
            data: Distribute::default(),
            info: dummy(),
            program_id: no_account,
            seeds: vec![],
            bump: 0,
        },
        wallet: dummy(),
    }
}

#[test]
fn test_create_vesting_revert() {
    let no_account = Pubkey::default().to_bytes();
    let vesting_accounts = &mut dummy_pda_accounts(no_account);

    create_vesting(vesting_accounts, Pubkey::new_unique().to_bytes(), 10, 15, 40, 30).unwrap_err();
    create_vesting(vesting_accounts, Pubkey::new_unique().to_bytes(), 10, u64::MAX, 20, 30).unwrap_err();
    create_vesting(vesting_accounts, Pubkey::new_unique().to_bytes(), 0, 15, 20, 30).unwrap_err();
}

#[test]
fn schedule_errors_come_in_order() {
    let custom = |e| Err(VestingError::Custom(e));
    assert_eq!(check_schedule(0, u64::MAX, 20, 10), custom(CustomError::StartCliffOverflow));
    assert_eq!(check_schedule(0, 15, 40, 30), custom(CustomError::CliffOverDuration));
    assert_eq!(check_schedule(0, 15, 20, 30), custom(CustomError::ZeroAmount));
    assert_eq!(check_schedule(1, u64::MAX - 20, 20, 30), Ok(()));
}

#[test]
fn create_vesting_builds_record_and_calls() {
    let s = Setup::new();
    let pid = s.program_id.to_bytes();
    let seed = s.seed.to_bytes();
    let infos = s.create_accounts(false);
    let mut it = infos.into_iter();
    let signer = it.next().unwrap();
    let seed_info = it.next().unwrap();
    let mint = it.next().unwrap();
    let vesting = PDA::<Vesting>::new(&pid, it.next().unwrap(), &seed).unwrap();
    let vault = PDA::<Vault>::new(&pid, it.next().unwrap(), &seed).unwrap();
    let distribute = PDA::<Distribute>::new(&pid, it.next().unwrap(), &seed).unwrap();
    let wallet = it.next().unwrap();
    let accounts =
        &mut CreateVestingAccounts { signer, seed: seed_info, mint, vesting, vault, distribute, wallet };
    let actions = create_vesting(accounts, s.beneficiary, 1000, 50, 10, 100).unwrap();

    let record = Vesting::from_bytes(&accounts.vesting.info.data).unwrap();
    assert_eq!(record.beneficiary, s.beneficiary);
    assert_eq!(record.creator, s.creator);
    assert_eq!(record.mint, s.mint);
    assert_eq!(record.seed_key, seed);
    assert_eq!((record.amount, record.claimed, record.start, record.cliff, record.duration), (1000, 0, 50, 10, 100));

    assert_eq!(actions.len(), 6);
    assert_eq!(accounts.vault.data.amount, 1000);
    match &actions[0] {
        Action::CreateAccount { payer, address, seeds, bump, space, owner } => {
            assert_eq!(*payer, s.creator);
            assert_eq!(*address, s.vesting);
            assert_eq!(seeds, &vec![b"VESTING".to_vec(), seed.to_vec()]);
            assert_eq!(*bump, derived(b"VESTING", &s.seed, &s.program_id).1);
            assert_eq!(*space, 168);
            assert_eq!(*owner, Owner::Program);
        }
        other => panic!("unexpected call {:?}", other),
    }
    match &actions[2] {
        Action::InitializeTokenAccount { address, mint, authority } => {
            assert_eq!((*address, *mint, *authority), (s.vault, s.mint, s.vault));
        }
        other => panic!("unexpected call {:?}", other),
    }
    match &actions[4] {
        Action::InitializeTokenAccount { address, mint, authority } => {
            assert_eq!((*address, *mint, *authority), (s.distribute, s.mint, s.beneficiary));
        }
        other => panic!("unexpected call {:?}", other),
    }
    match &actions[5] {
        Action::TransferIn { source, destination, authority, amount } => {
            assert_eq!((*source, *destination, *authority, *amount), (s.wallet, s.vault, s.creator, 1000));
        }
        other => panic!("unexpected call {:?}", other),
    }
}

#[test]
fn create_deposits_grant_from_wallet() {
    let s = Setup::new();
    let data = VestingInstruction::CreateVesting {
        beneficiary: s.beneficiary,
        amount: 1_000_000,
        start: 10,
        cliff: 0,
        duration: 5,
    }
    .pack();
    let out = process(&s.program_id.to_bytes(), s.create_accounts(false), &data, 0).unwrap();
    assert_eq!(out.actions.len(), 6);
    match out.actions.last().unwrap() {
        Action::TransferIn { source, destination, authority, amount } => {
            assert_eq!((*source, *destination, *authority, *amount), (s.wallet, s.vault, s.creator, 1_000_000));
        }
        other => panic!("unexpected call {:?}", other),
    }
}

#[test]
fn create_fails_when_wallet_cannot_cover_grant() {
    let mut s = Setup::new();
    s.wallet_balance = 999;
    let data = VestingInstruction::CreateVesting {
        beneficiary: s.beneficiary,
        amount: 1000,
        start: 10,
        cliff: 0,
        duration: 5,
    }
    .pack();
    let result = process(&s.program_id.to_bytes(), s.create_accounts(false), &data, 0);
    assert_eq!(result.unwrap_err(), VestingError::InsufficientFunds);
}

#[test]
fn unsigned_creator_is_reported_before_missing_accounts() {
    let s = Setup::new();
    let accounts = vec![account(s.creator, false, true, vec![]), account(s.seed.to_bytes(), true, true, vec![])];
    let data = VestingInstruction::CreateVesting {
        beneficiary: s.beneficiary,
        amount: 5,
        start: 0,
        cliff: 0,
        duration: 1,
    }
    .pack();
    let result = process(&s.program_id.to_bytes(), accounts, &data, 0);
    assert_eq!(result.unwrap_err(), VestingError::MissingRequiredSignature);
}

#[test]
fn misplaced_record_is_reported_before_missing_accounts() {
    let s = Setup::new();
    let data = VestingInstruction::Claim { seed_key: s.seed.to_bytes() }.pack();
    let accounts = vec![account(Pubkey::new_unique().to_bytes(), false, true, vec![0; 168])];
    let result = process(&s.program_id.to_bytes(), accounts, &data, 0);
    assert_eq!(result.unwrap_err(), VestingError::Custom(CustomError::InvalidPDAKey));
}

#[test]
fn test_sample_workflow() {
    let s = Setup::new();
    let now: i64 = 15400;
    let record = s.create(15000, (now - 100) as u64, 0, 150);
    let (record, moved) = s.claim(record, 1000000, now).unwrap();
    assert_eq!(claimed(&record), 10000);
    assert_eq!(moved, 10000);
}

#[test]
fn boundary_schedule_values() {
    assert_eq!(calculate_amount(1000, 20, 100, 1000, 1019), 0);
    assert_eq!(calculate_amount(1000, 20, 100, 1000, 1020), 200);
    assert_eq!(calculate_amount(1000, 20, 100, 1000, 1099), 990);
    assert_eq!(calculate_amount(1000, 20, 100, 1000, 1100), u64::MAX);
}

#[test]
fn second_schedule_at_same_seed_fails() {
    let s = Setup::new();
    let record = s.create(1_000_000, 100, 100, 400);
    let data = VestingInstruction::CreateVesting {
        beneficiary: s.beneficiary,
        amount: 1,
        start: 100,
        cliff: 100,
        duration: 400,
    }
    .pack();
    let result = process(&s.program_id.to_bytes(), s.create_accounts(true), &data, 0);
    assert_eq!(result.unwrap_err(), VestingError::AccountAlreadyInitialized);
    assert_eq!(Vesting::from_bytes(&record).unwrap().amount, 1_000_000);
}

#[test]
fn claim_before_cliff_moves_nothing() {
    let s = Setup::new();
    let record = s.create(1_000_000, 1000, 100, 400);
    let (record, moved) = s.claim(record, 1_000_000, 1099).unwrap();
    assert_eq!(moved, 0);
    assert_eq!(claimed(&record), 0);
}

#[test]
fn claim_twice_at_same_time_releases_nothing_more() {
    let s = Setup::new();
    let record = s.create(1_000_000, 1000, 100, 400);
    let (record, first) = s.claim(record, 1_000_000, 1200).unwrap();
    assert_eq!(first, 500_000);
    let (record, second) = s.claim(record, 1_000_000 - first, 1200).unwrap();
    assert_eq!(second, 0);
    assert_eq!(claimed(&record), 500_000);
}

#[test]
fn claim_never_exceeds_vault_balance() {
    let s = Setup::new();
    let record = s.create(1_000_000, 1000, 100, 400);
    let (record, moved) = s.claim(record, 1234, 1300).unwrap();
    assert_eq!(moved, 1234);
    assert_eq!(claimed(&record), 1234);
}

#[test]
fn low_funded_vault_is_drained_after_duration() {
    let s = Setup::new();
    let amount = 1_000_000;
    let record = s.create(amount, 1000, 100, 400);
    let (record, moved) = s.claim(record, amount / 3, 1400).unwrap();
    assert_eq!(moved, amount / 3);
    assert_eq!(claimed(&record), amount / 3);
}

#[test]
fn over_funded_vault_is_drained_by_the_end() {
    let s = Setup::new();
    let amount = 1_000_000;
    let mut balance = 3 * amount;
    let mut total = 0;
    let mut record = s.create(amount, 1000, 100, 400);
    for now in [1050, 1100, 1200, 1300, 1399, 1400, 1500] {
        let (next, moved) = s.claim(record, balance, now).unwrap();
        balance -= moved;
        total += moved;
        record = next;
        assert_eq!(claimed(&record), total);
    }
    assert_eq!(total, 3 * amount);
    assert_eq!(balance, 0);
}

#[test]
fn wrong_vault_fails_the_instruction() {
    let s = Setup::new();
    let record = s.create(1_000_000, 1000, 100, 400);
    let data = VestingInstruction::Claim { seed_key: s.seed.to_bytes() }.pack();
    let accounts = vec![
        account(s.vesting, false, true, record),
        account(Pubkey::new_unique().to_bytes(), false, true, token_account(1_000_000)),
        account(s.distribute, false, true, token_account(0)),
    ];
    let result = process(&s.program_id.to_bytes(), accounts, &data, 2000);
    assert_eq!(result.unwrap_err(), VestingError::Custom(CustomError::InvalidPDAKey));
}

#[test]
fn create_in_wrong_role_fails() {
    let s = Setup::new();
    let mut accounts = s.create_accounts(false);
    accounts.swap(4, 5);
    let data = VestingInstruction::CreateVesting {
        beneficiary: s.beneficiary,
        amount: 5,
        start: 0,
        cliff: 0,
        duration: 1,
    }
    .pack();
    let result = process(&s.program_id.to_bytes(), accounts, &data, 0);
    assert_eq!(result.unwrap_err(), VestingError::Custom(CustomError::InvalidPDAKey));
}

#[test]
fn missing_signer_fails() {
    let s = Setup::new();
    let mut accounts = s.create_accounts(false);
    accounts[1].is_signer = false;
    let data = VestingInstruction::CreateVesting {
        beneficiary: s.beneficiary,
        amount: 5,
        start: 0,
        cliff: 0,
        duration: 1,
    }
    .pack();
    let result = process(&s.program_id.to_bytes(), accounts, &data, 0);
    assert_eq!(result.unwrap_err(), VestingError::MissingRequiredSignature);
}

#[test]
fn missing_accounts_fail() {
    let s = Setup::new();
    let data = VestingInstruction::Claim { seed_key: s.seed.to_bytes() }.pack();
    let accounts = vec![account(s.vesting, false, true, vec![0; 168])];
    let result = process(&s.program_id.to_bytes(), accounts, &data, 0);
    assert_eq!(result.unwrap_err(), VestingError::NotEnoughAccountKeys);
}

#[test]
fn malformed_instruction_fails() {
    let s = Setup::new();
    let result = process(&s.program_id.to_bytes(), s.create_accounts(false), &[2, 0, 0], 0);
    assert_eq!(result.unwrap_err(), VestingError::InvalidInstructionData);
    let mut data = VestingInstruction::Claim { seed_key: [1; 32] }.pack();
    data.push(0);
    assert_eq!(VestingInstruction::unpack(&data), Err(VestingError::InvalidInstructionData));
}

#[test]
fn claim_on_unallocated_record_fails() {
    let s = Setup::new();
    let result = s.claim(vec![], 100, 2000);
    assert_eq!(result.unwrap_err(), VestingError::AccountDataTooSmall);
}

#[test]
fn instruction_encoding_matches_borsh() {
    let ins = VestingInstruction::CreateVesting {
        beneficiary: [5; 32],
        amount: 1_000_000,
        start: 7,
        cliff: 100,
        duration: 400,
    };
    let expected = borsh::to_vec(&(0u8, [5u8; 32], 1_000_000u64, 7u64, 100u64, 400u64)).unwrap();
    assert_eq!(ins.pack(), expected);
    assert_eq!(VestingInstruction::unpack(&expected), Ok(ins));
    let claim_ins = VestingInstruction::Claim { seed_key: [6; 32] };
    assert_eq!(claim_ins.pack(), borsh::to_vec(&(1u8, [6u8; 32])).unwrap());
}

#[test]
fn direct_claim_updates_vault_and_record() {
    let s = Setup::new();
    let pid = s.program_id.to_bytes();
    let seed = s.seed.to_bytes();
    let mut record = Vesting::default();
    record.amount = 400;
    record.start = 0;
    record.duration = 4;
    let vesting = PDA::<Vesting>::new(&pid, account(s.vesting, false, true, record.to_bytes()), &seed).unwrap();
    let vault = PDA::<Vault>::new(&pid, account(s.vault, false, true, token_account(1000)), &seed).unwrap();
    let distribute = PDA::<Distribute>::new(&pid, account(s.distribute, false, true, token_account(0)), &seed).unwrap();
    let accounts = &mut ClaimAccounts { unix_timestamp: 1, vesting, vault, distribute };
    let actions = claim(accounts).unwrap();
    assert_eq!(actions.len(), 1);
    assert_eq!(accounts.vesting.data.claimed, 100);
    assert_eq!(accounts.vault.data.amount, 900);
    assert_eq!(Vesting::from_bytes(&accounts.vesting.info.data).unwrap().claimed, 100);
}
