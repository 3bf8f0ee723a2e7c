use solana_program::program_pack::Pack;
use solana_program::pubkey::Pubkey;
use solana_vesting::error::{CustomError, VestingError};
use solana_vesting::pda::{AccountState, Distribute, Vault, Vesting, PDA};

fn account(key: [u8; 32], data: Vec<u8>) -> AccountState {
    AccountState { key, is_signer: false, exists: true, data }
}

fn derived(tag: &[u8], seed_key: &Pubkey, program_id: &Pubkey) -> [u8; 32] {
    Pubkey::find_program_address(&[tag, seed_key.as_ref()], program_id).0.to_bytes()
}

#[test]
fn test_check_info() {
    let program_id = Pubkey::new_unique();
    let seed_key = Pubkey::new_unique();
    let vesting_key = derived(b"VESTING", &seed_key, &program_id);

    let data = vec![0; PDA::<Vesting>::size()];
    let vesting = &mut PDA::<Vesting>::new(
        &program_id.to_bytes(),
        account(vesting_key, data),
        &seed_key.to_bytes(),
    )
    .unwrap();

    vesting.check().unwrap();
    vesting.seeds = vec!["VESTINK".as_bytes().to_vec(), seed_key.as_ref().to_vec()];
    vesting.check().unwrap_err();
}

#[test]
fn test_read() {
    let program_id = Pubkey::new_unique();
    let seed_key = Pubkey::new_unique();
    let vault_key = derived(b"VAULT", &seed_key, &program_id);

    {
        let data = vec![0; PDA::<Vault>::size()];
        let vault =
            PDA::<Vault>::new(&program_id.to_bytes(), account(vault_key, data), &seed_key.to_bytes())
                .unwrap();
        assert_eq!(vault.data.amount, 0);
    }
    {
        let mut data = vec![0; PDA::<Vault>::size()];
        spl_token::state::Account { amount: 1010, ..spl_token::state::Account::default() }
            .pack_into_slice(&mut data);
        let vault =
            PDA::<Vault>::new(&program_id.to_bytes(), account(vault_key, data), &seed_key.to_bytes())
                .unwrap();
        assert_eq!(vault.data.amount, 1010);
    }
}

#[test]
fn test_write() {
    let program_id = Pubkey::new_unique();
    let seed_key = Pubkey::new_unique();
    let vesting_key = derived(b"VESTING", &seed_key, &program_id);

    let data = vec![0; PDA::<Vesting>::size()];
    let vesting = &mut PDA::<Vesting>::new(
        &program_id.to_bytes(),
        account(vesting_key, data),
        &seed_key.to_bytes(),
    )
    .unwrap();
    vesting.data.amount = 1010;
    vesting.write().unwrap();

    let stored = vesting.info.data.clone();
    let vesting_new =
        PDA::<Vesting>::new(&program_id.to_bytes(), account(vesting_key, stored), &seed_key.to_bytes())
            .unwrap();

    assert_eq!(vesting_new.data.amount, 1010);
}

#[test]
fn write_fails_on_storage_of_wrong_size() {
    let program_id = Pubkey::new_unique();
    let seed_key = Pubkey::new_unique();
    let vesting_key = derived(b"VESTING", &seed_key, &program_id);
    let mut vesting =
        PDA::<Vesting>::new(&program_id.to_bytes(), account(vesting_key, vec![0; 10]), &seed_key.to_bytes())
            .unwrap();
    assert_eq!(vesting.data, Vesting::default());
    assert_eq!(vesting.write(), Err(VestingError::AccountDataTooSmall));
    assert_eq!(vesting.info.data, vec![0; 10]);
}

#[test]
fn token_accounts_refuse_writes() {
    let program_id = Pubkey::new_unique();
    let seed_key = Pubkey::new_unique();
    let vault_key = derived(b"VAULT", &seed_key, &program_id);
    let distribute_key = derived(b"DISTRIBUTE", &seed_key, &program_id);
    let mut vault =
        PDA::<Vault>::new(&program_id.to_bytes(), account(vault_key, vec![]), &seed_key.to_bytes())
            .unwrap();
    let mut distribute = PDA::<Distribute>::new(
        &program_id.to_bytes(),
        account(distribute_key, vec![]),
        &seed_key.to_bytes(),
    )
    .unwrap();
    let forbidden = Err(VestingError::Custom(CustomError::WriteToPDAForbidden));
    assert_eq!(vault.write(), forbidden);
    assert_eq!(distribute.write(), forbidden);
}

#[test]
fn account_in_wrong_role_is_rejected() {
    let program_id = Pubkey::new_unique();
    let seed_key = Pubkey::new_unique();
    let vesting_key = derived(b"VESTING", &seed_key, &program_id);
    let result = PDA::<Vault>::new(&program_id.to_bytes(), account(vesting_key, vec![]), &seed_key.to_bytes());
    assert_eq!(result.unwrap_err(), VestingError::Custom(CustomError::InvalidPDAKey));
}

#[test]
fn record_round_trips_through_bytes() {
    let record = Vesting {
        beneficiary: [1; 32],
        mint: [2; 32],
        seed_key: [3; 32],
        creator: [4; 32],
        amount: 1_000_000,
        claimed: 250_000,
        start: 1_700_000_000,
        cliff: 100,
        duration: 400,
    };
    let bytes = record.to_bytes();
    assert_eq!(bytes.len(), 168);
    assert_eq!(&bytes[128..136], &1_000_000u64.to_le_bytes());
    assert_eq!(&bytes[160..168], &400u64.to_le_bytes());
    assert_eq!(Vesting::from_bytes(&bytes), Some(record));
    assert_eq!(Vesting::from_bytes(&bytes[..167]), None);
}

#[test]
fn record_layout_matches_borsh() {
    let record = Vesting {
        beneficiary: [9; 32],
        mint: [8; 32],
        seed_key: [7; 32],
        creator: [6; 32],
        amount: 5,
        claimed: 4,
        start: 3,
        cliff: 2,
        duration: 1,
    };
    let expected = borsh::to_vec(&(
        (record.beneficiary, record.mint, record.seed_key, record.creator),
        (record.amount, record.claimed, record.start, record.cliff, record.duration),
    ))
    .unwrap();
    assert_eq!(record.to_bytes(), expected);
}
