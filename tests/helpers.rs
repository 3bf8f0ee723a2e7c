use solana_program::program_pack::Pack;
use solana_program::pubkey::Pubkey;
use solana_vesting::error::{CustomError, VestingError};
use solana_vesting::helpers::{check_expected_address, keys_equal, read_token_balance};

#[test]
fn test_expected_address() {
    let program_id = Pubkey::new_unique();
    let seeds: Vec<Vec<u8>> = vec![vec![12, 34]];
    let (correct, _) = Pubkey::find_program_address(&[&[12, 34]], &program_id);

    let pid = program_id.to_bytes();
    let correct = correct.to_bytes();
    check_expected_address(&Pubkey::new_unique().to_bytes(), &pid, &seeds).unwrap_err();
    check_expected_address(&correct, &Pubkey::new_unique().to_bytes(), &seeds).unwrap_err();
    check_expected_address(&correct, &pid, &vec![vec![13, 34]]).unwrap_err();
    check_expected_address(&correct, &pid, &vec![vec![13, 33]]).unwrap_err();
    check_expected_address(&correct, &pid, &seeds).unwrap();
}

#[test]
fn wrong_address_is_invalid_pda_key() {
    let program_id = Pubkey::new_unique().to_bytes();
    let seeds: Vec<Vec<u8>> = vec![b"VAULT".to_vec(), vec![7; 32]];
    assert_eq!(
        check_expected_address(&program_id, &program_id, &seeds),
        Err(VestingError::Custom(CustomError::InvalidPDAKey))
    );
}

#[test]
fn too_many_seeds_derive_nothing() {
    let program_id = Pubkey::new_unique().to_bytes();
    let seeds: Vec<Vec<u8>> = vec![vec![1]; 17];
    assert!(check_expected_address(&[0; 32], &program_id, &seeds).is_err());
}

#[test]
fn keys_compare_bytewise() {
    let a = [3u8; 32];
    let mut b = [3u8; 32];
    assert!(keys_equal(&a, &b));
    b[31] = 4;
    assert!(!keys_equal(&a, &b));
}

#[test]
fn token_balance_is_read_from_packed_account() {
    let mut data = vec![0u8; spl_token::state::Account::LEN];
    spl_token::state::Account {
        amount: 77_000,
        state: spl_token::state::AccountState::Initialized,
        ..Default::default()
    }
    .pack_into_slice(&mut data);
    assert_eq!(read_token_balance(&data), 77_000);
}

#[test]
fn token_balance_of_short_or_malformed_storage_is_zero() {
    assert_eq!(read_token_balance(&[]), 0);
    assert_eq!(read_token_balance(&[1u8; 100]), 0);
    let mut data = vec![0u8; spl_token::state::Account::LEN];
    data[64] = 5;
    data[108] = 3;
    assert_eq!(read_token_balance(&data), 0);
    data[108] = 1;
    assert_eq!(read_token_balance(&data), 5);
}
