use slot_ledger::address::{find_address, Address};
use slot_ledger::errors::ErrorClass;
use slot_ledger::ledger::{storage_deposit, Slot};
use slot_ledger::vault::{
    deposit, initialize_vault, toggle_lock, vault_seeds, withdraw, DepositEvent, ToggleLockEvent,
    Vault, VaultError, WithdrawEvent, VAULT_SPACE,
};

fn program() -> Address {
    Address::new([42u8; 32])
}

fn new_vault(authority: &Address, funds: &mut u64) -> Slot<Vault> {
    let (key, _) = find_address(&vault_seeds(authority), &program()).unwrap();
    let mut slot = Slot::vacant(key);
    initialize_vault(&program(), &mut slot, authority, funds).unwrap();
    slot
}

#[test]
fn vault_scenario_deposit_and_withdraw() {
    let authority = Address::new([1u8; 32]);
    let mut authority_funds: u64 = 10_000_000;
    let mut vault = new_vault(&authority, &mut authority_funds);
    let rent = storage_deposit(VAULT_SPACE);
    assert_eq!(vault.lamports, rent);
    assert_eq!(authority_funds, 10_000_000 - rent);
    assert!(!vault.data.unwrap().locked);

    let funder = Address::new([2u8; 32]);
    let mut funder_funds: u64 = 500;
    let ev = deposit(&mut vault, &funder, &mut funder_funds, 100, 7).unwrap();
    assert_eq!(ev, DepositEvent { amount: 100, user: funder, vault: vault.key, timestamp: 7 });
    assert_eq!(vault.lamports - rent, 100);
    assert_eq!(funder_funds, 400);

    let before = authority_funds;
    let ev = withdraw(&mut vault, &authority, &mut authority_funds, 40, 7).unwrap();
    assert_eq!(ev, WithdrawEvent { amount: 40, vault_authority: authority, vault: vault.key, timestamp: 7 });
    assert_eq!(vault.lamports - rent, 60);
    assert_eq!(authority_funds, before + 40);

    let err = withdraw(&mut vault, &authority, &mut authority_funds, 1000, 7).unwrap_err();
    assert_eq!(err, VaultError::InsufficientBalance);
    assert_eq!(vault.lamports - rent, 60);
    assert_eq!(authority_funds, before + 40);
}

#[test]
fn vault_is_created_once_at_its_own_slot() {
    let authority = Address::new([1u8; 32]);
    let mut funds: u64 = 10_000_000;
    let mut vault = new_vault(&authority, &mut funds);
    let left = funds;
    assert_eq!(initialize_vault(&program(), &mut vault, &authority, &mut funds), Err(VaultError::AccountInUse));
    assert_eq!(funds, left);

    let mut elsewhere: Slot<Vault> = Slot::vacant(Address::new([9u8; 32]));
    assert_eq!(initialize_vault(&program(), &mut elsewhere, &authority, &mut funds), Err(VaultError::SeedsMismatch));
    assert!(!elsewhere.is_open());

    let other = Address::new([3u8; 32]);
    let (key, _) = find_address(&vault_seeds(&other), &program()).unwrap();
    let mut poor_slot: Slot<Vault> = Slot::vacant(key);
    let mut poor: u64 = 10;
    assert_eq!(initialize_vault(&program(), &mut poor_slot, &other, &mut poor), Err(VaultError::InsufficientFunds));
    assert_eq!(poor, 10);
    assert!(poor_slot.data.is_none());
}

#[test]
fn withdraw_conditions_each_give_their_error() {
    let authority = Address::new([1u8; 32]);
    let stranger = Address::new([2u8; 32]);
    let mut funds: u64 = 10_000_000;
    let mut vault = new_vault(&authority, &mut funds);
    let mut stranger_funds: u64 = 1_000;
    deposit(&mut vault, &stranger, &mut stranger_funds, 500, 7).unwrap();
    let held = vault.lamports;

    assert_eq!(withdraw(&mut vault, &stranger, &mut stranger_funds, 10, 7), Err(VaultError::Unauthorized));
    let balance = held - storage_deposit(VAULT_SPACE);
    assert_eq!(balance, 500);
    assert_eq!(withdraw(&mut vault, &authority, &mut funds, balance + 1, 7), Err(VaultError::InsufficientBalance));
    toggle_lock(&mut vault, &authority).unwrap();
    assert_eq!(withdraw(&mut vault, &authority, &mut funds, 10, 7), Err(VaultError::VaultLocked));
    assert!(vault.data.unwrap().locked);
    assert_eq!(vault.lamports, held);
    assert_eq!(stranger_funds, 500);

    toggle_lock(&mut vault, &authority).unwrap();
    let before = funds;
    withdraw(&mut vault, &authority, &mut funds, balance, 7).unwrap();
    assert_eq!(vault.lamports, storage_deposit(VAULT_SPACE));
    assert_eq!(funds, before + balance);
    assert_eq!(withdraw(&mut vault, &authority, &mut funds, 1, 7), Err(VaultError::InsufficientBalance));
}

#[test]
fn storage_deposit_is_never_paid_out() {
    let authority = Address::new([1u8; 32]);
    let mut funds: u64 = 10_000_000;
    let mut vault = new_vault(&authority, &mut funds);
    let rent = storage_deposit(VAULT_SPACE);
    assert_eq!(withdraw(&mut vault, &authority, &mut funds, 1, 7), Err(VaultError::InsufficientBalance));
    deposit(&mut vault, &authority, &mut funds, 10, 7).unwrap();
    let left = funds;
    assert_eq!(withdraw(&mut vault, &authority, &mut funds, 20, 7), Err(VaultError::InsufficientBalance));
    assert_eq!((vault.lamports, funds), (rent + 10, left));
    withdraw(&mut vault, &authority, &mut funds, 10, 7).unwrap();
    assert_eq!(vault.lamports, rent);
}

#[test]
fn withdraw_that_would_overflow_the_authority_is_refused() {
    let authority = Address::new([1u8; 32]);
    let mut funds: u64 = 10_000_000;
    let mut vault = new_vault(&authority, &mut funds);
    deposit(&mut vault, &authority, &mut funds, 10, 7).unwrap();
    let mut full: u64 = u64::MAX;
    assert_eq!(withdraw(&mut vault, &authority, &mut full, 1, 7), Err(VaultError::Overflow));
    assert_eq!(full, u64::MAX);
    assert_eq!(VaultError::Overflow.class(), ErrorClass::Arithmetic);
}

#[test]
fn deposit_checks_lock_funds_and_room() {
    let authority = Address::new([1u8; 32]);
    let mut funds: u64 = 10_000_000;
    let mut vault = new_vault(&authority, &mut funds);
    let user = Address::new([4u8; 32]);
    let mut user_funds: u64 = 50;
    assert_eq!(deposit(&mut vault, &user, &mut user_funds, 51, 7), Err(VaultError::InsufficientBalance));
    toggle_lock(&mut vault, &authority).unwrap();
    assert_eq!(deposit(&mut vault, &user, &mut user_funds, 10, 7), Err(VaultError::VaultLocked));
    toggle_lock(&mut vault, &authority).unwrap();
    vault.lamports = u64::MAX;
    assert_eq!(deposit(&mut vault, &user, &mut user_funds, 1, 7), Err(VaultError::Overflow));
    assert_eq!(user_funds, 50);

    let mut missing: Slot<Vault> = Slot::vacant(Address::new([0u8; 32]));
    assert_eq!(deposit(&mut missing, &user, &mut user_funds, 1, 7), Err(VaultError::NotInitialized));
    assert_eq!(withdraw(&mut missing, &user, &mut user_funds, 1, 7), Err(VaultError::NotInitialized));
    assert_eq!(toggle_lock(&mut missing, &user), Err(VaultError::NotInitialized));
}

#[test]
fn toggle_lock_twice_restores_and_needs_the_authority() {
    let authority = Address::new([1u8; 32]);
    let mut funds: u64 = 10_000_000;
    let mut vault = new_vault(&authority, &mut funds);
    let ev = toggle_lock(&mut vault, &authority).unwrap();
    assert_eq!(ev, ToggleLockEvent { vault: vault.key, vault_authority: authority, locked: true });
    assert!(vault.data.unwrap().locked);
    let ev = toggle_lock(&mut vault, &authority).unwrap();
    assert!(!ev.locked);
    assert!(!vault.data.unwrap().locked);

    let intruder = Address::new([6u8; 32]);
    let err = toggle_lock(&mut vault, &intruder).unwrap_err();
    assert_eq!(err, VaultError::Unauthorized);
    assert_eq!(err.class(), ErrorClass::Authorization);
    assert!(!vault.data.unwrap().locked);
}
