use pda_vault::address::{
    check_user_state_address, check_vault_address, custody_signer_seeds, check_vault_state_address, find_user_state_address,
    find_vault_address, find_vault_state_address, same_address,
};
use pda_vault::{
    deposit, initialize_user, initialize_vault, withdraw, Address, Deposit, InitializeUser,
    InitializeVault, UserState, VaultError, VaultProgram, VaultState, Withdraw,
};

fn addr(b: u8) -> Address {
    Address { bytes: [b; 32] }
}

fn program_id() -> Address {
    let mut bytes = [0u8; 32];
    for (i, b) in bytes.iter_mut().enumerate() {
        *b = (i as u8).wrapping_mul(7).wrapping_add(3);
    }
    Address { bytes }
}

fn init_vault_accounts(p: &VaultProgram, admin: Address) -> InitializeVault {
    let (vault_state, _) = find_vault_state_address(&p.program_id).unwrap();
    let (vault, _) = find_vault_address(&p.program_id).unwrap();
    InitializeVault { vault_state, vault, admin }
}

fn init_user_accounts(p: &VaultProgram, user: Address) -> InitializeUser {
    let (user_state, _) = find_user_state_address(&p.program_id, &user).unwrap();
    InitializeUser { user_state, user }
}

fn deposit_accounts(p: &VaultProgram, user: Address) -> Deposit {
    let (vault_state, _) = find_vault_state_address(&p.program_id).unwrap();
    let (vault, _) = find_vault_address(&p.program_id).unwrap();
    let (user_state, _) = find_user_state_address(&p.program_id, &user).unwrap();
    Deposit { vault_state, vault, user_state, user }
}

fn withdraw_accounts(p: &VaultProgram, user: Address) -> Withdraw {
    let d = deposit_accounts(p, user);
    Withdraw { vault_state: d.vault_state, vault: d.vault, user_state: d.user_state, user }
}

fn user_of(p: &VaultProgram, user: Address) -> UserState {
    *p.user_states.iter().find(|u| u.user.bytes == user.bytes).unwrap()
}

fn total(p: &VaultProgram) -> u64 {
    p.vault_state.unwrap().total_deposited
}

/// A program with an initialized vault and initialized depositors.
fn setup(users: &[Address]) -> VaultProgram {
    let mut p = VaultProgram::new(program_id());
    let a = init_vault_accounts(&p, addr(200));
    initialize_vault(&mut p, &a).unwrap();
    for u in users {
        let a = init_user_accounts(&p, *u);
        initialize_user(&mut p, &a).unwrap();
    }
    p
}

/// A program whose depositor `user` already has `balance` on record.
fn setup_with_balance(user: Address, balance: u64) -> VaultProgram {
    let mut p = setup(&[user]);
    let mut wallet = balance;
    let a = deposit_accounts(&p, user);
    deposit(&mut p, &a, &mut wallet, balance).unwrap();
    p
}

#[test]
fn fresh_vault_deposit_credits_ledgers_and_custody() {
    let alice = addr(1);
    let mut p = setup(&[alice]);
    assert_eq!(total(&p), 0);
    let custody_before = p.vault_lamports;
    let mut wallet: u64 = 5_000;
    let a = deposit_accounts(&p, alice);
    assert_eq!(deposit(&mut p, &a, &mut wallet, 1_000), Ok(()));
    assert_eq!(user_of(&p, alice).deposited, 1_000);
    assert_eq!(total(&p), 1_000);
    assert_eq!(p.vault_lamports, custody_before + 1_000);
    assert_eq!(wallet, 4_000);
}

#[test]
fn withdraw_part_of_balance() {
    let alice = addr(1);
    let mut p = setup_with_balance(alice, 1_000);
    let total_before = total(&p);
    let custody_before = p.vault_lamports;
    let mut wallet: u64 = 0;
    let a = withdraw_accounts(&p, alice);
    assert_eq!(withdraw(&mut p, &a, &mut wallet, 400), Ok(()));
    assert_eq!(user_of(&p, alice).deposited, 600);
    assert_eq!(total(&p), total_before - 400);
    assert_eq!(p.vault_lamports, custody_before - 400);
    assert_eq!(wallet, 400);
}

#[test]
fn overdraw_is_rejected_and_changes_nothing() {
    let alice = addr(1);
    let mut p = setup_with_balance(alice, 100);
    let mut wallet: u64 = 7;
    let a = withdraw_accounts(&p, alice);
    assert_eq!(withdraw(&mut p, &a, &mut wallet, 101), Err(VaultError::InsufficientDepositedFunds));
    assert_eq!(user_of(&p, alice).deposited, 100);
    assert_eq!(total(&p), 100);
    assert_eq!(p.vault_lamports, 100);
    assert_eq!(wallet, 7);
}

#[test]
fn independent_depositors_withdraw_without_interference() {
    let alice = addr(1);
    let bob = addr(2);
    let mut p = setup(&[alice, bob]);
    let mut wa: u64 = 500;
    let mut wb: u64 = 300;
    let da = deposit_accounts(&p, alice);
    let db = deposit_accounts(&p, bob);
    deposit(&mut p, &da, &mut wa, 500).unwrap();
    deposit(&mut p, &db, &mut wb, 300).unwrap();
    assert_eq!(total(&p), 800);
    let a = withdraw_accounts(&p, alice);
    let b = withdraw_accounts(&p, bob);
    assert_eq!(withdraw(&mut p, &a, &mut wa, 200), Ok(()));
    assert_eq!(user_of(&p, bob).deposited, 300);
    assert_eq!(withdraw(&mut p, &b, &mut wb, 100), Ok(()));
    assert_eq!(user_of(&p, alice).deposited, 300);
    assert_eq!(user_of(&p, bob).deposited, 200);
    assert_eq!(total(&p), 500);
    assert_eq!(p.vault_lamports, 500);
    assert_eq!(wa, 200);
    assert_eq!(wb, 100);
}

#[test]
fn zero_withdraw_is_rejected() {
    let alice = addr(1);
    let mut p = setup_with_balance(alice, 250);
    let mut wallet: u64 = 9;
    let a = withdraw_accounts(&p, alice);
    assert_eq!(withdraw(&mut p, &a, &mut wallet, 0), Err(VaultError::InvalidAmount));
    assert_eq!(user_of(&p, alice).deposited, 250);
    assert_eq!(total(&p), 250);
    assert_eq!(p.vault_lamports, 250);
    assert_eq!(wallet, 9);
    let mut empty = setup(&[alice]);
    let a = withdraw_accounts(&empty, alice);
    assert_eq!(withdraw(&mut empty, &a, &mut wallet, 0), Err(VaultError::InvalidAmount));
}

#[test]
fn zero_deposit_is_rejected() {
    let alice = addr(1);
    let mut p = setup(&[alice]);
    let mut wallet: u64 = 10;
    let a = deposit_accounts(&p, alice);
    assert_eq!(deposit(&mut p, &a, &mut wallet, 0), Err(VaultError::InvalidAmount));
    assert_eq!(wallet, 10);
    assert_eq!(total(&p), 0);
}

#[test]
fn deposit_then_withdraw_restores_everything() {
    let alice = addr(1);
    let mut p = setup_with_balance(alice, 40);
    let mut wallet: u64 = 1_000;
    let before_user = user_of(&p, alice).deposited;
    let before_total = total(&p);
    let before_custody = p.vault_lamports;
    let d = deposit_accounts(&p, alice);
    let w = withdraw_accounts(&p, alice);
    deposit(&mut p, &d, &mut wallet, 333).unwrap();
    withdraw(&mut p, &w, &mut wallet, 333).unwrap();
    assert_eq!(user_of(&p, alice).deposited, before_user);
    assert_eq!(total(&p), before_total);
    assert_eq!(p.vault_lamports, before_custody);
    assert_eq!(wallet, 1_000);
}

#[test]
fn total_matches_sum_of_ledgers() {
    let users = [addr(1), addr(2), addr(3)];
    let mut p = setup(&users);
    let mut wallets = [1_000u64, 2_000, 3_000];
    for (k, u) in users.iter().enumerate() {
        let d = deposit_accounts(&p, *u);
        deposit(&mut p, &d, &mut wallets[k], 100 * (k as u64 + 1)).unwrap();
    }
    let w = withdraw_accounts(&p, users[2]);
    withdraw(&mut p, &w, &mut wallets[2], 50).unwrap();
    let sum: u64 = p.user_states.iter().map(|u| u.deposited).sum();
    assert_eq!(sum, 550);
    assert_eq!(total(&p), sum);
    assert!(total(&p) <= p.vault_lamports);
}

#[test]
fn deposit_beyond_wallet_fails_transfer() {
    let alice = addr(1);
    let mut p = setup(&[alice]);
    let mut wallet: u64 = 99;
    let a = deposit_accounts(&p, alice);
    assert_eq!(deposit(&mut p, &a, &mut wallet, 100), Err(VaultError::TransferFailed));
    assert_eq!(wallet, 99);
    assert_eq!(user_of(&p, alice).deposited, 0);
    assert_eq!(p.vault_lamports, 0);
}

#[test]
fn withdraw_beyond_custody_balance_is_rejected() {
    let alice = addr(1);
    let mut p = setup_with_balance(alice, 500);
    // the custody address was drained by means outside the program
    p.vault_lamports = 200;
    let mut wallet: u64 = 0;
    let a = withdraw_accounts(&p, alice);
    assert_eq!(withdraw(&mut p, &a, &mut wallet, 300), Err(VaultError::InsufficientVaultBalance));
    assert_eq!(user_of(&p, alice).deposited, 500);
    assert_eq!(withdraw(&mut p, &a, &mut wallet, 200), Ok(()));
    assert_eq!(p.vault_lamports, 0);
}

#[test]
fn deposit_that_overflows_ledger_is_rejected() {
    let alice = addr(1);
    let mut p = setup(&[alice]);
    let a = deposit_accounts(&p, alice);
    let mut wallet: u64 = u64::MAX;
    // the ledger already records the largest balance, custody holds it too
    let mut full = p.user_states[0];
    full.deposited = u64::MAX;
    p.user_states[0] = full;
    p.vault_state = Some(VaultState { total_deposited: u64::MAX, ..p.vault_state.unwrap() });
    p.vault_lamports = 0;
    assert_eq!(deposit(&mut p, &a, &mut wallet, 1), Err(VaultError::MathOverflow));
    assert_eq!(wallet, u64::MAX);
    assert_eq!(user_of(&p, alice).deposited, u64::MAX);
}

#[test]
fn withdraw_into_full_wallet_fails_transfer() {
    let alice = addr(1);
    let mut p = setup_with_balance(alice, 10);
    let mut wallet: u64 = u64::MAX;
    let a = withdraw_accounts(&p, alice);
    assert_eq!(withdraw(&mut p, &a, &mut wallet, 1), Err(VaultError::TransferFailed));
    assert_eq!(user_of(&p, alice).deposited, 10);
}

#[test]
fn second_vault_initialization_fails() {
    let mut p = setup(&[]);
    let before = p.vault_state.unwrap();
    let a = init_vault_accounts(&p, addr(9));
    assert_eq!(initialize_vault(&mut p, &a), Err(VaultError::AlreadyInitialized));
    assert_eq!(p.vault_state.unwrap().admin.bytes, before.admin.bytes);
}

#[test]
fn vault_initialization_records_admin_and_bumps() {
    let mut p = VaultProgram::new(program_id());
    let a = init_vault_accounts(&p, addr(200));
    assert_eq!(initialize_vault(&mut p, &a), Ok(()));
    let s = p.vault_state.unwrap();
    assert_eq!(s.admin.bytes, [200u8; 32]);
    assert_eq!(s.total_deposited, 0);
    assert_eq!(s.state_bump, find_vault_state_address(&p.program_id).unwrap().1);
    assert_eq!(s.vault_bump, find_vault_address(&p.program_id).unwrap().1);
}

#[test]
fn second_user_initialization_fails() {
    let alice = addr(1);
    let mut p = setup_with_balance(alice, 70);
    let a = init_user_accounts(&p, alice);
    assert_eq!(initialize_user(&mut p, &a), Err(VaultError::AlreadyInitialized));
    assert_eq!(p.user_states.len(), 1);
    assert_eq!(user_of(&p, alice).deposited, 70);
}

#[test]
fn wrong_addresses_are_rejected() {
    let alice = addr(1);
    let mut p = VaultProgram::new(program_id());
    let mut a = init_vault_accounts(&p, addr(200));
    a.vault = a.vault_state;
    assert_eq!(initialize_vault(&mut p, &a), Err(VaultError::AddressMismatch));
    assert!(p.vault_state.is_none());
    let ua = InitializeUser { user_state: addr(5), user: alice };
    assert_eq!(initialize_user(&mut p, &ua), Err(VaultError::AddressMismatch));
    let mut p = setup(&[alice, addr(2)]);
    let mut wallet: u64 = 100;
    let mut d = deposit_accounts(&p, alice);
    d.user_state = deposit_accounts(&p, addr(2)).user_state;
    assert_eq!(deposit(&mut p, &d, &mut wallet, 10), Err(VaultError::AddressMismatch));
    let mut w = withdraw_accounts(&p, alice);
    w.vault = addr(3);
    assert_eq!(withdraw(&mut p, &w, &mut wallet, 10), Err(VaultError::AddressMismatch));
    assert_eq!(wallet, 100);
}

#[test]
fn missing_records_are_rejected() {
    let alice = addr(1);
    let mut p = VaultProgram::new(program_id());
    let mut wallet: u64 = 100;
    let d = deposit_accounts(&p, alice);
    assert_eq!(deposit(&mut p, &d, &mut wallet, 10), Err(VaultError::AccountNotInitialized));
    let mut p = setup(&[]);
    assert_eq!(deposit(&mut p, &d, &mut wallet, 10), Err(VaultError::AccountNotInitialized));
    let w = withdraw_accounts(&p, alice);
    assert_eq!(withdraw(&mut p, &w, &mut wallet, 10), Err(VaultError::AccountNotInitialized));
}

#[test]
fn derived_addresses_are_checked_against_bumps() {
    let pid = program_id();
    let (state, sb) = find_vault_state_address(&pid).unwrap();
    let (vault, vb) = find_vault_address(&pid).unwrap();
    let alice = addr(1);
    let (user_state, ub) = find_user_state_address(&pid, &alice).unwrap();
    assert!(!same_address(&state, &pid));
    assert!(!same_address(&state, &vault));
    assert!(!same_address(&user_state, &state));
    assert!(!same_address(&user_state, &find_user_state_address(&pid, &addr(2)).unwrap().0));
    assert!(check_vault_state_address(&pid, sb, &state));
    assert!(check_vault_address(&pid, vb, &vault));
    assert!(check_user_state_address(&pid, &alice, ub, &user_state));
    assert!(!check_vault_address(&pid, vb, &state));
    assert!(!check_vault_state_address(&pid, sb.wrapping_sub(1), &state));
    assert!(!check_user_state_address(&pid, &addr(2), ub, &user_state));
}

#[test]
fn record_sizes() {
    assert_eq!(VaultState::INIT_SPACE, 42);
    assert_eq!(UserState::INIT_SPACE, 41);
}

#[test]
fn custody_signer_seeds_only_for_the_custody_address() {
    let pid = program_id();
    let (vault, vb) = find_vault_address(&pid).unwrap();
    let seeds = custody_signer_seeds(&pid, vb, &vault).unwrap();
    assert_eq!(seeds, vec![b"vault".to_vec(), vec![vb]]);
    assert!(custody_signer_seeds(&pid, vb, &addr(4)).is_none());
    assert!(custody_signer_seeds(&pid, vb.wrapping_sub(1), &vault).is_none());
}
