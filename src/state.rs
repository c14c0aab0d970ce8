use vstd::prelude::*;
use crate::address::{
    Address, derives, user_state_seeds, vault_seeds, vault_state_seeds,
};

verus! {

/// The global vault ledger.
#[derive(Clone, Copy, Debug)]
pub struct VaultState {
    /// The identity that initialized the vault; recorded, not used for gating.
    pub admin: Address,
    /// Sum of the balances owed to all depositors.
    pub total_deposited: u64,
    /// Bump that pins this record's own address.
    pub state_bump: u8,
    /// Bump that pins the custody address.
    pub vault_bump: u8,
}

impl VaultState {
    /// Bytes of the record's fields: an address, a `u64` and two bumps.
    pub const INIT_SPACE: usize = 32 + 8 + 1 + 1;
}

/// The ledger of one depositor.
#[derive(Clone, Copy, Debug)]
pub struct UserState {
    /// The depositor this record is bound to.
    pub user: Address,
    /// Balance currently owed to the depositor.
    pub deposited: u64,
    /// Bump that pins this record's address.
    pub bump: u8,
}

impl UserState {
    /// Bytes of the record's fields: an address, a `u64` and a bump.
    pub const INIT_SPACE: usize = 32 + 8 + 1;
}

/// Why an operation was rejected. A rejected operation changes nothing.
#[derive(Clone, Copy, Debug, PartialEq, Eq, Structural)]
pub enum VaultError {
    /// The amount is zero.
    InvalidAmount,
    /// The withdrawal exceeds the depositor's recorded balance.
    InsufficientDepositedFunds,
    /// The withdrawal exceeds what the custody address holds.
    InsufficientVaultBalance,
    /// A 64-bit counter would overflow or underflow.
    MathOverflow,
    /// The record to be created already exists.
    AlreadyInitialized,
    /// A supplied address is not the one derived from its seeds and bump.
    AddressMismatch,
    /// A record that the operation reads does not exist yet.
    AccountNotInitialized,
    /// The asset transfer was refused (the sender lacks funds, or the
    /// receiver's balance would overflow).
    TransferFailed,
}

/// Accounts of the vault initialization.
#[derive(Clone, Copy, Debug)]
pub struct InitializeVault {
    /// Address of the vault ledger record to create.
    pub vault_state: Address,
    /// The custody address.
    pub vault: Address,
    /// The initializing identity.
    pub admin: Address,
}

/// Accounts of a depositor's initialization.
#[derive(Clone, Copy, Debug)]
pub struct InitializeUser {
    /// Address of the depositor's ledger record to create.
    pub user_state: Address,
    /// The depositor.
    pub user: Address,
}

/// Accounts of a deposit.
#[derive(Clone, Copy, Debug)]
pub struct Deposit {
    pub vault_state: Address,
    pub vault: Address,
    pub user_state: Address,
    pub user: Address,
}

/// Accounts of a withdrawal.
#[derive(Clone, Copy, Debug)]
pub struct Withdraw {
    pub vault_state: Address,
    pub vault: Address,
    pub user_state: Address,
    pub user: Address,
}

/// Sum of the balances of the depositor ledgers.
pub open spec fn total_of(users: Seq<UserState>) -> int
    decreases users.len(),
{
    if users.len() == 0 {
        0
    } else {
        total_of(users.drop_last()) + users.last().deposited
    }
}

/// No two ledgers belong to the same depositor.
pub open spec fn owners_distinct(users: Seq<UserState>) -> bool {
    forall|i: int, j: int|
        0 <= i < users.len() && 0 <= j < users.len() && i != j ==> users[i].user.bytes@
            != users[j].user.bytes@
}

/// Position of the ledger of depositor `key`, or -1.
pub open spec fn index_of(users: Seq<UserState>, key: Seq<u8>) -> int {
    if exists|i: int| 0 <= i < users.len() && users[i].user.bytes@ == key {
        choose|i: int| 0 <= i < users.len() && users[i].user.bytes@ == key
    } else {
        -1
    }
}

/// The supplied vault ledger, custody and depositor ledger addresses are
/// the ones that the stored bumps derive.
pub open spec fn accounts_match(
    program_id: Address,
    s: VaultState,
    u: UserState,
    vault_state: Address,
    vault: Address,
    user_state: Address,
) -> bool {
    &&& derives(vault_state_seeds(), s.state_bump, program_id.bytes@, vault_state.bytes@)
    &&& derives(vault_seeds(), s.vault_bump, program_id.bytes@, vault.bytes@)
    &&& derives(user_state_seeds(u.user.bytes@), u.bump, program_id.bytes@, user_state.bytes@)
}

pub proof fn lemma_total_update(users: Seq<UserState>, i: int, u: UserState)
    requires
        0 <= i < users.len(),
    ensures
        total_of(users.update(i, u)) == total_of(users) - users[i].deposited + u.deposited,
    decreases users.len(),
{
    if i == users.len() - 1 {
        assert(users.update(i, u).drop_last() =~= users.drop_last());
    } else {
        lemma_total_update(users.drop_last(), i, u);
        assert(users.update(i, u).drop_last() =~= users.drop_last().update(i, u));
    }
}

pub proof fn lemma_total_push(users: Seq<UserState>, u: UserState)
    ensures
        total_of(users.push(u)) == total_of(users) + u.deposited,
{
    assert(users.push(u).drop_last() =~= users);
}

} // verus!
