use vstd::prelude::*;
use crate::address::{
    Address, canonical_bump, check_user_state_address, check_vault_address,
    check_vault_state_address, derives, find_user_state_address, find_vault_address,
    find_vault_state_address, same_address, user_state_seeds, vault_seeds, vault_state_seeds,
};
use crate::state::{
    Deposit, InitializeUser, InitializeVault, UserState, VaultError, VaultState, Withdraw,
    accounts_match, index_of, lemma_total_push, lemma_total_update, owners_distinct, total_of,
};

verus! {

/// The program's records: the vault ledger, the custody balance and one
/// ledger per depositor, keyed by the depositor's address.
pub struct VaultProgram {
    /// The program that owns every record and derives every address.
    pub program_id: Address,
    /// The vault ledger, once initialized.
    pub vault_state: Option<VaultState>,
    /// What the custody address holds.
    pub vault_lamports: u64,
    /// The depositor ledgers.
    pub user_states: Vec<UserState>,
}

/// Mathematical view of a `VaultProgram`.
pub struct VaultModel {
    pub program_id: Address,
    pub vault_state: Option<VaultState>,
    pub vault_lamports: u64,
    pub user_states: Seq<UserState>,
}

impl View for VaultProgram {
    type V = VaultModel;

    open spec fn view(&self) -> VaultModel {
        VaultModel {
            program_id: self.program_id,
            vault_state: self.vault_state,
            vault_lamports: self.vault_lamports,
            user_states: self.user_states@,
        }
    }
}

impl VaultModel {
    /// The vault ledger's total is the sum of the depositor balances (zero
    /// before the vault exists), and each depositor has at most one ledger.
    pub open spec fn wf(self) -> bool {
        &&& owners_distinct(self.user_states)
        &&& match self.vault_state {
            Some(s) => s.total_deposited == total_of(self.user_states),
            None => total_of(self.user_states) == 0,
        }
    }

    /// The custody address holds at least what the ledger owes.
    pub open spec fn backed(self) -> bool {
        match self.vault_state {
            Some(s) => s.total_deposited <= self.vault_lamports,
            None => true,
        }
    }

    /// Position of the ledger of depositor `user`, or -1.
    pub open spec fn position(self, user: Address) -> int {
        index_of(self.user_states, user.bytes@)
    }
}

/// Result of `initialize_vault` on `m`: the new model, or the error.
pub open spec fn initialize_vault_outcome(m: VaultModel, a: InitializeVault) -> Result<VaultModel, VaultError> {
    let pid = m.program_id.bytes@;
    match (canonical_bump(vault_state_seeds(), pid), canonical_bump(vault_seeds(), pid)) {
        (Some(sb), Some(vb)) => {
            if !derives(vault_state_seeds(), sb, pid, a.vault_state.bytes@) || !derives(
                vault_seeds(),
                vb,
                pid,
                a.vault.bytes@,
            ) {
                Err(VaultError::AddressMismatch)
            } else if m.vault_state is Some {
                Err(VaultError::AlreadyInitialized)
            } else {
                Ok(
                    VaultModel {
                        vault_state: Some(
                            VaultState {
                                admin: a.admin,
                                total_deposited: 0,
                                state_bump: sb,
                                vault_bump: vb,
                            },
                        ),
                        ..m
                    },
                )
            }
        },
        _ => Err(VaultError::AddressMismatch),
    }
}

/// Result of `initialize_user` on `m`: the new model, or the error.
pub open spec fn initialize_user_outcome(m: VaultModel, a: InitializeUser) -> Result<VaultModel, VaultError> {
    let pid = m.program_id.bytes@;
    match canonical_bump(user_state_seeds(a.user.bytes@), pid) {
        Some(b) => {
            if !derives(user_state_seeds(a.user.bytes@), b, pid, a.user_state.bytes@) {
                Err(VaultError::AddressMismatch)
            } else if m.position(a.user) >= 0 {
                Err(VaultError::AlreadyInitialized)
            } else {
                Ok(
                    VaultModel {
                        user_states: m.user_states.push(
                            UserState { user: a.user, deposited: 0, bump: b },
                        ),
                        ..m
                    },
                )
            }
        },
        None => Err(VaultError::AddressMismatch),
    }
}

/// Result of `deposit` on `m` with the depositor holding `wallet`: the new
/// model and wallet balance, or the error.
pub open spec fn deposit_outcome(m: VaultModel, wallet: u64, a: Deposit, amount: u64) -> Result<
    (VaultModel, u64),
    VaultError,
> {
    let i = m.position(a.user);
    match m.vault_state {
        None => Err(VaultError::AccountNotInitialized),
        Some(s) => {
            if i < 0 {
                Err(VaultError::AccountNotInitialized)
            } else if !accounts_match(
                m.program_id,
                s,
                m.user_states[i],
                a.vault_state,
                a.vault,
                a.user_state,
            ) {
                Err(VaultError::AddressMismatch)
            } else if amount == 0 {
                Err(VaultError::InvalidAmount)
            } else if wallet < amount || m.vault_lamports + amount > u64::MAX {
                Err(VaultError::TransferFailed)
            } else if m.user_states[i].deposited + amount > u64::MAX || s.total_deposited + amount
                > u64::MAX {
                Err(VaultError::MathOverflow)
            } else {
                let u = m.user_states[i];
                Ok(
                    (
                        VaultModel {
                            vault_state: Some(
                                VaultState {
                                    total_deposited: (s.total_deposited + amount) as u64,
                                    ..s
                                },
                            ),
                            vault_lamports: (m.vault_lamports + amount) as u64,
                            user_states: m.user_states.update(
                                i,
                                UserState { deposited: (u.deposited + amount) as u64, ..u },
                            ),
                            ..m
                        },
                        (wallet - amount) as u64,
                    ),
                )
            }
        },
    }
}

/// Result of `withdraw` on `m` with the depositor holding `wallet`: the new
/// model and wallet balance, or the error.
pub open spec fn withdraw_outcome(m: VaultModel, wallet: u64, a: Withdraw, amount: u64) -> Result<
    (VaultModel, u64),
    VaultError,
> {
    let i = m.position(a.user);
    match m.vault_state {
        None => Err(VaultError::AccountNotInitialized),
        Some(s) => {
            if i < 0 {
                Err(VaultError::AccountNotInitialized)
            } else if !accounts_match(
                m.program_id,
                s,
                m.user_states[i],
                a.vault_state,
                a.vault,
                a.user_state,
            ) {
                Err(VaultError::AddressMismatch)
            } else if amount == 0 {
                Err(VaultError::InvalidAmount)
            } else if m.user_states[i].deposited < amount {
                Err(VaultError::InsufficientDepositedFunds)
            } else if m.vault_lamports < amount {
                Err(VaultError::InsufficientVaultBalance)
            } else if wallet + amount > u64::MAX {
                Err(VaultError::TransferFailed)
            } else if s.total_deposited < amount {
                Err(VaultError::MathOverflow)
            } else {
                let u = m.user_states[i];
                Ok(
                    (
                        VaultModel {
                            vault_state: Some(
                                VaultState {
                                    total_deposited: (s.total_deposited - amount) as u64,
                                    ..s
                                },
                            ),
                            vault_lamports: (m.vault_lamports - amount) as u64,
                            user_states: m.user_states.update(
                                i,
                                UserState { deposited: (u.deposited - amount) as u64, ..u },
                            ),
                            ..m
                        },
                        (wallet + amount) as u64,
                    ),
                )
            }
        },
    }
}

impl VaultProgram {
    /// A program with no records yet; nothing is held in custody.
    pub fn new(program_id: Address) -> (r: VaultProgram)
        ensures
            r@.program_id == program_id,
            r@.vault_state is None,
            r@.vault_lamports == 0,
            r@.user_states.len() == 0,
            r@.wf(),
            r@.backed(),
    {
        VaultProgram { program_id, vault_state: None, vault_lamports: 0, user_states: Vec::new() }
    }

    /// Position of the ledger of depositor `user`.
    fn position_of(&self, user: &Address) -> (r: Option<usize>)
        requires
            owners_distinct(self@.user_states),
        ensures
            match r {
                Some(i) => i < self.user_states@.len() && i == self@.position(*user),
                None => self@.position(*user) == -1,
            },
    {
        let mut i: usize = 0;
        while i < self.user_states.len()
            invariant
                0 <= i <= self.user_states@.len(),
                owners_distinct(self@.user_states),
                forall|j: int| 0 <= j < i ==> self.user_states@[j].user.bytes@ != user.bytes@,
            decreases self.user_states@.len() - i,
        {
            if same_address(&self.user_states[i].user, user) {
                proof {
                    let users = self.user_states@;
                    assert(users[i as int].user.bytes@ == user.bytes@);
                    let k = choose|k: int| 0 <= k < users.len() && users[k].user.bytes@ == user.bytes@;
                    if k != i {
                        assert(users[k].user.bytes@ != users[i as int].user.bytes@);
                    }
                }
                return Some(i);
            }
            i = i + 1;
        }
        None
    }

    /// Whether the supplied accounts are the ones the stored bumps derive.
    fn accounts_valid(
        &self,
        s: &VaultState,
        u: &UserState,
        vault_state: &Address,
        vault: &Address,
        user_state: &Address,
    ) -> (r: bool)
        ensures
            r == accounts_match(self.program_id, *s, *u, *vault_state, *vault, *user_state),
    {
        check_vault_state_address(&self.program_id, s.state_bump, vault_state)
            && check_vault_address(&self.program_id, s.vault_bump, vault)
            && check_user_state_address(&self.program_id, &u.user, u.bump, user_state)
    }
}

/// Creates the vault ledger at its canonical address, records the
/// custody bump and the admin, and starts the total at zero.
pub fn initialize_vault(program: &mut VaultProgram, accounts: &InitializeVault) -> (r: Result<(), VaultError>)
    requires
        owners_distinct(old(program)@.user_states),
    ensures
        owners_distinct(final(program)@.user_states),
        old(program)@.wf() ==> final(program)@.wf(),
        old(program)@.backed() ==> final(program)@.backed(),
        match initialize_vault_outcome(old(program)@, *accounts) {
            Ok(m) => r is Ok && final(program)@ == m,
            Err(e) => r == Err::<(), VaultError>(e) && final(program)@ == old(program)@,
        },
{
    let (state_address, state_bump) = match find_vault_state_address(&program.program_id) {
        Some(found) => found,
        None => return Err(VaultError::AddressMismatch),
    };
    let (vault_address, vault_bump) = match find_vault_address(&program.program_id) {
        Some(found) => found,
        None => return Err(VaultError::AddressMismatch),
    };
    if !same_address(&state_address, &accounts.vault_state) || !same_address(
        &vault_address,
        &accounts.vault,
    ) {
        return Err(VaultError::AddressMismatch);
    }
    if program.vault_state.is_some() {
        return Err(VaultError::AlreadyInitialized);
    }
    program.vault_state = Some(
        VaultState { admin: accounts.admin, total_deposited: 0, state_bump, vault_bump },
    );
    Ok(())
}

/// Creates the ledger of a depositor at its canonical address, with a
/// zero balance.
pub fn initialize_user(program: &mut VaultProgram, accounts: &InitializeUser) -> (r: Result<(), VaultError>)
    requires
        owners_distinct(old(program)@.user_states),
    ensures
        owners_distinct(final(program)@.user_states),
        old(program)@.wf() ==> final(program)@.wf(),
        old(program)@.backed() ==> final(program)@.backed(),
        match initialize_user_outcome(old(program)@, *accounts) {
            Ok(m) => r is Ok && final(program)@ == m,
            Err(e) => r == Err::<(), VaultError>(e) && final(program)@ == old(program)@,
        },
{
    let (address, bump) = match find_user_state_address(&program.program_id, &accounts.user) {
        Some(found) => found,
        None => return Err(VaultError::AddressMismatch),
    };
    if !same_address(&address, &accounts.user_state) {
        return Err(VaultError::AddressMismatch);
    }
    if program.position_of(&accounts.user).is_some() {
        return Err(VaultError::AlreadyInitialized);
    }
    let record = UserState { user: accounts.user, deposited: 0, bump };
    proof {
        lemma_total_push(program.user_states@, record);
    }
    program.user_states.push(record);
    Ok(())
}

/// Moves `amount` from the depositor's balance `wallet` into custody and
/// credits it to the depositor's ledger and the vault total.
pub fn deposit(program: &mut VaultProgram, accounts: &Deposit, wallet: &mut u64, amount: u64) -> (r: Result<(), VaultError>)
    requires
        owners_distinct(old(program)@.user_states),
    ensures
        owners_distinct(final(program)@.user_states),
        old(program)@.wf() ==> final(program)@.wf(),
        old(program)@.backed() ==> final(program)@.backed(),
        match deposit_outcome(old(program)@, *old(wallet), *accounts, amount) {
            Ok((m, w)) => r is Ok && final(program)@ == m && *final(wallet) == w,
            Err(e) => r == Err::<(), VaultError>(e) && final(program)@ == old(program)@ && *final(wallet)
                == *old(wallet),
        },
{
    let s = match program.vault_state {
        Some(s) => s,
        None => return Err(VaultError::AccountNotInitialized),
    };
    let i = match program.position_of(&accounts.user) {
        Some(i) => i,
        None => return Err(VaultError::AccountNotInitialized),
    };
    let u = program.user_states[i];
    if !program.accounts_valid(&s, &u, &accounts.vault_state, &accounts.vault, &accounts.user_state) {
        return Err(VaultError::AddressMismatch);
    }
    if amount == 0 {
        return Err(VaultError::InvalidAmount);
    }
    if *wallet < amount || program.vault_lamports.checked_add(amount).is_none() {
        return Err(VaultError::TransferFailed);
    }
    let deposited = match u.deposited.checked_add(amount) {
        Some(v) => v,
        None => return Err(VaultError::MathOverflow),
    };
    let total = match s.total_deposited.checked_add(amount) {
        Some(v) => v,
        None => return Err(VaultError::MathOverflow),
    };
    *wallet = *wallet - amount;
    program.vault_lamports = program.vault_lamports + amount;
    let updated = UserState { deposited, ..u };
    proof {
        lemma_total_update(program.user_states@, i as int, updated);
    }
    program.user_states.set(i, updated);
    program.vault_state = Some(VaultState { total_deposited: total, ..s });
    Ok(())
}

/// Pays `amount` out of custody to the depositor's balance `wallet` and
/// debits it from the depositor's ledger and the vault total.
pub fn withdraw(program: &mut VaultProgram, accounts: &Withdraw, wallet: &mut u64, amount: u64) -> (r: Result<(), VaultError>)
    requires
        owners_distinct(old(program)@.user_states),
    ensures
        owners_distinct(final(program)@.user_states),
        old(program)@.wf() ==> final(program)@.wf(),
        old(program)@.backed() ==> final(program)@.backed(),
        match withdraw_outcome(old(program)@, *old(wallet), *accounts, amount) {
            Ok((m, w)) => r is Ok && final(program)@ == m && *final(wallet) == w,
            Err(e) => r == Err::<(), VaultError>(e) && final(program)@ == old(program)@ && *final(wallet)
                == *old(wallet),
        },
{
    let s = match program.vault_state {
        Some(s) => s,
        None => return Err(VaultError::AccountNotInitialized),
    };
    let i = match program.position_of(&accounts.user) {
        Some(i) => i,
        None => return Err(VaultError::AccountNotInitialized),
    };
    let u = program.user_states[i];
    if !program.accounts_valid(&s, &u, &accounts.vault_state, &accounts.vault, &accounts.user_state) {
        return Err(VaultError::AddressMismatch);
    }
    if amount == 0 {
        return Err(VaultError::InvalidAmount);
    }
    if u.deposited < amount {
        return Err(VaultError::InsufficientDepositedFunds);
    }
    if program.vault_lamports < amount {
        return Err(VaultError::InsufficientVaultBalance);
    }
    if wallet.checked_add(amount).is_none() {
        return Err(VaultError::TransferFailed);
    }
    let deposited = match u.deposited.checked_sub(amount) {
        Some(v) => v,
        None => return Err(VaultError::MathOverflow),
    };
    let total = match s.total_deposited.checked_sub(amount) {
        Some(v) => v,
        None => return Err(VaultError::MathOverflow),
    };
    *wallet = *wallet + amount;
    program.vault_lamports = program.vault_lamports - amount;
    let updated = UserState { deposited, ..u };
    proof {
        lemma_total_update(program.user_states@, i as int, updated);
    }
    program.user_states.set(i, updated);
    program.vault_state = Some(VaultState { total_deposited: total, ..s });
    Ok(())
}

} // verus!
