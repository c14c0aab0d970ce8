use vstd::prelude::*;
use crate::state::{
    Deposit, UserState, VaultError, Withdraw, accounts_match, index_of, owners_distinct,
};
use crate::vault::{VaultModel, deposit_outcome, withdraw_outcome};

verus! {

/// The withdrawal names an initialized vault, an existing ledger of its
/// depositor, and the addresses that the stored bumps derive.
pub open spec fn withdraw_accounts_valid(m: VaultModel, a: Withdraw) -> bool {
    &&& m.vault_state is Some
    &&& 0 <= m.position(a.user)
    &&& accounts_match(
        m.program_id,
        m.vault_state->0,
        m.user_states[m.position(a.user)],
        a.vault_state,
        a.vault,
        a.user_state,
    )
}

/// In a ledger list with distinct owners, each ledger is found at its own
/// position, also after its balance changes.
pub proof fn lemma_position_of_owner(users: Seq<UserState>, i: int, u: UserState)
    requires
        owners_distinct(users),
        0 <= i < users.len(),
        u.user == users[i].user,
    ensures
        index_of(users, users[i].user.bytes@) == i,
        index_of(users.update(i, u), users[i].user.bytes@) == i,
        owners_distinct(users.update(i, u)),
{
    let key = users[i].user.bytes@;
    let k = choose|k: int| 0 <= k < users.len() && users[k].user.bytes@ == key;
    assert(users[i].user.bytes@ == key);
    if k != i {
        assert(users[k].user.bytes@ != users[i].user.bytes@);
    }
    let v = users.update(i, u);
    assert(v[i].user.bytes@ == key);
    let k2 = choose|k: int| 0 <= k < v.len() && v[k].user.bytes@ == key;
    if k2 != i {
        assert(v[k2] == users[k2]);
        assert(users[k2].user.bytes@ != users[i].user.bytes@);
    }
    assert forall|a: int, b: int|
        0 <= a < v.len() && 0 <= b < v.len() && a != b implies v[a].user.bytes@ != v[b].user.bytes@ by {
        assert(users[a].user.bytes@ != users[b].user.bytes@);
    }
}

/// Withdrawing more than the depositor's recorded balance is rejected with
/// `InsufficientDepositedFunds` (and a rejected withdrawal changes nothing).
pub proof fn lemma_overdraw_rejected(m: VaultModel, wallet: u64, a: Withdraw, amount: u64)
    requires
        withdraw_accounts_valid(m, a),
        amount > m.user_states[m.position(a.user)].deposited,
    ensures
        withdraw_outcome(m, wallet, a, amount) == Err::<(VaultModel, u64), VaultError>(
            VaultError::InsufficientDepositedFunds,
        ),
{
}

/// A withdrawal of zero is rejected with `InvalidAmount`, whatever the
/// balances (and a rejected withdrawal changes nothing).
pub proof fn lemma_zero_withdraw_rejected(m: VaultModel, wallet: u64, a: Withdraw)
    requires
        withdraw_accounts_valid(m, a),
    ensures
        withdraw_outcome(m, wallet, a, 0) == Err::<(VaultModel, u64), VaultError>(
            VaultError::InvalidAmount,
        ),
{
}

/// Depositing an amount and then withdrawing the same amount through the
/// same accounts succeeds and restores the depositor's ledger, the vault
/// total, the custody balance and the depositor's own balance.
pub proof fn lemma_deposit_withdraw_round_trip(
    m: VaultModel,
    wallet: u64,
    d: Deposit,
    w: Withdraw,
    amount: u64,
)
    requires
        owners_distinct(m.user_states),
        w.vault_state == d.vault_state,
        w.vault == d.vault,
        w.user_state == d.user_state,
        w.user == d.user,
        deposit_outcome(m, wallet, d, amount) is Ok,
    ensures
        withdraw_outcome(
            deposit_outcome(m, wallet, d, amount)->Ok_0.0,
            deposit_outcome(m, wallet, d, amount)->Ok_0.1,
            w,
            amount,
        ) == Ok::<(VaultModel, u64), VaultError>((m, wallet)),
{
    let (m1, wallet1) = deposit_outcome(m, wallet, d, amount)->Ok_0;
    let i = m.position(d.user);
    let u = m.user_states[i];
    let u1 = m1.user_states[i];
    lemma_position_of_owner(m.user_states, i, u1);
    assert(m1.position(w.user) == i);
    let (m2, wallet2) = withdraw_outcome(m1, wallet1, w, amount)->Ok_0;
    assert(m2.user_states =~= m.user_states);
    assert(m2.vault_state == m.vault_state);
    assert(m2 == m);
}

/// A withdrawal changes no ledger but the withdrawing depositor's own.
pub proof fn lemma_withdraw_isolated(m: VaultModel, wallet: u64, a: Withdraw, amount: u64, j: int)
    requires
        withdraw_outcome(m, wallet, a, amount) is Ok,
        0 <= j < m.user_states.len(),
        m.user_states[j].user.bytes@ != a.user.bytes@,
    ensures
        withdraw_outcome(m, wallet, a, amount)->Ok_0.0.user_states[j] == m.user_states[j],
{
}

} // verus!
