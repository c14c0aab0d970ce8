//! A custodial vault: depositors pool a native asset at one custody address
//! that only the program controls, each depositor's claim is kept in a ledger
//! of its own, and a global ledger keeps the sum of all claims.
//!
//! Every record lives at an address derived from fixed seeds and a bump; the
//! bumps are stored at creation and re-checked on each access. Deposits and
//! withdrawals are all-or-nothing: a rejected operation changes no ledger and
//! no balance.
pub mod address;
pub mod laws;
pub mod state;
pub mod vault;

pub use address::Address;
pub use state::{
    Deposit, InitializeUser, InitializeVault, UserState, VaultError, VaultState, Withdraw,
};
pub use vault::{VaultProgram, deposit, initialize_user, initialize_vault, withdraw};
