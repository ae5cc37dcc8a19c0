//! A time-locked custody program, as a verified model: a lock record per owner and asset,
//! deposits that fill a program-derived vault, and withdrawals that release it to the owner
//! once the unlock time has passed. Every operation checks its accounts against addresses it
//! derives itself, and a failed operation changes nothing.
pub mod address;
pub mod state;
pub mod sol;
pub mod spl;
pub mod laws;

pub use address::{Address, ProgramAddress, SeedTag, derive_address};
pub use state::{TimelockAccount, SystemAccount, TokenAccount, ErrorCode};
pub use sol::{InitializeSolLock, WithdrawSol, initialize_sol_lock, withdraw_sol, lock_sol, release_sol};
pub use spl::{InitializeSpLock, WithdrawSpl, initialize_spl_lock, withdraw_spl, lock_spl, release_spl};
