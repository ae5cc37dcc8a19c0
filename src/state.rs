use vstd::prelude::*;
use crate::address::{Address, native_tag};

verus! {

/// The lock record: one per owner per asset class, owned by the program.
#[derive(Clone, Copy)]
pub struct TimelockAccount {
    pub owner: Address,
    /// The token mint that is locked; the all-zero identity for the native coin.
    pub token_mint: Address,
    /// The program-derived address that holds the funds (or, for tokens, is their authority).
    pub vault: Address,
    pub amount: u64,
    pub unlock_timestamp: i64,
    pub created_timestamp: i64,
    pub is_initialized: bool,
    pub vault_bump: u8,
    pub vault_token_bump: u8,
    pub timelock_bump: u8,
}

impl TimelockAccount {
    /// Size of the record's data after the 8-byte account discriminator.
    pub const LEN: usize = 32 + 32 + 32 + 8 + 8 + 8 + 1 + 1 + 1 + 1;

    /// A record that was just allocated: all fields zero, not initialized.
    pub fn empty() -> (r: TimelockAccount)
        ensures
            r.owner@ == native_tag(),
            r.token_mint@ == native_tag(),
            r.vault@ == native_tag(),
            r.amount == 0,
            r.unlock_timestamp == 0,
            r.created_timestamp == 0,
            !r.is_initialized,
            r.vault_bump == 0,
            r.vault_token_bump == 0,
            r.timelock_bump == 0,
    {
        TimelockAccount {
            owner: Address::native(),
            token_mint: Address::native(),
            vault: Address::native(),
            amount: 0,
            unlock_timestamp: 0,
            created_timestamp: 0,
            is_initialized: false,
            vault_bump: 0,
            vault_token_bump: 0,
            timelock_bump: 0,
        }
    }
}

/// An account of the native coin, as a request presents it: its address and balance.
#[derive(Clone, Copy)]
pub struct SystemAccount {
    pub key: Address,
    pub lamports: u64,
}

/// A token sub-account: which mint it holds, which authority may move it, and its balance.
#[derive(Clone, Copy)]
pub struct TokenAccount {
    pub key: Address,
    pub mint: Address,
    pub authority: Address,
    pub amount: u64,
}

#[derive(Clone, Copy, Debug, PartialEq, Eq, Structural)]
pub enum ErrorCode {
    /// A withdrawal before the unlock time, or a deposit whose unlock time is not in the future.
    TimeNotExpired,
    /// The lock record already holds a lock, or the holding account is not empty.
    AccountAlreadyInitialized,
    /// The signer is missing or is not the record's owner, or the record is not the signer's.
    Unauthorized,
    /// A presented account is not the derived one, or holds another asset or authority.
    MalformedAccount,
    /// A deposit of zero.
    InvalidAmount,
    /// The source of a transfer holds less than the amount.
    InsufficientFunds,
    /// The destination of a transfer would exceed the largest balance.
    BalanceOverflow,
}

} // verus!
