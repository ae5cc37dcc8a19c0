use vstd::prelude::*;
use crate::address::{
    Address, ProgramAddress, SeedTag, native_tag, derived, as_program_address, matches_derived,
    bump_of, derive_address, is_derived, is_derived_with_bump,
};
use crate::state::{TimelockAccount, TokenAccount, ErrorCode};
use crate::sol::result_of;

verus! {

/// The accounts of a token deposit, as the request presents them.
#[derive(Clone, Copy)]
pub struct InitializeSpLock {
    pub owner: Address,
    /// Whether the owner signed the request.
    pub owner_signed: bool,
    pub token_mint: Address,
    pub owner_token_account: TokenAccount,
    pub timelock_key: Address,
    pub timelock: TimelockAccount,
    /// The derived authority of the vault token account.
    pub vault: Address,
    pub vault_token_account: TokenAccount,
}

/// The accounts of a token withdrawal, as the request presents them.
#[derive(Clone, Copy)]
pub struct WithdrawSpl {
    pub owner: Address,
    pub owner_signed: bool,
    pub timelock_key: Address,
    pub timelock: TimelockAccount,
    pub owner_token_account: TokenAccount,
    pub vault: Address,
    pub vault_token_account: TokenAccount,
}

/// The first check that a token deposit fails, given the derived record, vault and vault
/// token account.
pub open spec fn spl_lock_error(
    ctx: InitializeSpLock,
    timelock_pda: Option<(Seq<u8>, u8)>,
    vault_pda: Option<(Seq<u8>, u8)>,
    vault_token_pda: Option<(Seq<u8>, u8)>,
    amount: u64,
    unlock_timestamp: i64,
    now: i64,
) -> Option<ErrorCode> {
    if !ctx.owner_signed {
        Some(ErrorCode::Unauthorized)
    } else if ctx.token_mint@ == native_tag() || ctx.owner_token_account.mint@ != ctx.token_mint@
        || ctx.owner_token_account.authority@ != ctx.owner@ {
        Some(ErrorCode::MalformedAccount)
    } else if !matches_derived(ctx.timelock_key, timelock_pda) || !matches_derived(
        ctx.vault,
        vault_pda,
    ) {
        Some(ErrorCode::MalformedAccount)
    } else if !matches_derived(ctx.vault_token_account.key, vault_token_pda)
        || ctx.vault_token_account.mint@ != ctx.token_mint@
        || ctx.vault_token_account.authority@ != ctx.vault@ {
        Some(ErrorCode::MalformedAccount)
    } else if ctx.timelock.is_initialized || ctx.vault_token_account.amount != 0 {
        Some(ErrorCode::AccountAlreadyInitialized)
    } else if amount == 0 {
        Some(ErrorCode::InvalidAmount)
    } else if unlock_timestamp <= now {
        Some(ErrorCode::TimeNotExpired)
    } else if ctx.owner_token_account.amount < amount {
        Some(ErrorCode::InsufficientFunds)
    } else {
        None
    }
}

/// The state after a token deposit: the record holds the lock's terms, and `amount` units
/// have moved from the owner's token account to the vault token account.
pub open spec fn spl_locked(
    pre: InitializeSpLock,
    post: InitializeSpLock,
    timelock_pda: Option<(Seq<u8>, u8)>,
    vault_pda: Option<(Seq<u8>, u8)>,
    vault_token_pda: Option<(Seq<u8>, u8)>,
    amount: u64,
    unlock_timestamp: i64,
    now: i64,
) -> bool {
    &&& post.owner == pre.owner
    &&& post.owner_signed == pre.owner_signed
    &&& post.token_mint == pre.token_mint
    &&& post.timelock_key == pre.timelock_key
    &&& post.vault == pre.vault
    &&& post.owner_token_account == (TokenAccount {
        amount: (pre.owner_token_account.amount - amount) as u64,
        ..pre.owner_token_account
    })
    &&& post.vault_token_account == (TokenAccount {
        amount: (pre.vault_token_account.amount + amount) as u64,
        ..pre.vault_token_account
    })
    &&& post.timelock.owner@ == pre.owner@
    &&& post.timelock.token_mint@ == pre.token_mint@
    &&& post.timelock.vault@ == pre.vault@
    &&& post.timelock.amount == amount
    &&& post.timelock.unlock_timestamp == unlock_timestamp
    &&& post.timelock.created_timestamp == now
    &&& post.timelock.is_initialized
    &&& post.timelock.timelock_bump == bump_of(timelock_pda)
    &&& post.timelock.vault_bump == bump_of(vault_pda)
    &&& post.timelock.vault_token_bump == bump_of(vault_token_pda)
}

/// Checks a token deposit against the derived accounts and, where every check passes,
/// records the lock and moves `amount` units into the vault token account. A failed deposit
/// changes nothing.
pub fn lock_spl(
    ctx: &mut InitializeSpLock,
    timelock_pda: Option<ProgramAddress>,
    vault_pda: Option<ProgramAddress>,
    vault_token_pda: Option<ProgramAddress>,
    amount: u64,
    unlock_timestamp: i64,
    now: i64,
) -> (r: Result<(), ErrorCode>)
    ensures
        r == result_of(
            spl_lock_error(
                *old(ctx),
                as_program_address(timelock_pda),
                as_program_address(vault_pda),
                as_program_address(vault_token_pda),
                amount,
                unlock_timestamp,
                now,
            ),
        ),
        r is Ok ==> spl_locked(
            *old(ctx),
            *final(ctx),
            as_program_address(timelock_pda),
            as_program_address(vault_pda),
            as_program_address(vault_token_pda),
            amount,
            unlock_timestamp,
            now,
        ),
        r is Err ==> *final(ctx) == *old(ctx),
{
    if !ctx.owner_signed {
        return Err(ErrorCode::Unauthorized);
    }
    let native = Address::native();
    if ctx.token_mint.equals(&native) || !ctx.owner_token_account.mint.equals(&ctx.token_mint)
        || !ctx.owner_token_account.authority.equals(&ctx.owner) {
        return Err(ErrorCode::MalformedAccount);
    }
    if !is_derived(&ctx.timelock_key, &timelock_pda) || !is_derived(&ctx.vault, &vault_pda) {
        return Err(ErrorCode::MalformedAccount);
    }
    if !is_derived(&ctx.vault_token_account.key, &vault_token_pda)
        || !ctx.vault_token_account.mint.equals(&ctx.token_mint)
        || !ctx.vault_token_account.authority.equals(&ctx.vault) {
        return Err(ErrorCode::MalformedAccount);
    }
    if ctx.timelock.is_initialized || ctx.vault_token_account.amount != 0 {
        return Err(ErrorCode::AccountAlreadyInitialized);
    }
    if amount == 0 {
        return Err(ErrorCode::InvalidAmount);
    }
    if unlock_timestamp <= now {
        return Err(ErrorCode::TimeNotExpired);
    }
    if ctx.owner_token_account.amount < amount {
        return Err(ErrorCode::InsufficientFunds);
    }
    let timelock_bump = match timelock_pda {
        Some(p) => p.bump,
        None => 0,
    };
    let vault_bump = match vault_pda {
        Some(p) => p.bump,
        None => 0,
    };
    let vault_token_bump = match vault_token_pda {
        Some(p) => p.bump,
        None => 0,
    };
    ctx.timelock.owner = ctx.owner;
    ctx.timelock.token_mint = ctx.token_mint;
    ctx.timelock.vault = ctx.vault;
    ctx.timelock.amount = amount;
    ctx.timelock.unlock_timestamp = unlock_timestamp;
    ctx.timelock.created_timestamp = now;
    ctx.timelock.is_initialized = true;
    ctx.timelock.timelock_bump = timelock_bump;
    ctx.timelock.vault_bump = vault_bump;
    ctx.timelock.vault_token_bump = vault_token_bump;
    ctx.owner_token_account.amount = ctx.owner_token_account.amount - amount;
    ctx.vault_token_account.amount = amount;
    Ok(())
}

/// Deposits `amount` units of `token_mint` until `unlock_timestamp`, at time `now`. The record
/// must sit at the address derived from "timelock_spl" and the owner; the vault and the vault
/// token account at those derived from "vault" and "vault_token_account" and the record's
/// address.
pub fn initialize_spl_lock(
    ctx: &mut InitializeSpLock,
    program_id: &Address,
    amount: u64,
    unlock_timestamp: i64,
    now: i64,
) -> (r: Result<(), ErrorCode>)
    ensures
        r == result_of(
            spl_lock_error(
                *old(ctx),
                derived(SeedTag::TimelockSpl, old(ctx).owner, *program_id),
                derived(SeedTag::Vault, old(ctx).timelock_key, *program_id),
                derived(SeedTag::VaultTokenAccount, old(ctx).timelock_key, *program_id),
                amount,
                unlock_timestamp,
                now,
            ),
        ),
        r is Ok ==> spl_locked(
            *old(ctx),
            *final(ctx),
            derived(SeedTag::TimelockSpl, old(ctx).owner, *program_id),
            derived(SeedTag::Vault, old(ctx).timelock_key, *program_id),
            derived(SeedTag::VaultTokenAccount, old(ctx).timelock_key, *program_id),
            amount,
            unlock_timestamp,
            now,
        ),
        r is Err ==> *final(ctx) == *old(ctx),
{
    let timelock_pda = derive_address(SeedTag::TimelockSpl, &ctx.owner, program_id);
    let vault_pda = derive_address(SeedTag::Vault, &ctx.timelock_key, program_id);
    let vault_token_pda = derive_address(SeedTag::VaultTokenAccount, &ctx.timelock_key, program_id);
    lock_spl(ctx, timelock_pda, vault_pda, vault_token_pda, amount, unlock_timestamp, now)
}

/// The first check that a token withdrawal fails, given the derived record, vault and vault
/// token account.
pub open spec fn spl_withdraw_error(
    ctx: WithdrawSpl,
    timelock_pda: Option<(Seq<u8>, u8)>,
    vault_pda: Option<(Seq<u8>, u8)>,
    vault_token_pda: Option<(Seq<u8>, u8)>,
    now: i64,
) -> Option<ErrorCode> {
    if !ctx.owner_signed || !ctx.timelock.is_initialized || ctx.timelock.owner@ != ctx.owner@ {
        Some(ErrorCode::Unauthorized)
    } else if !matches_derived(ctx.timelock_key, timelock_pda) || bump_of(timelock_pda)
        != ctx.timelock.timelock_bump {
        Some(ErrorCode::Unauthorized)
    } else if now < ctx.timelock.unlock_timestamp {
        Some(ErrorCode::TimeNotExpired)
    } else if ctx.timelock.vault@ != ctx.vault@ || !matches_derived(ctx.vault, vault_pda)
        || bump_of(vault_pda) != ctx.timelock.vault_bump {
        Some(ErrorCode::MalformedAccount)
    } else if !matches_derived(ctx.vault_token_account.key, vault_token_pda) || bump_of(
        vault_token_pda,
    ) != ctx.timelock.vault_token_bump || ctx.vault_token_account.mint@
        != ctx.timelock.token_mint@ || ctx.vault_token_account.authority@ != ctx.vault@ {
        Some(ErrorCode::MalformedAccount)
    } else if ctx.owner_token_account.mint@ != ctx.timelock.token_mint@
        || ctx.owner_token_account.authority@ != ctx.owner@ {
        Some(ErrorCode::MalformedAccount)
    } else if ctx.vault_token_account.amount < ctx.timelock.amount {
        Some(ErrorCode::InsufficientFunds)
    } else if ctx.owner_token_account.amount + ctx.timelock.amount > u64::MAX {
        Some(ErrorCode::BalanceOverflow)
    } else {
        None
    }
}

/// The state after a token withdrawal: the record's whole amount has moved from the vault
/// token account to the owner's; the record itself is unchanged.
pub open spec fn spl_withdrawn(pre: WithdrawSpl) -> WithdrawSpl {
    WithdrawSpl {
        owner_token_account: TokenAccount {
            amount: (pre.owner_token_account.amount + pre.timelock.amount) as u64,
            ..pre.owner_token_account
        },
        vault_token_account: TokenAccount {
            amount: (pre.vault_token_account.amount - pre.timelock.amount) as u64,
            ..pre.vault_token_account
        },
        ..pre
    }
}

/// Checks a token withdrawal against the derived accounts and, where every check passes,
/// moves the record's amount from the vault token account to the owner's. A failed
/// withdrawal changes nothing.
pub fn release_spl(
    ctx: &mut WithdrawSpl,
    timelock_pda: Option<ProgramAddress>,
    vault_pda: Option<ProgramAddress>,
    vault_token_pda: Option<ProgramAddress>,
    now: i64,
) -> (r: Result<(), ErrorCode>)
    ensures
        r == result_of(
            spl_withdraw_error(
                *old(ctx),
                as_program_address(timelock_pda),
                as_program_address(vault_pda),
                as_program_address(vault_token_pda),
                now,
            ),
        ),
        r is Ok ==> *final(ctx) == spl_withdrawn(*old(ctx)),
        r is Err ==> *final(ctx) == *old(ctx),
{
    if !ctx.owner_signed || !ctx.timelock.is_initialized || !ctx.timelock.owner.equals(&ctx.owner) {
        return Err(ErrorCode::Unauthorized);
    }
    if !is_derived_with_bump(&ctx.timelock_key, &timelock_pda, ctx.timelock.timelock_bump) {
        return Err(ErrorCode::Unauthorized);
    }
    if now < ctx.timelock.unlock_timestamp {
        return Err(ErrorCode::TimeNotExpired);
    }
    if !ctx.timelock.vault.equals(&ctx.vault) || !is_derived_with_bump(
        &ctx.vault,
        &vault_pda,
        ctx.timelock.vault_bump,
    ) {
        return Err(ErrorCode::MalformedAccount);
    }
    if !is_derived_with_bump(
        &ctx.vault_token_account.key,
        &vault_token_pda,
        ctx.timelock.vault_token_bump,
    ) || !ctx.vault_token_account.mint.equals(&ctx.timelock.token_mint)
        || !ctx.vault_token_account.authority.equals(&ctx.vault) {
        return Err(ErrorCode::MalformedAccount);
    }
    if !ctx.owner_token_account.mint.equals(&ctx.timelock.token_mint)
        || !ctx.owner_token_account.authority.equals(&ctx.owner) {
        return Err(ErrorCode::MalformedAccount);
    }
    let amount = ctx.timelock.amount;
    if ctx.vault_token_account.amount < amount {
        return Err(ErrorCode::InsufficientFunds);
    }
    if ctx.owner_token_account.amount > u64::MAX - amount {
        return Err(ErrorCode::BalanceOverflow);
    }
    ctx.vault_token_account.amount = ctx.vault_token_account.amount - amount;
    ctx.owner_token_account.amount = ctx.owner_token_account.amount + amount;
    Ok(())
}

/// Withdraws the whole locked amount of a token to its owner's token account, at time `now`.
pub fn withdraw_spl(ctx: &mut WithdrawSpl, program_id: &Address, now: i64) -> (r: Result<(), ErrorCode>)
    ensures
        r == result_of(
            spl_withdraw_error(
                *old(ctx),
                derived(SeedTag::TimelockSpl, old(ctx).owner, *program_id),
                derived(SeedTag::Vault, old(ctx).timelock_key, *program_id),
                derived(SeedTag::VaultTokenAccount, old(ctx).timelock_key, *program_id),
                now,
            ),
        ),
        r is Ok ==> *final(ctx) == spl_withdrawn(*old(ctx)),
        r is Err ==> *final(ctx) == *old(ctx),
{
    let timelock_pda = derive_address(SeedTag::TimelockSpl, &ctx.owner, program_id);
    let vault_pda = derive_address(SeedTag::Vault, &ctx.timelock_key, program_id);
    let vault_token_pda = derive_address(SeedTag::VaultTokenAccount, &ctx.timelock_key, program_id);
    release_spl(ctx, timelock_pda, vault_pda, vault_token_pda, now)
}

} // verus!
