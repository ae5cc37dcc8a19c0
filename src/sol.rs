use vstd::prelude::*;
use crate::address::{
    Address, ProgramAddress, SeedTag, native_tag, derived, as_program_address, matches_derived,
    bump_of, derive_address, is_derived, is_derived_with_bump,
};
use crate::state::{TimelockAccount, SystemAccount, ErrorCode};

verus! {

/// The accounts of a native-coin deposit, as the request presents them.
#[derive(Clone, Copy)]
pub struct InitializeSolLock {
    pub owner: SystemAccount,
    /// Whether the owner signed the request.
    pub owner_signed: bool,
    pub timelock_key: Address,
    pub timelock: TimelockAccount,
    pub vault: SystemAccount,
}

/// The accounts of a native-coin withdrawal, as the request presents them.
#[derive(Clone, Copy)]
pub struct WithdrawSol {
    pub owner: SystemAccount,
    pub owner_signed: bool,
    pub timelock_key: Address,
    pub timelock: TimelockAccount,
    pub vault: SystemAccount,
}

pub open spec fn result_of(e: Option<ErrorCode>) -> Result<(), ErrorCode> {
    match e {
        Some(e) => Err(e),
        None => Ok(()),
    }
}

/// The first check that a native deposit fails, given the derived record and vault.
pub open spec fn sol_lock_error(
    ctx: InitializeSolLock,
    timelock_pda: Option<(Seq<u8>, u8)>,
    vault_pda: Option<(Seq<u8>, u8)>,
    amount: u64,
    unlock_timestamp: i64,
    now: i64,
) -> Option<ErrorCode> {
    if !ctx.owner_signed {
        Some(ErrorCode::Unauthorized)
    } else if !matches_derived(ctx.timelock_key, timelock_pda) {
        Some(ErrorCode::MalformedAccount)
    } else if !matches_derived(ctx.vault.key, vault_pda) {
        Some(ErrorCode::MalformedAccount)
    } else if ctx.timelock.is_initialized || ctx.vault.lamports != 0 {
        Some(ErrorCode::AccountAlreadyInitialized)
    } else if amount == 0 {
        Some(ErrorCode::InvalidAmount)
    } else if unlock_timestamp <= now {
        Some(ErrorCode::TimeNotExpired)
    } else if ctx.owner.lamports < amount {
        Some(ErrorCode::InsufficientFunds)
    } else {
        None
    }
}

/// The state after a native deposit: the record holds the lock's terms, and `amount` has
/// moved from the owner to the vault. Nothing else changed.
pub open spec fn sol_locked(
    pre: InitializeSolLock,
    post: InitializeSolLock,
    timelock_pda: Option<(Seq<u8>, u8)>,
    vault_pda: Option<(Seq<u8>, u8)>,
    amount: u64,
    unlock_timestamp: i64,
    now: i64,
) -> bool {
    &&& post.owner_signed == pre.owner_signed
    &&& post.timelock_key == pre.timelock_key
    &&& post.owner.key == pre.owner.key
    &&& post.owner.lamports == pre.owner.lamports - amount
    &&& post.vault.key == pre.vault.key
    &&& post.vault.lamports == pre.vault.lamports + amount
    &&& post.timelock.owner@ == pre.owner.key@
    &&& post.timelock.token_mint@ == native_tag()
    &&& post.timelock.vault@ == pre.vault.key@
    &&& post.timelock.amount == amount
    &&& post.timelock.unlock_timestamp == unlock_timestamp
    &&& post.timelock.created_timestamp == now
    &&& post.timelock.is_initialized
    &&& post.timelock.timelock_bump == bump_of(timelock_pda)
    &&& post.timelock.vault_bump == bump_of(vault_pda)
    &&& post.timelock.vault_token_bump == pre.timelock.vault_token_bump
}

/// Checks a native deposit against the derived record and vault and, where every check
/// passes, records the lock and moves `amount` into the vault. A failed deposit changes
/// nothing.
pub fn lock_sol(
    ctx: &mut InitializeSolLock,
    timelock_pda: Option<ProgramAddress>,
    vault_pda: Option<ProgramAddress>,
    amount: u64,
    unlock_timestamp: i64,
    now: i64,
) -> (r: Result<(), ErrorCode>)
    ensures
        r == result_of(
            sol_lock_error(
                *old(ctx),
                as_program_address(timelock_pda),
                as_program_address(vault_pda),
                amount,
                unlock_timestamp,
                now,
            ),
        ),
        r is Ok ==> sol_locked(
            *old(ctx),
            *final(ctx),
            as_program_address(timelock_pda),
            as_program_address(vault_pda),
            amount,
            unlock_timestamp,
            now,
        ),
        r is Err ==> *final(ctx) == *old(ctx),
{
    if !ctx.owner_signed {
        return Err(ErrorCode::Unauthorized);
    }
    if !is_derived(&ctx.timelock_key, &timelock_pda) {
        return Err(ErrorCode::MalformedAccount);
    }
    if !is_derived(&ctx.vault.key, &vault_pda) {
        return Err(ErrorCode::MalformedAccount);
    }
    if ctx.timelock.is_initialized || ctx.vault.lamports != 0 {
        return Err(ErrorCode::AccountAlreadyInitialized);
    }
    if amount == 0 {
        return Err(ErrorCode::InvalidAmount);
    }
    if unlock_timestamp <= now {
        return Err(ErrorCode::TimeNotExpired);
    }
    if ctx.owner.lamports < amount {
        return Err(ErrorCode::InsufficientFunds);
    }
    let timelock_bump = match timelock_pda {
        Some(p) => p.bump,
        None => 0,
    };
    let vault_bump = match vault_pda {
        Some(p) => p.bump,
        None => 0,
    };
    ctx.timelock.owner = ctx.owner.key;
    ctx.timelock.token_mint = Address::native();
    ctx.timelock.vault = ctx.vault.key;
    ctx.timelock.amount = amount;
    ctx.timelock.unlock_timestamp = unlock_timestamp;
    ctx.timelock.created_timestamp = now;
    ctx.timelock.is_initialized = true;
    ctx.timelock.timelock_bump = timelock_bump;
    ctx.timelock.vault_bump = vault_bump;
    ctx.owner.lamports = ctx.owner.lamports - amount;
    ctx.vault.lamports = amount;
    Ok(())
}

/// Deposits `amount` of the native coin until `unlock_timestamp`, at time `now`. The record
/// must sit at the address derived from "timelock_sol" and the owner, the vault at the one
/// derived from "vault" and the record's address.
pub fn initialize_sol_lock(
    ctx: &mut InitializeSolLock,
    program_id: &Address,
    amount: u64,
    unlock_timestamp: i64,
    now: i64,
) -> (r: Result<(), ErrorCode>)
    ensures
        r == result_of(
            sol_lock_error(
                *old(ctx),
                derived(SeedTag::TimelockSol, old(ctx).owner.key, *program_id),
                derived(SeedTag::Vault, old(ctx).timelock_key, *program_id),
                amount,
                unlock_timestamp,
                now,
            ),
        ),
        r is Ok ==> sol_locked(
            *old(ctx),
            *final(ctx),
            derived(SeedTag::TimelockSol, old(ctx).owner.key, *program_id),
            derived(SeedTag::Vault, old(ctx).timelock_key, *program_id),
            amount,
            unlock_timestamp,
            now,
        ),
        r is Err ==> *final(ctx) == *old(ctx),
{
    let timelock_pda = derive_address(SeedTag::TimelockSol, &ctx.owner.key, program_id);
    let vault_pda = derive_address(SeedTag::Vault, &ctx.timelock_key, program_id);
    lock_sol(ctx, timelock_pda, vault_pda, amount, unlock_timestamp, now)
}

/// The first check that a native withdrawal fails, given the derived record and vault.
pub open spec fn sol_withdraw_error(
    ctx: WithdrawSol,
    timelock_pda: Option<(Seq<u8>, u8)>,
    vault_pda: Option<(Seq<u8>, u8)>,
    now: i64,
) -> Option<ErrorCode> {
    if !ctx.owner_signed || !ctx.timelock.is_initialized || ctx.timelock.owner@
        != ctx.owner.key@ {
        Some(ErrorCode::Unauthorized)
    } else if !matches_derived(ctx.timelock_key, timelock_pda) || bump_of(timelock_pda)
        != ctx.timelock.timelock_bump {
        Some(ErrorCode::Unauthorized)
    } else if now < ctx.timelock.unlock_timestamp {
        Some(ErrorCode::TimeNotExpired)
    } else if ctx.timelock.token_mint@ != native_tag() || ctx.timelock.vault@ != ctx.vault.key@
        || !matches_derived(ctx.vault.key, vault_pda) || bump_of(vault_pda)
        != ctx.timelock.vault_bump {
        Some(ErrorCode::MalformedAccount)
    } else if ctx.vault.lamports < ctx.timelock.amount {
        Some(ErrorCode::InsufficientFunds)
    } else if ctx.owner.lamports + ctx.timelock.amount > u64::MAX {
        Some(ErrorCode::BalanceOverflow)
    } else {
        None
    }
}

/// The state after a native withdrawal: the record's whole amount has moved from the vault
/// to the owner; the record itself is unchanged.
pub open spec fn sol_withdrawn(pre: WithdrawSol) -> WithdrawSol {
    WithdrawSol {
        owner: SystemAccount {
            lamports: (pre.owner.lamports + pre.timelock.amount) as u64,
            ..pre.owner
        },
        vault: SystemAccount { lamports: (pre.vault.lamports - pre.timelock.amount) as u64, ..pre.vault },
        ..pre
    }
}

/// Checks a native withdrawal against the derived record and vault and, where every check
/// passes, moves the record's amount from the vault to the owner. A failed withdrawal
/// changes nothing.
pub fn release_sol(
    ctx: &mut WithdrawSol,
    timelock_pda: Option<ProgramAddress>,
    vault_pda: Option<ProgramAddress>,
    now: i64,
) -> (r: Result<(), ErrorCode>)
    ensures
        r == result_of(
            sol_withdraw_error(
                *old(ctx),
                as_program_address(timelock_pda),
                as_program_address(vault_pda),
                now,
            ),
        ),
        r is Ok ==> *final(ctx) == sol_withdrawn(*old(ctx)),
        r is Err ==> *final(ctx) == *old(ctx),
{
    if !ctx.owner_signed || !ctx.timelock.is_initialized || !ctx.timelock.owner.equals(
        &ctx.owner.key,
    ) {
        return Err(ErrorCode::Unauthorized);
    }
    if !is_derived_with_bump(&ctx.timelock_key, &timelock_pda, ctx.timelock.timelock_bump) {
        return Err(ErrorCode::Unauthorized);
    }
    if now < ctx.timelock.unlock_timestamp {
        return Err(ErrorCode::TimeNotExpired);
    }
    let native = Address::native();
    if !ctx.timelock.token_mint.equals(&native) || !ctx.timelock.vault.equals(&ctx.vault.key)
        || !is_derived_with_bump(&ctx.vault.key, &vault_pda, ctx.timelock.vault_bump) {
        return Err(ErrorCode::MalformedAccount);
    }
    let amount = ctx.timelock.amount;
    if ctx.vault.lamports < amount {
        return Err(ErrorCode::InsufficientFunds);
    }
    if ctx.owner.lamports > u64::MAX - amount {
        return Err(ErrorCode::BalanceOverflow);
    }
    ctx.vault.lamports = ctx.vault.lamports - amount;
    ctx.owner.lamports = ctx.owner.lamports + amount;
    Ok(())
}

/// Withdraws the whole locked amount of the native coin to its owner, at time `now`.
pub fn withdraw_sol(ctx: &mut WithdrawSol, program_id: &Address, now: i64) -> (r: Result<(), ErrorCode>)
    ensures
        r == result_of(
            sol_withdraw_error(
                *old(ctx),
                derived(SeedTag::TimelockSol, old(ctx).owner.key, *program_id),
                derived(SeedTag::Vault, old(ctx).timelock_key, *program_id),
                now,
            ),
        ),
        r is Ok ==> *final(ctx) == sol_withdrawn(*old(ctx)),
        r is Err ==> *final(ctx) == *old(ctx),
{
    let timelock_pda = derive_address(SeedTag::TimelockSol, &ctx.owner.key, program_id);
    let vault_pda = derive_address(SeedTag::Vault, &ctx.timelock_key, program_id);
    release_sol(ctx, timelock_pda, vault_pda, now)
}

} // verus!
