use vstd::prelude::*;
use crate::address::{matches_derived, bump_of};
use crate::state::ErrorCode;
use crate::sol::{
    InitializeSolLock, WithdrawSol, sol_lock_error, sol_locked, sol_withdraw_error, sol_withdrawn,
};
use crate::spl::{
    InitializeSpLock, WithdrawSpl, spl_lock_error, spl_locked, spl_withdraw_error, spl_withdrawn,
};

verus! {

/// One native deposit as a transition: from `pre` to `post` with result `r`.
pub open spec fn sol_lock_step(
    pre: InitializeSolLock,
    post: InitializeSolLock,
    r: Result<(), ErrorCode>,
    timelock_pda: Option<(Seq<u8>, u8)>,
    vault_pda: Option<(Seq<u8>, u8)>,
    amount: u64,
    unlock_timestamp: i64,
    now: i64,
) -> bool {
    match sol_lock_error(pre, timelock_pda, vault_pda, amount, unlock_timestamp, now) {
        Some(e) => r == Err::<(), ErrorCode>(e) && post == pre,
        None => r is Ok && sol_locked(
            pre,
            post,
            timelock_pda,
            vault_pda,
            amount,
            unlock_timestamp,
            now,
        ),
    }
}

/// One native withdrawal as a transition: from `pre` to `post` with result `r`.
pub open spec fn sol_withdraw_step(
    pre: WithdrawSol,
    post: WithdrawSol,
    r: Result<(), ErrorCode>,
    timelock_pda: Option<(Seq<u8>, u8)>,
    vault_pda: Option<(Seq<u8>, u8)>,
    now: i64,
) -> bool {
    match sol_withdraw_error(pre, timelock_pda, vault_pda, now) {
        Some(e) => r == Err::<(), ErrorCode>(e) && post == pre,
        None => r is Ok && post == sol_withdrawn(pre),
    }
}

/// One token deposit as a transition: from `pre` to `post` with result `r`.
pub open spec fn spl_lock_step(
    pre: InitializeSpLock,
    post: InitializeSpLock,
    r: Result<(), ErrorCode>,
    timelock_pda: Option<(Seq<u8>, u8)>,
    vault_pda: Option<(Seq<u8>, u8)>,
    vault_token_pda: Option<(Seq<u8>, u8)>,
    amount: u64,
    unlock_timestamp: i64,
    now: i64,
) -> bool {
    match spl_lock_error(
        pre,
        timelock_pda,
        vault_pda,
        vault_token_pda,
        amount,
        unlock_timestamp,
        now,
    ) {
        Some(e) => r == Err::<(), ErrorCode>(e) && post == pre,
        None => r is Ok && spl_locked(
            pre,
            post,
            timelock_pda,
            vault_pda,
            vault_token_pda,
            amount,
            unlock_timestamp,
            now,
        ),
    }
}

/// One token withdrawal as a transition: from `pre` to `post` with result `r`.
pub open spec fn spl_withdraw_step(
    pre: WithdrawSpl,
    post: WithdrawSpl,
    r: Result<(), ErrorCode>,
    timelock_pda: Option<(Seq<u8>, u8)>,
    vault_pda: Option<(Seq<u8>, u8)>,
    vault_token_pda: Option<(Seq<u8>, u8)>,
    now: i64,
) -> bool {
    match spl_withdraw_error(pre, timelock_pda, vault_pda, vault_token_pda, now) {
        Some(e) => r == Err::<(), ErrorCode>(e) && post == pre,
        None => r is Ok && post == spl_withdrawn(pre),
    }
}

/// After a native deposit of `amount` succeeds, the vault holds exactly `amount`, the
/// record is initialized and records `amount`.
pub proof fn lemma_sol_deposit_establishes_lock(
    pre: InitializeSolLock,
    post: InitializeSolLock,
    timelock_pda: Option<(Seq<u8>, u8)>,
    vault_pda: Option<(Seq<u8>, u8)>,
    amount: u64,
    unlock_timestamp: i64,
    now: i64,
)
    requires
        sol_lock_error(pre, timelock_pda, vault_pda, amount, unlock_timestamp, now) is None,
        sol_locked(pre, post, timelock_pda, vault_pda, amount, unlock_timestamp, now),
    ensures
        post.vault.lamports == amount,
        post.timelock.is_initialized,
        post.timelock.amount == amount,
{
}

/// After a token deposit of `amount` succeeds, the vault token account holds exactly
/// `amount`, the record is initialized and records `amount`.
pub proof fn lemma_spl_deposit_establishes_lock(
    pre: InitializeSpLock,
    post: InitializeSpLock,
    timelock_pda: Option<(Seq<u8>, u8)>,
    vault_pda: Option<(Seq<u8>, u8)>,
    vault_token_pda: Option<(Seq<u8>, u8)>,
    amount: u64,
    unlock_timestamp: i64,
    now: i64,
)
    requires
        spl_lock_error(
            pre,
            timelock_pda,
            vault_pda,
            vault_token_pda,
            amount,
            unlock_timestamp,
            now,
        ) is None,
        spl_locked(
            pre,
            post,
            timelock_pda,
            vault_pda,
            vault_token_pda,
            amount,
            unlock_timestamp,
            now,
        ),
    ensures
        post.vault_token_account.amount == amount,
        post.timelock.is_initialized,
        post.timelock.amount == amount,
{
}

/// A withdrawal, native or token, leaves the lock record as it was: the locked amount
/// never changes after the deposit.
pub proof fn lemma_withdrawal_keeps_record(sol: WithdrawSol, spl: WithdrawSpl)
    ensures
        sol_withdrawn(sol).timelock == sol.timelock,
        spl_withdrawn(spl).timelock == spl.timelock,
{
}

/// A second native deposit on the same owner's record, after one succeeded, fails with
/// `AccountAlreadyInitialized`, whatever its amount, unlock time or clock.
pub proof fn lemma_sol_second_deposit_refused(
    pre: InitializeSolLock,
    post: InitializeSolLock,
    timelock_pda: Option<(Seq<u8>, u8)>,
    vault_pda: Option<(Seq<u8>, u8)>,
    amount: u64,
    unlock_timestamp: i64,
    now: i64,
    amount2: u64,
    unlock_timestamp2: i64,
    now2: i64,
)
    requires
        sol_lock_error(pre, timelock_pda, vault_pda, amount, unlock_timestamp, now) is None,
        sol_locked(pre, post, timelock_pda, vault_pda, amount, unlock_timestamp, now),
    ensures
        sol_lock_error(post, timelock_pda, vault_pda, amount2, unlock_timestamp2, now2) == Some(
            ErrorCode::AccountAlreadyInitialized,
        ),
{
}

/// A second token deposit on the same owner's record, after one succeeded, fails with
/// `AccountAlreadyInitialized`, whatever its amount, unlock time or clock.
pub proof fn lemma_spl_second_deposit_refused(
    pre: InitializeSpLock,
    post: InitializeSpLock,
    timelock_pda: Option<(Seq<u8>, u8)>,
    vault_pda: Option<(Seq<u8>, u8)>,
    vault_token_pda: Option<(Seq<u8>, u8)>,
    amount: u64,
    unlock_timestamp: i64,
    now: i64,
    amount2: u64,
    unlock_timestamp2: i64,
    now2: i64,
)
    requires
        spl_lock_error(
            pre,
            timelock_pda,
            vault_pda,
            vault_token_pda,
            amount,
            unlock_timestamp,
            now,
        ) is None,
        spl_locked(
            pre,
            post,
            timelock_pda,
            vault_pda,
            vault_token_pda,
            amount,
            unlock_timestamp,
            now,
        ),
    ensures
        spl_lock_error(
            post,
            timelock_pda,
            vault_pda,
            vault_token_pda,
            amount2,
            unlock_timestamp2,
            now2,
        ) == Some(ErrorCode::AccountAlreadyInitialized),
{
}

/// A native withdrawal by the record's owner, on the owner's record, before the unlock time
/// fails with `TimeNotExpired`.
pub proof fn lemma_sol_early_withdrawal_refused(
    ctx: WithdrawSol,
    timelock_pda: Option<(Seq<u8>, u8)>,
    vault_pda: Option<(Seq<u8>, u8)>,
    now: i64,
)
    requires
        now < ctx.timelock.unlock_timestamp,
        ctx.owner_signed,
        ctx.timelock.is_initialized,
        ctx.timelock.owner@ == ctx.owner.key@,
        matches_derived(ctx.timelock_key, timelock_pda),
        bump_of(timelock_pda) == ctx.timelock.timelock_bump,
    ensures
        sol_withdraw_error(ctx, timelock_pda, vault_pda, now) == Some(ErrorCode::TimeNotExpired),
{
}

/// A token withdrawal by the record's owner, on the owner's record, before the unlock time
/// fails with `TimeNotExpired`.
pub proof fn lemma_spl_early_withdrawal_refused(
    ctx: WithdrawSpl,
    timelock_pda: Option<(Seq<u8>, u8)>,
    vault_pda: Option<(Seq<u8>, u8)>,
    vault_token_pda: Option<(Seq<u8>, u8)>,
    now: i64,
)
    requires
        now < ctx.timelock.unlock_timestamp,
        ctx.owner_signed,
        ctx.timelock.is_initialized,
        ctx.timelock.owner@ == ctx.owner@,
        matches_derived(ctx.timelock_key, timelock_pda),
        bump_of(timelock_pda) == ctx.timelock.timelock_bump,
    ensures
        spl_withdraw_error(ctx, timelock_pda, vault_pda, vault_token_pda, now) == Some(
            ErrorCode::TimeNotExpired,
        ),
{
}

/// Any withdrawal before the unlock time fails, native or token, whoever asks: no balance
/// moves early.
pub proof fn lemma_no_early_release(
    sol: WithdrawSol,
    spl: WithdrawSpl,
    timelock_pda: Option<(Seq<u8>, u8)>,
    vault_pda: Option<(Seq<u8>, u8)>,
    vault_token_pda: Option<(Seq<u8>, u8)>,
    now: i64,
)
    ensures
        now < sol.timelock.unlock_timestamp ==> sol_withdraw_error(
            sol,
            timelock_pda,
            vault_pda,
            now,
        ) is Some,
        now < spl.timelock.unlock_timestamp ==> spl_withdraw_error(
            spl,
            timelock_pda,
            vault_pda,
            vault_token_pda,
            now,
        ) is Some,
{
}

/// A withdrawal, native or token, by a signer other than the record's owner fails with
/// `Unauthorized`, at any time.
pub proof fn lemma_stranger_withdrawal_refused(
    sol: WithdrawSol,
    spl: WithdrawSpl,
    timelock_pda: Option<(Seq<u8>, u8)>,
    vault_pda: Option<(Seq<u8>, u8)>,
    vault_token_pda: Option<(Seq<u8>, u8)>,
    now: i64,
)
    ensures
        sol.timelock.owner@ != sol.owner.key@ ==> sol_withdraw_error(
            sol,
            timelock_pda,
            vault_pda,
            now,
        ) == Some(ErrorCode::Unauthorized),
        spl.timelock.owner@ != spl.owner@ ==> spl_withdraw_error(
            spl,
            timelock_pda,
            vault_pda,
            vault_token_pda,
            now,
        ) == Some(ErrorCode::Unauthorized),
{
}

/// A native deposit followed, at or after its unlock time, by the owner's withdrawal on the
/// accounts it left: the withdrawal succeeds, the owner gets back exactly `amount`, and the
/// vault returns to its balance before the deposit.
pub proof fn lemma_sol_round_trip(
    pre: InitializeSolLock,
    locked: InitializeSolLock,
    timelock_pda: Option<(Seq<u8>, u8)>,
    vault_pda: Option<(Seq<u8>, u8)>,
    amount: u64,
    unlock_timestamp: i64,
    deposit_time: i64,
    withdraw_time: i64,
)
    requires
        sol_lock_error(pre, timelock_pda, vault_pda, amount, unlock_timestamp, deposit_time)
            is None,
        sol_locked(pre, locked, timelock_pda, vault_pda, amount, unlock_timestamp, deposit_time),
        withdraw_time >= unlock_timestamp,
    ensures
        ({
            let w = WithdrawSol {
                owner: locked.owner,
                owner_signed: locked.owner_signed,
                timelock_key: locked.timelock_key,
                timelock: locked.timelock,
                vault: locked.vault,
            };
            &&& sol_withdraw_error(w, timelock_pda, vault_pda, withdraw_time) is None
            &&& sol_withdrawn(w).owner.lamports == locked.owner.lamports + amount
            &&& sol_withdrawn(w).owner.lamports == pre.owner.lamports
            &&& sol_withdrawn(w).vault.lamports == pre.vault.lamports
        }),
{
}

/// A token deposit followed, at or after its unlock time, by the owner's withdrawal on the
/// accounts it left: the withdrawal succeeds, the owner's token account gets back exactly
/// `amount`, and the vault token account returns to its balance before the deposit.
pub proof fn lemma_spl_round_trip(
    pre: InitializeSpLock,
    locked: InitializeSpLock,
    timelock_pda: Option<(Seq<u8>, u8)>,
    vault_pda: Option<(Seq<u8>, u8)>,
    vault_token_pda: Option<(Seq<u8>, u8)>,
    amount: u64,
    unlock_timestamp: i64,
    deposit_time: i64,
    withdraw_time: i64,
)
    requires
        spl_lock_error(
            pre,
            timelock_pda,
            vault_pda,
            vault_token_pda,
            amount,
            unlock_timestamp,
            deposit_time,
        ) is None,
        spl_locked(
            pre,
            locked,
            timelock_pda,
            vault_pda,
            vault_token_pda,
            amount,
            unlock_timestamp,
            deposit_time,
        ),
        withdraw_time >= unlock_timestamp,
    ensures
        ({
            let w = WithdrawSpl {
                owner: locked.owner,
                owner_signed: locked.owner_signed,
                timelock_key: locked.timelock_key,
                timelock: locked.timelock,
                owner_token_account: locked.owner_token_account,
                vault: locked.vault,
                vault_token_account: locked.vault_token_account,
            };
            &&& spl_withdraw_error(w, timelock_pda, vault_pda, vault_token_pda, withdraw_time)
                is None
            &&& spl_withdrawn(w).owner_token_account.amount == locked.owner_token_account.amount
                + amount
            &&& spl_withdrawn(w).owner_token_account.amount == pre.owner_token_account.amount
            &&& spl_withdrawn(w).vault_token_account.amount == pre.vault_token_account.amount
        }),
{
}

/// A native deposit that failed, repeated on the state it left, fails with the same error
/// and leaves the same state.
pub proof fn lemma_sol_lock_failure_repeats(
    s0: InitializeSolLock,
    s1: InitializeSolLock,
    s2: InitializeSolLock,
    r1: Result<(), ErrorCode>,
    r2: Result<(), ErrorCode>,
    timelock_pda: Option<(Seq<u8>, u8)>,
    vault_pda: Option<(Seq<u8>, u8)>,
    amount: u64,
    unlock_timestamp: i64,
    now: i64,
)
    requires
        sol_lock_step(s0, s1, r1, timelock_pda, vault_pda, amount, unlock_timestamp, now),
        r1 is Err,
        sol_lock_step(s1, s2, r2, timelock_pda, vault_pda, amount, unlock_timestamp, now),
    ensures
        r2 == r1,
        s2 == s0,
{
}

/// A native withdrawal that failed, repeated on the state it left, fails with the same
/// error and leaves the same state.
pub proof fn lemma_sol_withdraw_failure_repeats(
    s0: WithdrawSol,
    s1: WithdrawSol,
    s2: WithdrawSol,
    r1: Result<(), ErrorCode>,
    r2: Result<(), ErrorCode>,
    timelock_pda: Option<(Seq<u8>, u8)>,
    vault_pda: Option<(Seq<u8>, u8)>,
    now: i64,
)
    requires
        sol_withdraw_step(s0, s1, r1, timelock_pda, vault_pda, now),
        r1 is Err,
        sol_withdraw_step(s1, s2, r2, timelock_pda, vault_pda, now),
    ensures
        r2 == r1,
        s2 == s0,
{
}

/// A token deposit that failed, repeated on the state it left, fails with the same error
/// and leaves the same state.
pub proof fn lemma_spl_lock_failure_repeats(
    s0: InitializeSpLock,
    s1: InitializeSpLock,
    s2: InitializeSpLock,
    r1: Result<(), ErrorCode>,
    r2: Result<(), ErrorCode>,
    timelock_pda: Option<(Seq<u8>, u8)>,
    vault_pda: Option<(Seq<u8>, u8)>,
    vault_token_pda: Option<(Seq<u8>, u8)>,
    amount: u64,
    unlock_timestamp: i64,
    now: i64,
)
    requires
        spl_lock_step(
            s0,
            s1,
            r1,
            timelock_pda,
            vault_pda,
            vault_token_pda,
            amount,
            unlock_timestamp,
            now,
        ),
        r1 is Err,
        spl_lock_step(
            s1,
            s2,
            r2,
            timelock_pda,
            vault_pda,
            vault_token_pda,
            amount,
            unlock_timestamp,
            now,
        ),
    ensures
        r2 == r1,
        s2 == s0,
{
}

/// A token withdrawal that failed, repeated on the state it left, fails with the same
/// error and leaves the same state.
pub proof fn lemma_spl_withdraw_failure_repeats(
    s0: WithdrawSpl,
    s1: WithdrawSpl,
    s2: WithdrawSpl,
    r1: Result<(), ErrorCode>,
    r2: Result<(), ErrorCode>,
    timelock_pda: Option<(Seq<u8>, u8)>,
    vault_pda: Option<(Seq<u8>, u8)>,
    vault_token_pda: Option<(Seq<u8>, u8)>,
    now: i64,
)
    requires
        spl_withdraw_step(s0, s1, r1, timelock_pda, vault_pda, vault_token_pda, now),
        r1 is Err,
        spl_withdraw_step(s1, s2, r2, timelock_pda, vault_pda, vault_token_pda, now),
    ensures
        r2 == r1,
        s2 == s0,
{
}

} // verus!
