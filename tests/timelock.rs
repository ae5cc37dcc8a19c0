use solana_timelock::{
    derive_address, initialize_sol_lock, initialize_spl_lock, lock_sol, release_sol, withdraw_sol,
    withdraw_spl, Address, ErrorCode, InitializeSolLock, InitializeSpLock, SeedTag,
    SystemAccount, TimelockAccount, TokenAccount, WithdrawSol, WithdrawSpl,
};

const T: i64 = 1_700_000_000;

fn program_id() -> Address {
    Address::new([7u8; 32])
}

fn alice() -> Address {
    Address::new([1u8; 32])
}

fn bob() -> Address {
    Address::new([2u8; 32])
}

fn mint_x() -> Address {
    Address::new([9u8; 32])
}

fn derive(tag: SeedTag, key: &Address) -> Address {
    derive_address(tag, key, &program_id()).expect("a derived address").address
}

fn sol_deposit(owner: Address, lamports: u64) -> InitializeSolLock {
    let timelock_key = derive(SeedTag::TimelockSol, &owner);
    InitializeSolLock {
        owner: SystemAccount { key: owner, lamports },
        owner_signed: true,
        timelock_key,
        timelock: TimelockAccount::empty(),
        vault: SystemAccount { key: derive(SeedTag::Vault, &timelock_key), lamports: 0 },
    }
}

fn sol_withdrawal(signer: Address, from: &InitializeSolLock) -> WithdrawSol {
    WithdrawSol {
        owner: SystemAccount { key: signer, lamports: from.owner.lamports },
        owner_signed: true,
        timelock_key: from.timelock_key,
        timelock: from.timelock,
        vault: from.vault,
    }
}

fn spl_deposit(owner: Address, mint: Address, tokens: u64) -> InitializeSpLock {
    let timelock_key = derive(SeedTag::TimelockSpl, &owner);
    let vault = derive(SeedTag::Vault, &timelock_key);
    InitializeSpLock {
        owner,
        owner_signed: true,
        token_mint: mint,
        owner_token_account: TokenAccount {
            key: Address::new([3u8; 32]),
            mint,
            authority: owner,
            amount: tokens,
        },
        timelock_key,
        timelock: TimelockAccount::empty(),
        vault,
        vault_token_account: TokenAccount {
            key: derive(SeedTag::VaultTokenAccount, &timelock_key),
            mint,
            authority: vault,
            amount: 0,
        },
    }
}

fn spl_withdrawal(from: &InitializeSpLock) -> WithdrawSpl {
    WithdrawSpl {
        owner: from.owner,
        owner_signed: true,
        timelock_key: from.timelock_key,
        timelock: from.timelock,
        owner_token_account: from.owner_token_account,
        vault: from.vault,
        vault_token_account: from.vault_token_account,
    }
}

#[test]
fn derived_addresses_are_deterministic_and_distinct() {
    let a = derive_address(SeedTag::TimelockSol, &alice(), &program_id()).unwrap();
    let again = derive_address(SeedTag::TimelockSol, &alice(), &program_id()).unwrap();
    assert_eq!(a.address.bytes, again.address.bytes);
    assert_eq!(a.bump, again.bump);
    assert_ne!(a.address.bytes, alice().bytes);
    assert_ne!(a.address.bytes, program_id().bytes);
    let b = derive(SeedTag::TimelockSol, &bob());
    assert_ne!(a.address.bytes, b.bytes);
    let spl = derive(SeedTag::TimelockSpl, &alice());
    assert_ne!(a.address.bytes, spl.bytes);
    let vault = derive(SeedTag::Vault, &a.address);
    let vault_token = derive(SeedTag::VaultTokenAccount, &a.address);
    assert_ne!(vault.bytes, vault_token.bytes);
}

#[test]
fn record_size() {
    assert_eq!(TimelockAccount::LEN, 124);
    let r = TimelockAccount::empty();
    assert!(!r.is_initialized);
    assert_eq!(r.amount, 0);
}

#[test]
fn sol_deposit_then_early_and_late_withdrawal() {
    let mut d = sol_deposit(alice(), 5000);
    assert_eq!(initialize_sol_lock(&mut d, &program_id(), 1000, T + 3600, T), Ok(()));
    assert_eq!(d.owner.lamports, 4000);
    assert_eq!(d.vault.lamports, 1000);
    assert!(d.timelock.is_initialized);
    assert_eq!(d.timelock.amount, 1000);
    assert_eq!(d.timelock.unlock_timestamp, T + 3600);
    assert_eq!(d.timelock.created_timestamp, T);
    assert_eq!(d.timelock.owner.bytes, alice().bytes);
    assert_eq!(d.timelock.token_mint.bytes, [0u8; 32]);
    assert_eq!(d.timelock.vault.bytes, d.vault.key.bytes);

    let mut w = sol_withdrawal(alice(), &d);
    assert_eq!(withdraw_sol(&mut w, &program_id(), T + 1800), Err(ErrorCode::TimeNotExpired));
    assert_eq!(w.owner.lamports, 4000);
    assert_eq!(w.vault.lamports, 1000);

    assert_eq!(withdraw_sol(&mut w, &program_id(), T + 3601), Ok(()));
    assert_eq!(w.owner.lamports, 5000);
    assert_eq!(w.vault.lamports, 0);
    assert!(w.timelock.is_initialized);
    assert_eq!(w.timelock.amount, 1000);
}

#[test]
fn sol_withdrawal_at_exact_unlock_time() {
    let mut d = sol_deposit(alice(), 10);
    assert_eq!(initialize_sol_lock(&mut d, &program_id(), 10, T + 5, T), Ok(()));
    let mut w = sol_withdrawal(alice(), &d);
    assert_eq!(withdraw_sol(&mut w, &program_id(), T + 5), Ok(()));
    assert_eq!(w.owner.lamports, 10);
    assert_eq!(w.vault.lamports, 0);
}

#[test]
fn spl_second_deposit_is_refused() {
    let mut d = spl_deposit(alice(), mint_x(), 80);
    assert_eq!(initialize_spl_lock(&mut d, &program_id(), 50, T + 10, T), Ok(()));
    assert_eq!(d.vault_token_account.amount, 50);
    assert_eq!(d.owner_token_account.amount, 30);
    assert!(d.timelock.is_initialized);
    assert_eq!(d.timelock.token_mint.bytes, mint_x().bytes);
    assert_eq!(
        initialize_spl_lock(&mut d, &program_id(), 50, T + 10, T),
        Err(ErrorCode::AccountAlreadyInitialized)
    );
    assert_eq!(d.vault_token_account.amount, 50);
    assert_eq!(d.owner_token_account.amount, 30);
    assert_eq!(d.timelock.amount, 50);
}

#[test]
fn sol_second_deposit_is_refused() {
    let mut d = sol_deposit(alice(), 3000);
    assert_eq!(initialize_sol_lock(&mut d, &program_id(), 1000, T + 60, T), Ok(()));
    assert_eq!(
        initialize_sol_lock(&mut d, &program_id(), 1000, T + 60, T),
        Err(ErrorCode::AccountAlreadyInitialized)
    );
    assert_eq!(d.owner.lamports, 2000);
    assert_eq!(d.vault.lamports, 1000);
}

#[test]
fn sol_withdrawal_by_stranger_is_refused() {
    let mut d = sol_deposit(alice(), 1000);
    assert_eq!(initialize_sol_lock(&mut d, &program_id(), 1000, T + 3600, T), Ok(()));
    let mut w = sol_withdrawal(bob(), &d);
    assert_eq!(withdraw_sol(&mut w, &program_id(), T + 7200), Err(ErrorCode::Unauthorized));
    assert_eq!(w.owner.lamports, 0);
    assert_eq!(w.vault.lamports, 1000);
    assert_eq!(withdraw_sol(&mut w, &program_id(), T), Err(ErrorCode::Unauthorized));
}

#[test]
fn spl_withdrawal_by_stranger_is_refused() {
    let mut d = spl_deposit(alice(), mint_x(), 50);
    assert_eq!(initialize_spl_lock(&mut d, &program_id(), 50, T + 10, T), Ok(()));
    let mut w = spl_withdrawal(&d);
    w.owner = bob();
    w.owner_token_account.authority = bob();
    assert_eq!(withdraw_spl(&mut w, &program_id(), T + 20), Err(ErrorCode::Unauthorized));
    assert_eq!(w.vault_token_account.amount, 50);
}

#[test]
fn spl_round_trip() {
    let mut d = spl_deposit(alice(), mint_x(), 80);
    assert_eq!(initialize_spl_lock(&mut d, &program_id(), 50, T + 10, T), Ok(()));
    let mut w = spl_withdrawal(&d);
    assert_eq!(withdraw_spl(&mut w, &program_id(), T + 9), Err(ErrorCode::TimeNotExpired));
    assert_eq!(w.vault_token_account.amount, 50);
    assert_eq!(withdraw_spl(&mut w, &program_id(), T + 10), Ok(()));
    assert_eq!(w.owner_token_account.amount, 80);
    assert_eq!(w.vault_token_account.amount, 0);
    assert_eq!(w.timelock.amount, 50);
}

#[test]
fn failed_withdrawal_repeats_identically() {
    let mut d = sol_deposit(alice(), 1000);
    assert_eq!(initialize_sol_lock(&mut d, &program_id(), 700, T + 100, T), Ok(()));
    let mut w = sol_withdrawal(alice(), &d);
    for _ in 0..3 {
        assert_eq!(withdraw_sol(&mut w, &program_id(), T + 50), Err(ErrorCode::TimeNotExpired));
        assert_eq!(w.owner.lamports, 300);
        assert_eq!(w.vault.lamports, 700);
        assert!(w.timelock.is_initialized);
    }
}

#[test]
fn second_withdrawal_finds_vault_empty() {
    let mut d = sol_deposit(alice(), 1000);
    assert_eq!(initialize_sol_lock(&mut d, &program_id(), 1000, T + 1, T), Ok(()));
    let mut w = sol_withdrawal(alice(), &d);
    assert_eq!(withdraw_sol(&mut w, &program_id(), T + 1), Ok(()));
    assert_eq!(withdraw_sol(&mut w, &program_id(), T + 2), Err(ErrorCode::InsufficientFunds));
    assert_eq!(w.owner.lamports, 1000);
    assert_eq!(w.vault.lamports, 0);
}

#[test]
fn deposit_of_zero_is_refused() {
    let mut d = sol_deposit(alice(), 1000);
    assert_eq!(initialize_sol_lock(&mut d, &program_id(), 0, T + 1, T), Err(ErrorCode::InvalidAmount));
    assert!(!d.timelock.is_initialized);
    let mut s = spl_deposit(alice(), mint_x(), 10);
    assert_eq!(initialize_spl_lock(&mut s, &program_id(), 0, T + 1, T), Err(ErrorCode::InvalidAmount));
}

#[test]
fn deposit_with_past_unlock_time_is_refused() {
    let mut d = sol_deposit(alice(), 1000);
    assert_eq!(initialize_sol_lock(&mut d, &program_id(), 10, T, T), Err(ErrorCode::TimeNotExpired));
    assert_eq!(d.owner.lamports, 1000);
    let mut s = spl_deposit(alice(), mint_x(), 10);
    assert_eq!(initialize_spl_lock(&mut s, &program_id(), 10, T - 1, T), Err(ErrorCode::TimeNotExpired));
    assert_eq!(s.owner_token_account.amount, 10);
}

#[test]
fn deposit_beyond_balance_is_refused() {
    let mut d = sol_deposit(alice(), 99);
    assert_eq!(initialize_sol_lock(&mut d, &program_id(), 100, T + 1, T), Err(ErrorCode::InsufficientFunds));
    assert_eq!(d.owner.lamports, 99);
    assert!(!d.timelock.is_initialized);
    let mut s = spl_deposit(alice(), mint_x(), 5);
    assert_eq!(initialize_spl_lock(&mut s, &program_id(), 6, T + 1, T), Err(ErrorCode::InsufficientFunds));
}

#[test]
fn unsigned_requests_are_refused() {
    let mut d = sol_deposit(alice(), 1000);
    d.owner_signed = false;
    assert_eq!(initialize_sol_lock(&mut d, &program_id(), 10, T + 1, T), Err(ErrorCode::Unauthorized));
    d.owner_signed = true;
    assert_eq!(initialize_sol_lock(&mut d, &program_id(), 10, T + 1, T), Ok(()));
    let mut w = sol_withdrawal(alice(), &d);
    w.owner_signed = false;
    assert_eq!(withdraw_sol(&mut w, &program_id(), T + 1), Err(ErrorCode::Unauthorized));
}

#[test]
fn presented_accounts_must_be_the_derived_ones() {
    let mut d = sol_deposit(alice(), 1000);
    d.vault.key = Address::new([5u8; 32]);
    assert_eq!(initialize_sol_lock(&mut d, &program_id(), 10, T + 1, T), Err(ErrorCode::MalformedAccount));
    let mut d = sol_deposit(alice(), 1000);
    d.timelock_key = derive(SeedTag::TimelockSol, &bob());
    assert_eq!(initialize_sol_lock(&mut d, &program_id(), 10, T + 1, T), Err(ErrorCode::MalformedAccount));

    let mut d = sol_deposit(alice(), 1000);
    assert_eq!(initialize_sol_lock(&mut d, &program_id(), 10, T + 1, T), Ok(()));
    let mut w = sol_withdrawal(alice(), &d);
    w.vault.key = Address::new([5u8; 32]);
    assert_eq!(withdraw_sol(&mut w, &program_id(), T + 1), Err(ErrorCode::MalformedAccount));
    let mut w = sol_withdrawal(alice(), &d);
    assert_eq!(withdraw_sol(&mut w, &Address::new([8u8; 32]), T + 1), Err(ErrorCode::Unauthorized));
}

#[test]
fn vault_already_holding_funds_is_refused() {
    let mut d = sol_deposit(alice(), 1000);
    d.vault.lamports = 1;
    assert_eq!(
        initialize_sol_lock(&mut d, &program_id(), 10, T + 1, T),
        Err(ErrorCode::AccountAlreadyInitialized)
    );
    let mut s = spl_deposit(alice(), mint_x(), 10);
    s.vault_token_account.amount = 1;
    assert_eq!(
        initialize_spl_lock(&mut s, &program_id(), 10, T + 1, T),
        Err(ErrorCode::AccountAlreadyInitialized)
    );
}

#[test]
fn token_accounts_must_match_the_mint() {
    let mut s = spl_deposit(alice(), mint_x(), 10);
    s.owner_token_account.mint = Address::new([4u8; 32]);
    assert_eq!(initialize_spl_lock(&mut s, &program_id(), 10, T + 1, T), Err(ErrorCode::MalformedAccount));
    let mut s = spl_deposit(alice(), Address::native(), 10);
    assert_eq!(initialize_spl_lock(&mut s, &program_id(), 10, T + 1, T), Err(ErrorCode::MalformedAccount));

    let mut s = spl_deposit(alice(), mint_x(), 10);
    assert_eq!(initialize_spl_lock(&mut s, &program_id(), 10, T + 1, T), Ok(()));
    let mut w = spl_withdrawal(&s);
    w.owner_token_account.mint = Address::new([4u8; 32]);
    assert_eq!(withdraw_spl(&mut w, &program_id(), T + 1), Err(ErrorCode::MalformedAccount));
    assert_eq!(w.vault_token_account.amount, 10);
}

#[test]
fn withdrawal_that_would_overflow_is_refused() {
    let mut d = sol_deposit(alice(), 1000);
    assert_eq!(initialize_sol_lock(&mut d, &program_id(), 1000, T + 1, T), Ok(()));
    let mut w = sol_withdrawal(alice(), &d);
    w.owner.lamports = u64::MAX - 999;
    assert_eq!(withdraw_sol(&mut w, &program_id(), T + 1), Err(ErrorCode::BalanceOverflow));
    assert_eq!(w.vault.lamports, 1000);
    w.owner.lamports = u64::MAX - 1000;
    assert_eq!(withdraw_sol(&mut w, &program_id(), T + 1), Ok(()));
    assert_eq!(w.owner.lamports, u64::MAX);
}

#[test]
fn core_checks_take_derivations_as_given() {
    let mut d = sol_deposit(alice(), 100);
    assert_eq!(lock_sol(&mut d, None, None, 10, T + 1, T), Err(ErrorCode::MalformedAccount));
    let tl = derive_address(SeedTag::TimelockSol, &alice(), &program_id());
    let v = derive_address(SeedTag::Vault, &d.timelock_key, &program_id());
    assert_eq!(lock_sol(&mut d, tl, v, 10, T + 1, T), Ok(()));
    assert_eq!(d.timelock.timelock_bump, tl.unwrap().bump);
    assert_eq!(d.timelock.vault_bump, v.unwrap().bump);
    let mut w = sol_withdrawal(alice(), &d);
    assert_eq!(release_sol(&mut w, tl, None, T + 1), Err(ErrorCode::MalformedAccount));
    assert_eq!(release_sol(&mut w, tl, v, T + 1), Ok(()));
    assert_eq!(w.owner.lamports, 100);
}

#[test]
fn lock_record_is_single_use() {
    let mut d = sol_deposit(alice(), 1000);
    assert_eq!(initialize_sol_lock(&mut d, &program_id(), 1000, T + 1, T), Ok(()));
    let mut w = sol_withdrawal(alice(), &d);
    assert_eq!(withdraw_sol(&mut w, &program_id(), T + 1), Ok(()));
    let mut again = InitializeSolLock {
        owner: w.owner,
        owner_signed: true,
        timelock_key: w.timelock_key,
        timelock: w.timelock,
        vault: w.vault,
    };
    assert_eq!(
        initialize_sol_lock(&mut again, &program_id(), 500, T + 100, T + 2),
        Err(ErrorCode::AccountAlreadyInitialized)
    );
    assert_eq!(again.owner.lamports, 1000);
}
