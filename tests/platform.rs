use megahack_contracts::{
    claim_follower_share, create_trade_call, create_user_vault, deposit_to_vault, follow_trade,
    initialize_id_counter, initialize_platform, resolve_trade_call_failure_all,
    resolve_trade_call_success, withdraw_from_vault, AccountKey, AdminResolveTradeCall,
    AdminResolveTradeCallAll, ClaimFollowerShare, CreateTradeCall, CreateUserVault,
    DepositToVault, FollowTrade, IDCounter, InitializeIDCounter, InitializePlatform,
    PlatformState, TradeCall, TradeCallError, TradeStatus, UserVault, WithdrawFromVault,
    FOLLOW_FEE, MAX_FOLLOWERS,
};

fn key(n: u8) -> AccountKey {
    AccountKey::new([n; 32])
}

fn blank_call() -> TradeCall {
    TradeCall {
        id: 0,
        token_address: key(0),
        staked_amount: 0,
        caller: key(0),
        timestamp: 0,
        followers: Vec::new(),
        status: TradeStatus::Active,
        is_distributed: false,
        payout_per_follower: 0,
        claimed_followers: Vec::new(),
    }
}

fn vault(user: AccountKey, deposited: u64) -> UserVault {
    UserVault { user, deposited_amount: deposited, reserved_fee: 0 }
}

const ADMIN: u8 = 1;
const CALLER: u8 = 2;
const TOKEN: u8 = 9;

fn new_call(stake: u64) -> TradeCall {
    let mut ctx = CreateTradeCall {
        trade_call: blank_call(),
        id_counter: IDCounter { value: 1 },
        authority: key(CALLER),
    };
    assert_eq!(create_trade_call(&mut ctx, key(TOKEN), stake, 1_700_000_000), Ok(()));
    ctx.trade_call
}

fn follow(call: TradeCall, follower: AccountKey, deposited: u64) -> (TradeCall, UserVault, Result<(), TradeCallError>) {
    let mut ctx = FollowTrade { trade_call: call, user_vault: vault(follower, deposited), follower };
    let r = follow_trade(&mut ctx);
    (ctx.trade_call, ctx.user_vault, r)
}

fn fail_call(call: TradeCall) -> (TradeCall, Result<(), TradeCallError>) {
    let mut ctx = AdminResolveTradeCallAll {
        trade_call: call,
        platform_state: PlatformState { admin: key(ADMIN) },
        admin: key(ADMIN),
        user_vault: vault(key(ADMIN), 0),
    };
    let r = resolve_trade_call_failure_all(&mut ctx);
    (ctx.trade_call, r)
}

fn claim(call: TradeCall, follower: AccountKey, escrow: u64) -> (ClaimFollowerShare, Result<(), TradeCallError>) {
    let mut ctx = ClaimFollowerShare {
        trade_call: call,
        trade_call_lamports: escrow,
        follower,
        follower_lamports: 0,
    };
    let r = claim_follower_share(&mut ctx);
    (ctx, r)
}

#[test]
fn follow_reserves_fee_then_failed_call_splits_stake() {
    let mut dctx = DepositToVault { user_vault: vault(key(10), 0), user: key(10) };
    assert_eq!(deposit_to_vault(&mut dctx, 2_000_000), Ok(()));
    assert_eq!(dctx.user_vault.deposited_amount, 2_000_000);
    assert_eq!(FOLLOW_FEE, 1_000_000);

    let call = new_call(1_000_000_000);
    let mut fctx = FollowTrade { trade_call: call, user_vault: dctx.user_vault, follower: key(10) };
    assert_eq!(follow_trade(&mut fctx), Ok(()));
    assert_eq!(fctx.user_vault.deposited_amount, 1_000_000);
    assert_eq!(fctx.user_vault.reserved_fee, 1_000_000);

    let (call, _, r) = follow(fctx.trade_call, key(11), 2_000_000);
    assert_eq!(r, Ok(()));
    let (call, _, r) = follow(call, key(12), 2_000_000);
    assert_eq!(r, Ok(()));
    assert_eq!(call.followers.len(), 3);

    let (mut call, r) = fail_call(call);
    assert_eq!(r, Ok(()));
    assert_eq!(call.payout_per_follower, 333_333_333);
    assert_eq!(call.status, TradeStatus::Failed);
    assert!(call.is_distributed);

    let mut escrow: u64 = 1_000_000_000;
    for f in [10u8, 11, 12] {
        let (ctx, r) = claim(call, key(f), escrow);
        assert_eq!(r, Ok(()));
        assert_eq!(ctx.follower_lamports, 333_333_333);
        escrow = ctx.trade_call_lamports;
        call = ctx.trade_call;
    }
    assert_eq!(escrow, 1);
    for f in [10u8, 11, 12] {
        let (ctx, r) = claim(call, key(f), escrow);
        assert_eq!(r, Err(TradeCallError::AlreadyClaimed));
        assert_eq!(ctx.trade_call_lamports, 1);
        call = ctx.trade_call;
    }
}

#[test]
fn stake_is_conserved_across_all_claims() {
    let mut call = new_call(10);
    for f in [20u8, 21, 22] {
        let (c, _, r) = follow(call, key(f), FOLLOW_FEE);
        assert_eq!(r, Ok(()));
        call = c;
    }
    let (mut call, r) = fail_call(call);
    assert_eq!(r, Ok(()));
    assert_eq!(call.payout_per_follower, 3);
    let mut escrow: u64 = 10;
    let mut paid: u64 = 0;
    for f in [20u8, 21, 22] {
        let (ctx, r) = claim(call, key(f), escrow);
        assert_eq!(r, Ok(()));
        paid += ctx.follower_lamports;
        escrow = ctx.trade_call_lamports;
        call = ctx.trade_call;
    }
    assert_eq!(paid, 9);
    assert_eq!(escrow, 10 % 3);
    assert_eq!(paid + escrow, 10);
    for f in [20u8, 21, 22, 23] {
        let (ctx, r) = claim(call.clone(), key(f), escrow);
        assert!(r.is_err());
        assert_eq!(ctx.trade_call_lamports, 1);
    }
}

#[test]
fn caller_cannot_follow_own_call() {
    let call = new_call(500);
    let (call, v, r) = follow(call, key(CALLER), 5_000_000);
    assert_eq!(r, Err(TradeCallError::CannotFollowOwnTrade));
    assert!(call.followers.is_empty());
    assert_eq!(v.deposited_amount, 5_000_000);
    // even without any deposit, the self-follow is what is reported
    let (_, _, r) = follow(call, key(CALLER), 0);
    assert_eq!(r, Err(TradeCallError::CannotFollowOwnTrade));
}

#[test]
fn follow_twice_is_refused() {
    let call = new_call(500);
    let (call, _, r) = follow(call, key(30), FOLLOW_FEE);
    assert_eq!(r, Ok(()));
    let (call, v, r) = follow(call, key(30), FOLLOW_FEE);
    assert_eq!(r, Err(TradeCallError::AlreadyFollowing));
    assert_eq!(call.followers.len(), 1);
    assert_eq!(v.reserved_fee, 0);
}

#[test]
fn follow_needs_deposit_covering_fee() {
    let call = new_call(500);
    let (call, v, r) = follow(call, key(31), 0);
    assert_eq!(r, Err(TradeCallError::InsufficientDeposit));
    assert_eq!(v.reserved_fee, 0);
    let (call, v, r) = follow(call, key(31), FOLLOW_FEE - 1);
    assert_eq!(r, Err(TradeCallError::InsufficientDeposit));
    assert_eq!(v.deposited_amount, FOLLOW_FEE - 1);
    assert!(call.followers.is_empty());
}

#[test]
fn follow_reserved_fee_overflow_is_refused() {
    let call = new_call(500);
    let mut ctx = FollowTrade {
        trade_call: call,
        user_vault: UserVault { user: key(32), deposited_amount: FOLLOW_FEE, reserved_fee: u64::MAX },
        follower: key(32),
    };
    assert_eq!(follow_trade(&mut ctx), Err(TradeCallError::ArithmeticOverflow));
    assert!(ctx.trade_call.followers.is_empty());
}

#[test]
fn follow_is_bounded_by_capacity() {
    let mut call = new_call(500);
    for f in 0..MAX_FOLLOWERS {
        let (c, _, r) = follow(call, key(100 + f as u8), FOLLOW_FEE);
        assert_eq!(r, Ok(()));
        call = c;
    }
    let (call, _, r) = follow(call, key(200), FOLLOW_FEE);
    assert_eq!(r, Err(TradeCallError::CapacityExceeded));
    assert_eq!(call.followers.len(), MAX_FOLLOWERS);
}

#[test]
fn full_call_reports_insufficient_deposit_first() {
    let mut call = new_call(500);
    for f in 0..MAX_FOLLOWERS {
        let (c, _, r) = follow(call, key(100 + f as u8), FOLLOW_FEE);
        assert_eq!(r, Ok(()));
        call = c;
    }
    let (call, v, r) = follow(call, key(200), FOLLOW_FEE - 1);
    assert_eq!(r, Err(TradeCallError::InsufficientDeposit));
    assert_eq!(v.deposited_amount, FOLLOW_FEE - 1);
    assert_eq!(v.reserved_fee, 0);
    assert_eq!(call.followers.len(), MAX_FOLLOWERS);
}

#[test]
fn follow_resolved_call_is_refused() {
    let call = new_call(500);
    let (call, _, _) = follow(call, key(33), FOLLOW_FEE);
    let (call, r) = fail_call(call);
    assert_eq!(r, Ok(()));
    let (_, _, r) = follow(call, key(34), FOLLOW_FEE);
    assert_eq!(r, Err(TradeCallError::TradeCallNotActive));
}

#[test]
fn identifiers_start_at_one_and_increase() {
    let mut ictx = InitializeIDCounter {
        id_counter: IDCounter { value: 77 },
        platform_state: None,
        authority: key(ADMIN),
    };
    assert_eq!(initialize_id_counter(&mut ictx), Ok(()));
    assert_eq!(ictx.id_counter.value, 1);
    let mut counter = ictx.id_counter;
    let mut last = 0;
    for _ in 0..4 {
        let mut ctx = CreateTradeCall { trade_call: blank_call(), id_counter: counter, authority: key(CALLER) };
        assert_eq!(create_trade_call(&mut ctx, key(TOKEN), 5, 0), Ok(()));
        assert_eq!(ctx.trade_call.id, last + 1);
        last = ctx.trade_call.id;
        counter = ctx.id_counter;
    }
    assert_eq!(last, 4);
    assert_eq!(counter.value, 5);
}

#[test]
fn create_trade_call_sets_fields() {
    let call = new_call(42);
    assert_eq!(call.id, 1);
    assert_eq!(call.token_address, key(TOKEN));
    assert_eq!(call.staked_amount, 42);
    assert_eq!(call.caller, key(CALLER));
    assert_eq!(call.timestamp, 1_700_000_000);
    assert_eq!(call.status, TradeStatus::Active);
    assert!(!call.is_distributed);
    assert_eq!(call.payout_per_follower, 0);
    assert!(call.followers.is_empty() && call.claimed_followers.is_empty());
}

#[test]
fn create_trade_call_counter_overflow() {
    let mut ctx = CreateTradeCall {
        trade_call: blank_call(),
        id_counter: IDCounter { value: u64::MAX },
        authority: key(CALLER),
    };
    assert_eq!(create_trade_call(&mut ctx, key(TOKEN), 5, 0), Err(TradeCallError::ArithmeticOverflow));
    assert_eq!(ctx.id_counter.value, u64::MAX);
}

#[test]
fn resolved_call_cannot_be_resolved_again() {
    let call = new_call(100);
    let mut sctx = AdminResolveTradeCall {
        trade_call: call,
        trade_call_lamports: 100,
        platform_state: PlatformState { admin: key(ADMIN) },
        admin: key(ADMIN),
        caller_lamports: 0,
        user_vault: vault(key(CALLER), 0),
        user_vault_lamports: 0,
    };
    assert_eq!(resolve_trade_call_success(&mut sctx), Ok(()));
    assert_eq!(sctx.trade_call.status, TradeStatus::Successful);
    assert_eq!(resolve_trade_call_success(&mut sctx), Err(TradeCallError::TradeCallAlreadyResolved));
    let (_, r) = fail_call(sctx.trade_call.clone());
    assert_eq!(r, Err(TradeCallError::TradeCallAlreadyResolved));

    let call = new_call(100);
    let (call, _, _) = follow(call, key(40), FOLLOW_FEE);
    let (call, r) = fail_call(call);
    assert_eq!(r, Ok(()));
    let (_, r) = fail_call(call.clone());
    assert_eq!(r, Err(TradeCallError::TradeCallAlreadyResolved));
    sctx.trade_call = call;
    assert_eq!(resolve_trade_call_success(&mut sctx), Err(TradeCallError::TradeCallAlreadyResolved));
}

#[test]
fn success_returns_stake_and_half_reserved_fee() {
    let call = new_call(1_000);
    let mut ctx = AdminResolveTradeCall {
        trade_call: call,
        trade_call_lamports: 1_500,
        platform_state: PlatformState { admin: key(ADMIN) },
        admin: key(ADMIN),
        caller_lamports: 7,
        user_vault: UserVault { user: key(CALLER), deposited_amount: 3, reserved_fee: 101 },
        user_vault_lamports: 200,
    };
    assert_eq!(resolve_trade_call_success(&mut ctx), Ok(()));
    assert_eq!(ctx.trade_call_lamports, 500);
    assert_eq!(ctx.caller_lamports, 7 + 50 + 1_000);
    assert_eq!(ctx.user_vault_lamports, 150);
    assert_eq!(ctx.user_vault.reserved_fee, 0);
    assert_eq!(ctx.user_vault.deposited_amount, 3);
}

#[test]
fn only_admin_resolves() {
    let call = new_call(100);
    let mut ctx = AdminResolveTradeCall {
        trade_call: call,
        trade_call_lamports: 100,
        platform_state: PlatformState { admin: key(ADMIN) },
        admin: key(CALLER),
        caller_lamports: 0,
        user_vault: vault(key(CALLER), 0),
        user_vault_lamports: 0,
    };
    assert_eq!(resolve_trade_call_success(&mut ctx), Err(TradeCallError::NotAuthorized));
    assert_eq!(ctx.trade_call.status, TradeStatus::Active);
    let mut fctx = AdminResolveTradeCallAll {
        trade_call: ctx.trade_call.clone(),
        platform_state: PlatformState { admin: key(ADMIN) },
        admin: key(CALLER),
        user_vault: vault(key(CALLER), 0),
    };
    assert_eq!(resolve_trade_call_failure_all(&mut fctx), Err(TradeCallError::NotAuthorized));
}

#[test]
fn success_needs_escrow_to_cover_stake() {
    let call = new_call(100);
    let mut ctx = AdminResolveTradeCall {
        trade_call: call,
        trade_call_lamports: 99,
        platform_state: PlatformState { admin: key(ADMIN) },
        admin: key(ADMIN),
        caller_lamports: 0,
        user_vault: vault(key(CALLER), 0),
        user_vault_lamports: 0,
    };
    assert_eq!(resolve_trade_call_success(&mut ctx), Err(TradeCallError::InsufficientFunds));
    assert_eq!(ctx.trade_call_lamports, 99);
    ctx.trade_call_lamports = 100;
    ctx.caller_lamports = u64::MAX;
    assert_eq!(resolve_trade_call_success(&mut ctx), Err(TradeCallError::ArithmeticOverflow));
}

#[test]
fn failure_needs_followers() {
    let (call, r) = fail_call(new_call(100));
    assert_eq!(r, Err(TradeCallError::NoFollowers));
    assert_eq!(call.status, TradeStatus::Active);
}

#[test]
fn failure_releases_reserved_fee_of_vault_handed_in() {
    let call = new_call(100);
    let (call, _, _) = follow(call, key(41), FOLLOW_FEE);
    let mut ctx = AdminResolveTradeCallAll {
        trade_call: call,
        platform_state: PlatformState { admin: key(ADMIN) },
        admin: key(ADMIN),
        user_vault: UserVault { user: key(ADMIN), deposited_amount: 5, reserved_fee: 1_000_000 },
    };
    assert_eq!(resolve_trade_call_failure_all(&mut ctx), Ok(()));
    assert_eq!(ctx.user_vault.deposited_amount, 1_000_005);
    assert_eq!(ctx.user_vault.reserved_fee, 0);
    assert_eq!(ctx.trade_call.payout_per_follower, 100);
}

#[test]
fn claim_errors() {
    let call = new_call(100);
    let (call, _, _) = follow(call, key(50), FOLLOW_FEE);
    let (call, r) = claim(call, key(50), 100);
    assert_eq!(r, Err(TradeCallError::FundsNotDistributed));
    let (call, r) = fail_call(call.trade_call);
    assert_eq!(r, Ok(()));
    let (ctx, r) = claim(call, key(51), 100);
    assert_eq!(r, Err(TradeCallError::NotAFollower));
    let (ctx, r) = claim(ctx.trade_call, key(50), 99);
    assert_eq!(r, Err(TradeCallError::InsufficientFunds));
    assert!(ctx.trade_call.claimed_followers.is_empty());
    let mut full = ctx;
    full.trade_call_lamports = 100;
    full.follower_lamports = u64::MAX;
    assert_eq!(claim_follower_share(&mut full), Err(TradeCallError::ArithmeticOverflow));
    full.follower_lamports = 0;
    assert_eq!(claim_follower_share(&mut full), Ok(()));
    assert_eq!(full.trade_call.claimed_followers, vec![key(50)]);
    assert_eq!(claim_follower_share(&mut full), Err(TradeCallError::AlreadyClaimed));
    assert_eq!(full.follower_lamports, 100);
}

#[test]
fn vault_lifecycle() {
    let mut ctx = CreateUserVault { user_vault: vault(key(0), 0), user: key(60) };
    assert_eq!(create_user_vault(&mut ctx), Ok(()));
    assert_eq!(ctx.user_vault, vault(key(60), 0));
    ctx.user_vault.deposited_amount = 70;
    assert_eq!(create_user_vault(&mut ctx), Ok(()));
    assert_eq!(ctx.user_vault.deposited_amount, 70);
    let mut other = CreateUserVault { user_vault: ctx.user_vault, user: key(62) };
    assert_eq!(create_user_vault(&mut other), Ok(()));
    assert_eq!(other.user_vault, UserVault { user: key(60), deposited_amount: 70, reserved_fee: 0 });

    let mut w = WithdrawFromVault {
        user_vault: ctx.user_vault,
        user_vault_lamports: 80,
        user: key(60),
        user_lamports: 1,
    };
    assert_eq!(withdraw_from_vault(&mut w, 71), Err(TradeCallError::InsufficientDeposit));
    assert_eq!(withdraw_from_vault(&mut w, 30), Ok(()));
    assert_eq!(w.user_vault.deposited_amount, 40);
    assert_eq!(w.user_vault_lamports, 50);
    assert_eq!(w.user_lamports, 31);
    w.user_vault_lamports = 10;
    assert_eq!(withdraw_from_vault(&mut w, 20), Err(TradeCallError::InsufficientFunds));
    w.user_vault_lamports = 50;
    w.user_lamports = u64::MAX;
    assert_eq!(withdraw_from_vault(&mut w, 20), Err(TradeCallError::ArithmeticOverflow));
    assert_eq!(w.user_vault.deposited_amount, 40);
}

#[test]
fn deposit_overflow_is_refused() {
    let mut ctx = DepositToVault { user_vault: vault(key(61), u64::MAX - 1), user: key(61) };
    assert_eq!(deposit_to_vault(&mut ctx, 2), Err(TradeCallError::ArithmeticOverflow));
    assert_eq!(deposit_to_vault(&mut ctx, 1), Ok(()));
    assert_eq!(ctx.user_vault.deposited_amount, u64::MAX);
}

#[test]
fn platform_admin_is_set() {
    let mut ctx = InitializePlatform { platform_state: PlatformState { admin: key(0) }, admin: key(ADMIN) };
    assert_eq!(initialize_platform(&mut ctx), Ok(()));
    assert_eq!(ctx.platform_state.admin, key(ADMIN));
}

#[test]
fn keys_compare_by_bytes() {
    let mut b = [7u8; 32];
    assert!(key(7).same_as(&AccountKey::new(b)));
    b[31] = 8;
    assert!(!key(7).same_as(&AccountKey::new(b)));
}

#[test]
fn error_messages() {
    assert_eq!(TradeCallError::AlreadyClaimed.message(), "Already claimed");
    assert_eq!(TradeCallError::CannotFollowOwnTrade.message(), "Cannot follow your own trade call");
}
