use vstd::prelude::*;

use crate::accounts::{
    IDCounter, PlatformState, TradeCallView, TradeStatus, UserVault, FOLLOW_FEE, MAX_FOLLOWERS,
};
use crate::contexts::{
    AdminResolveTradeCall, AdminResolveTradeCallAll, ClaimFollowerShare, CreateTradeCall,
    CreateUserVault, DepositToVault, FollowTrade, InitializeIDCounter, InitializePlatform,
    WithdrawFromVault,
};
use crate::error::TradeCallError;
use crate::key::{contains_key, AccountKey};

verus! {

/// The result that an operation returns when it is refused with `e`, or
/// succeeds when `e` is `None`.
pub open spec fn as_result(e: Option<TradeCallError>) -> Result<(), TradeCallError> {
    match e {
        Some(e) => Err(e),
        None => Ok(()),
    }
}

impl IDCounter {
    /// The counter once it has issued its current value.
    pub open spec fn advanced(self) -> IDCounter {
        IDCounter { value: (self.value + 1) as u64 }
    }
}

/// A freshly created trade call.
pub open spec fn new_trade_call_view(
    id: u64,
    token_address: AccountKey,
    staked_amount: u64,
    caller: AccountKey,
    timestamp: i64,
) -> TradeCallView {
    TradeCallView {
        id,
        token_address,
        staked_amount,
        caller,
        timestamp,
        followers: Seq::empty(),
        status: TradeStatus::Active,
        is_distributed: false,
        payout_per_follower: 0,
        claimed_followers: Seq::empty(),
    }
}

/// Creates a trade call with the counter's next identifier, staked by the
/// authority. Moving the stake into the call's escrow is the ledger's part.
pub fn create_trade_call(
    ctx: &mut CreateTradeCall,
    token_address: AccountKey,
    stake_amount: u64,
    timestamp: i64,
) -> (r: Result<(), TradeCallError>)
    ensures
        old(ctx).id_counter.value == u64::MAX ==> r == Err::<(), _>(
            TradeCallError::ArithmeticOverflow,
        ),
        old(ctx).id_counter.value < u64::MAX ==> r is Ok,
        r is Ok ==> {
            &&& final(ctx).trade_call@ == new_trade_call_view(
                old(ctx).id_counter.value,
                token_address,
                stake_amount,
                old(ctx).authority,
                timestamp,
            )
            &&& final(ctx).id_counter == old(ctx).id_counter.advanced()
            &&& final(ctx).authority == old(ctx).authority
        },
        r is Err ==> *final(ctx) == *old(ctx),
        old(ctx).id_counter.wf() && r is Ok ==> final(ctx).trade_call@.wf()
            && final(ctx).id_counter.wf(),
{
    if ctx.id_counter.value == u64::MAX {
        return Err(TradeCallError::ArithmeticOverflow);
    }
    let trade_call = &mut ctx.trade_call;
    trade_call.id = ctx.id_counter.value;
    trade_call.token_address = token_address;
    trade_call.staked_amount = stake_amount;
    trade_call.caller = ctx.authority;
    trade_call.timestamp = timestamp;
    trade_call.followers = Vec::new();
    trade_call.status = TradeStatus::Active;
    trade_call.is_distributed = false;
    trade_call.payout_per_follower = 0;
    trade_call.claimed_followers = Vec::new();
    ctx.id_counter.value = ctx.id_counter.value + 1;
    assert(ctx.trade_call@.followers =~= Seq::empty());
    assert(ctx.trade_call@.claimed_followers =~= Seq::empty());
    Ok(())
}

/// Why `follower` may not join `call` with `vault`, if it may not.
pub open spec fn follow_error(call: TradeCallView, vault: UserVault, follower: AccountKey) -> Option<
    TradeCallError,
> {
    if follower == call.caller {
        Some(TradeCallError::CannotFollowOwnTrade)
    } else if call.status != TradeStatus::Active {
        Some(TradeCallError::TradeCallNotActive)
    } else if call.followers.contains(follower) {
        Some(TradeCallError::AlreadyFollowing)
    } else if vault.deposited_amount < FOLLOW_FEE {
        Some(TradeCallError::InsufficientDeposit)
    } else if vault.reserved_fee + FOLLOW_FEE > u64::MAX {
        Some(TradeCallError::ArithmeticOverflow)
    } else if call.followers.len() >= MAX_FOLLOWERS {
        Some(TradeCallError::CapacityExceeded)
    } else {
        None
    }
}

/// The follower joins an active trade call, reserving the follow fee from
/// its vault.
pub fn follow_trade(ctx: &mut FollowTrade) -> (r: Result<(), TradeCallError>)
    ensures
        r == as_result(follow_error(old(ctx).trade_call@, old(ctx).user_vault, old(ctx).follower)),
        r is Ok ==> {
            &&& final(ctx).trade_call@ == (TradeCallView {
                followers: old(ctx).trade_call@.followers.push(old(ctx).follower),
                ..old(ctx).trade_call@
            })
            &&& final(ctx).user_vault == (UserVault {
                deposited_amount: (old(ctx).user_vault.deposited_amount - FOLLOW_FEE) as u64,
                reserved_fee: (old(ctx).user_vault.reserved_fee + FOLLOW_FEE) as u64,
                ..old(ctx).user_vault
            })
            &&& final(ctx).follower == old(ctx).follower
        },
        r is Err ==> *final(ctx) == *old(ctx),
        old(ctx).trade_call@.wf() ==> final(ctx).trade_call@.wf(),
        old(ctx).follower == old(ctx).trade_call.caller ==> r == Err::<(), _>(
            TradeCallError::CannotFollowOwnTrade,
        ),
{
    if ctx.trade_call.caller.same_as(&ctx.follower) {
        return Err(TradeCallError::CannotFollowOwnTrade);
    }
    if ctx.trade_call.status != TradeStatus::Active {
        return Err(TradeCallError::TradeCallNotActive);
    }
    if contains_key(&ctx.trade_call.followers, &ctx.follower) {
        return Err(TradeCallError::AlreadyFollowing);
    }
    if ctx.user_vault.deposited_amount < FOLLOW_FEE {
        return Err(TradeCallError::InsufficientDeposit);
    }
    if ctx.user_vault.reserved_fee > u64::MAX - FOLLOW_FEE {
        return Err(TradeCallError::ArithmeticOverflow);
    }
    if ctx.trade_call.followers.len() >= MAX_FOLLOWERS {
        return Err(TradeCallError::CapacityExceeded);
    }
    match ctx.user_vault.reserve_fee(FOLLOW_FEE) {
        Ok(()) => {},
        Err(e) => {
            return Err(e);
        },
    }
    let follower = ctx.follower;
    ctx.trade_call.followers.push(follower);
    proof {
        let before = old(ctx).trade_call@;
        let after = ctx.trade_call@;
        assert(after.followers == before.followers.push(follower));
        if before.wf() {
            lemma_push_keeps_wf(before, after, follower);
        }
    }
    Ok(())
}

/// Adding a new follower other than the caller to an active, well-formed
/// call keeps it well-formed.
proof fn lemma_push_keeps_wf(before: TradeCallView, after: TradeCallView, follower: AccountKey)
    requires
        before.wf(),
        before.status == TradeStatus::Active,
        follower != before.caller,
        !before.followers.contains(follower),
        before.followers.len() < MAX_FOLLOWERS,
        after == (TradeCallView { followers: before.followers.push(follower), ..before }),
    ensures
        after.wf(),
{
    assert forall|k: AccountKey| #[trigger]
        after.claimed_followers.contains(k) implies after.followers.contains(k) by {
        if before.followers.contains(k) {
            let j = choose|j: int| 0 <= j < before.followers.len() && before.followers[j] == k;
            assert(after.followers[j] == k);
        }
    }
    assert(!after.followers.contains(after.caller)) by {
        if after.followers.contains(after.caller) {
            let j = choose|j: int|
                0 <= j < after.followers.len() && after.followers[j] == after.caller;
            if j < before.followers.len() {
                assert(before.followers[j] == after.caller);
            }
        }
    }
    assert(after.followers.no_duplicates()) by {
        assert forall|i: int, j: int|
            0 <= i < after.followers.len() && 0 <= j < after.followers.len() && i != j
            implies after.followers[i] != after.followers[j] by {
            if i == before.followers.len() as int && j < before.followers.len() {
                assert(before.followers[j] == after.followers[j]);
            } else if j == before.followers.len() as int && i < before.followers.len() {
                assert(before.followers[i] == after.followers[i]);
            }
        }
    }
}

/// Why `admin` may not resolve `call`, if it may not: only the platform's
/// admin resolves, and only an active call.
pub open spec fn resolution_error(
    platform: PlatformState,
    admin: AccountKey,
    call: TradeCallView,
) -> Option<TradeCallError> {
    if platform.admin != admin {
        Some(TradeCallError::NotAuthorized)
    } else if call.status != TradeStatus::Active {
        Some(TradeCallError::TradeCallAlreadyResolved)
    } else {
        None
    }
}

/// Why the call in `ctx` may not be resolved as successful, if it may not.
pub open spec fn resolve_success_error(ctx: AdminResolveTradeCall) -> Option<TradeCallError> {
    let call = ctx.trade_call@;
    let half_fee = ctx.user_vault.reserved_fee / 2;
    if resolution_error(ctx.platform_state, ctx.admin, call) is Some {
        resolution_error(ctx.platform_state, ctx.admin, call)
    } else if ctx.trade_call_lamports < call.staked_amount {
        Some(TradeCallError::InsufficientFunds)
    } else if ctx.user_vault_lamports < half_fee {
        Some(TradeCallError::InsufficientFunds)
    } else if ctx.caller_lamports + half_fee + call.staked_amount > u64::MAX {
        Some(TradeCallError::ArithmeticOverflow)
    } else {
        None
    }
}

/// The admin resolves the call as successful: the stake goes back from the
/// escrow to the caller, and half of the fee reserved in the caller's vault is
/// paid to the caller while the whole reserved fee is cleared.
pub fn resolve_trade_call_success(ctx: &mut AdminResolveTradeCall) -> (r: Result<(), TradeCallError>)
    ensures
        r == as_result(resolve_success_error(*old(ctx))),
        r is Ok ==> {
            let half_fee = old(ctx).user_vault.reserved_fee / 2;
            let staked = old(ctx).trade_call.staked_amount;
            &&& final(ctx).trade_call@ == (TradeCallView {
                status: TradeStatus::Successful,
                ..old(ctx).trade_call@
            })
            &&& final(ctx).trade_call_lamports == old(ctx).trade_call_lamports - staked
            &&& final(ctx).caller_lamports == old(ctx).caller_lamports + half_fee + staked
            &&& final(ctx).user_vault == (UserVault { reserved_fee: 0, ..old(ctx).user_vault })
            &&& final(ctx).user_vault_lamports == old(ctx).user_vault_lamports - half_fee
            &&& final(ctx).platform_state == old(ctx).platform_state
            &&& final(ctx).admin == old(ctx).admin
        },
        r is Err ==> *final(ctx) == *old(ctx),
        old(ctx).trade_call@.wf() ==> final(ctx).trade_call@.wf(),
{
    if !ctx.platform_state.admin.same_as(&ctx.admin) {
        return Err(TradeCallError::NotAuthorized);
    }
    if ctx.trade_call.status != TradeStatus::Active {
        return Err(TradeCallError::TradeCallAlreadyResolved);
    }
    let staked_amount = ctx.trade_call.staked_amount;
    if ctx.trade_call_lamports < staked_amount {
        return Err(TradeCallError::InsufficientFunds);
    }
    let half_fee = ctx.user_vault.reserved_fee / 2;
    if ctx.user_vault_lamports < half_fee {
        return Err(TradeCallError::InsufficientFunds);
    }
    if ctx.caller_lamports > u64::MAX - half_fee || ctx.caller_lamports + half_fee > u64::MAX
        - staked_amount {
        return Err(TradeCallError::ArithmeticOverflow);
    }
    ctx.trade_call.status = TradeStatus::Successful;
    ctx.user_vault_lamports = ctx.user_vault_lamports - half_fee;
    ctx.caller_lamports = ctx.caller_lamports + half_fee;
    ctx.user_vault.reserved_fee = 0;
    ctx.trade_call_lamports = ctx.trade_call_lamports - staked_amount;
    ctx.caller_lamports = ctx.caller_lamports + staked_amount;
    Ok(())
}

/// Why the call in `ctx` may not be resolved as failed, if it may not.
pub open spec fn resolve_failure_error(ctx: AdminResolveTradeCallAll) -> Option<TradeCallError> {
    let call = ctx.trade_call@;
    if resolution_error(ctx.platform_state, ctx.admin, call) is Some {
        resolution_error(ctx.platform_state, ctx.admin, call)
    } else if call.followers.len() == 0 {
        Some(TradeCallError::NoFollowers)
    } else if ctx.user_vault.deposited_amount + ctx.user_vault.reserved_fee > u64::MAX {
        Some(TradeCallError::ArithmeticOverflow)
    } else {
        None
    }
}

/// The admin resolves the call as failed: each follower becomes entitled to
/// an equal share of the stake, rounded down, and the remainder stays in the
/// escrow. Nothing is paid here; followers claim their shares.
///
/// The fee reserved in the vault handed in (the admin's own, as the accounts
/// are laid out) goes back to that vault's spendable balance. Fees reserved
/// by the followers stay reserved.
pub fn resolve_trade_call_failure_all(ctx: &mut AdminResolveTradeCallAll) -> (r: Result<
    (),
    TradeCallError,
>)
    ensures
        r == as_result(resolve_failure_error(*old(ctx))),
        r is Ok ==> {
            let call = old(ctx).trade_call@;
            let vault = old(ctx).user_vault;
            let n = call.followers.len() as int;
            let share = final(ctx).trade_call.payout_per_follower as int;
            &&& final(ctx).trade_call@ == (TradeCallView {
                status: TradeStatus::Failed,
                payout_per_follower: (call.staked_amount / (call.followers.len() as u64)) as u64,
                is_distributed: true,
                ..call
            })
            &&& share * n + (call.staked_amount as int) % n == call.staked_amount as int
            &&& (call.staked_amount as int) % n < n
            &&& final(ctx).user_vault == (UserVault {
                deposited_amount: (vault.deposited_amount + vault.reserved_fee) as u64,
                reserved_fee: 0,
                ..vault
            })
            &&& final(ctx).platform_state == old(ctx).platform_state
            &&& final(ctx).admin == old(ctx).admin
        },
        r is Err ==> *final(ctx) == *old(ctx),
        old(ctx).trade_call@.wf() ==> final(ctx).trade_call@.wf(),
{
    if !ctx.platform_state.admin.same_as(&ctx.admin) {
        return Err(TradeCallError::NotAuthorized);
    }
    if ctx.trade_call.status != TradeStatus::Active {
        return Err(TradeCallError::TradeCallAlreadyResolved);
    }
    let follower_count = ctx.trade_call.followers.len();
    if follower_count == 0 {
        return Err(TradeCallError::NoFollowers);
    }
    match ctx.user_vault.release_reserved_to_balance() {
        Ok(()) => {},
        Err(e) => {
            return Err(e);
        },
    }
    let payout_per_follower = ctx.trade_call.staked_amount / (follower_count as u64);
    ctx.trade_call.status = TradeStatus::Failed;
    ctx.trade_call.payout_per_follower = payout_per_follower;
    ctx.trade_call.is_distributed = true;
    proof {
        let n = follower_count as int;
        let staked = ctx.trade_call.staked_amount as int;
        vstd::arithmetic::div_mod::lemma_fundamental_div_mod(staked, n);
        assert(payout_per_follower as int == staked / n);
        assert((payout_per_follower as int) * n == n * (staked / n)) by (nonlinear_arith)
            requires
                payout_per_follower as int == staked / n,
        ;
    }
    Ok(())
}

/// Why `follower` may not claim a share of `call`, paid from an escrow
/// holding `escrow_lamports` to a balance of `follower_lamports`.
pub open spec fn claim_error(
    call: TradeCallView,
    follower: AccountKey,
    escrow_lamports: u64,
    follower_lamports: u64,
) -> Option<TradeCallError> {
    if !(call.status == TradeStatus::Failed && call.is_distributed) {
        Some(TradeCallError::FundsNotDistributed)
    } else if !call.followers.contains(follower) {
        Some(TradeCallError::NotAFollower)
    } else if call.claimed_followers.contains(follower) {
        Some(TradeCallError::AlreadyClaimed)
    } else if call.claimed_followers.len() >= MAX_FOLLOWERS {
        Some(TradeCallError::CapacityExceeded)
    } else if escrow_lamports < call.payout_per_follower {
        Some(TradeCallError::InsufficientFunds)
    } else if follower_lamports + call.payout_per_follower > u64::MAX {
        Some(TradeCallError::ArithmeticOverflow)
    } else {
        None
    }
}

/// `call` once `follower` has claimed its share.
pub open spec fn claimed_by(call: TradeCallView, follower: AccountKey) -> TradeCallView {
    TradeCallView { claimed_followers: call.claimed_followers.push(follower), ..call }
}

/// A follower of a failed call takes its share out of the escrow, once.
pub fn claim_follower_share(ctx: &mut ClaimFollowerShare) -> (r: Result<(), TradeCallError>)
    ensures
        r == as_result(
            claim_error(
                old(ctx).trade_call@,
                old(ctx).follower,
                old(ctx).trade_call_lamports,
                old(ctx).follower_lamports,
            ),
        ),
        r is Ok ==> {
            let payout = old(ctx).trade_call.payout_per_follower;
            &&& final(ctx).trade_call@ == claimed_by(old(ctx).trade_call@, old(ctx).follower)
            &&& final(ctx).trade_call_lamports == old(ctx).trade_call_lamports - payout
            &&& final(ctx).follower_lamports == old(ctx).follower_lamports + payout
            &&& final(ctx).follower == old(ctx).follower
        },
        r is Err ==> *final(ctx) == *old(ctx),
        old(ctx).trade_call@.wf() ==> final(ctx).trade_call@.wf(),
{
    if !(ctx.trade_call.status == TradeStatus::Failed && ctx.trade_call.is_distributed) {
        return Err(TradeCallError::FundsNotDistributed);
    }
    if !contains_key(&ctx.trade_call.followers, &ctx.follower) {
        return Err(TradeCallError::NotAFollower);
    }
    if contains_key(&ctx.trade_call.claimed_followers, &ctx.follower) {
        return Err(TradeCallError::AlreadyClaimed);
    }
    if ctx.trade_call.claimed_followers.len() >= MAX_FOLLOWERS {
        return Err(TradeCallError::CapacityExceeded);
    }
    let payout_amount = ctx.trade_call.payout_per_follower;
    if ctx.trade_call_lamports < payout_amount {
        return Err(TradeCallError::InsufficientFunds);
    }
    if ctx.follower_lamports > u64::MAX - payout_amount {
        return Err(TradeCallError::ArithmeticOverflow);
    }
    ctx.trade_call_lamports = ctx.trade_call_lamports - payout_amount;
    ctx.follower_lamports = ctx.follower_lamports + payout_amount;
    let follower = ctx.follower;
    ctx.trade_call.claimed_followers.push(follower);
    proof {
        let before = old(ctx).trade_call@;
        assert(ctx.trade_call@ == claimed_by(before, follower));
        if before.wf() {
            lemma_claim_keeps_wf(before, follower);
        }
    }
    Ok(())
}

/// Recording the claim of a follower that has not claimed yet keeps a
/// failed, well-formed call well-formed.
proof fn lemma_claim_keeps_wf(before: TradeCallView, follower: AccountKey)
    requires
        before.wf(),
        before.status == TradeStatus::Failed,
        before.followers.contains(follower),
        !before.claimed_followers.contains(follower),
    ensures
        claimed_by(before, follower).wf(),
{
    let after = claimed_by(before, follower);
    assert forall|k: AccountKey| #[trigger]
        after.claimed_followers.contains(k) implies after.followers.contains(k) by {
        let j = choose|j: int|
            0 <= j < after.claimed_followers.len() && after.claimed_followers[j] == k;
        if j < before.claimed_followers.len() {
            assert(before.claimed_followers[j] == k);
            assert(before.claimed_followers.contains(k));
        }
    }
    assert(after.claimed_followers.no_duplicates()) by {
        let c = before.claimed_followers;
        let d = after.claimed_followers;
        assert forall|i: int, j: int| 0 <= i < d.len() && 0 <= j < d.len() && i != j implies d[i]
            != d[j] by {
            if i == c.len() as int && j < c.len() {
                assert(c[j] == d[j]);
            } else if j == c.len() as int && i < c.len() {
                assert(c[i] == d[i]);
            }
        }
    }
}

/// Makes the signer the platform's admin. This overwrites any admin set
/// before: that the admin is set only once rests on the platform account being
/// created here and never again, which the account layer enforces.
pub fn initialize_platform(ctx: &mut InitializePlatform) -> (r: Result<(), TradeCallError>)
    ensures
        r is Ok,
        final(ctx).platform_state == (PlatformState { admin: old(ctx).admin }),
        final(ctx).admin == old(ctx).admin,
{
    ctx.platform_state.admin = ctx.admin;
    Ok(())
}

/// The counter as it stands before any trade call was created.
pub open spec fn initial_id_counter() -> IDCounter {
    IDCounter { value: 1 }
}

/// Sets the identifier counter to its first value. This resets any counter
/// handed in: that identifiers are never reused rests on the counter account
/// being created here and never again, which the account layer enforces.
pub fn initialize_id_counter(ctx: &mut InitializeIDCounter) -> (r: Result<(), TradeCallError>)
    ensures
        r is Ok,
        final(ctx).id_counter == initial_id_counter(),
        final(ctx).platform_state == old(ctx).platform_state,
        final(ctx).authority == old(ctx).authority,
        final(ctx).id_counter.wf(),
{
    ctx.id_counter.value = 1;
    Ok(())
}

/// Whether `vault` holds no funds at all.
pub open spec fn is_empty_vault(vault: UserVault) -> bool {
    vault.deposited_amount == 0 && vault.reserved_fee == 0
}

/// Opens the vault of `ctx.user` with nothing in it. A vault that already
/// belongs to that user, or that holds funds, is left as it is: balances are
/// never overwritten.
pub fn create_user_vault(ctx: &mut CreateUserVault) -> (r: Result<(), TradeCallError>)
    ensures
        r is Ok,
        old(ctx).user_vault.user == old(ctx).user || !is_empty_vault(old(ctx).user_vault)
            ==> *final(ctx) == *old(ctx),
        old(ctx).user_vault.user != old(ctx).user && is_empty_vault(old(ctx).user_vault)
            ==> final(ctx).user_vault == (UserVault {
            user: old(ctx).user,
            deposited_amount: 0,
            reserved_fee: 0,
        }),
        final(ctx).user == old(ctx).user,
{
    if ctx.user_vault.user.same_as(&ctx.user) || ctx.user_vault.deposited_amount != 0
        || ctx.user_vault.reserved_fee != 0 {
        return Ok(());
    }
    ctx.user_vault.user = ctx.user;
    Ok(())
}

/// Credits `amount` to the vault's spendable balance. Moving the funds into
/// the vault's account is the ledger's part.
pub fn deposit_to_vault(ctx: &mut DepositToVault, amount: u64) -> (r: Result<(), TradeCallError>)
    ensures
        old(ctx).user_vault.deposited_amount + amount > u64::MAX ==> r == Err::<(), _>(
            TradeCallError::ArithmeticOverflow,
        ),
        old(ctx).user_vault.deposited_amount + amount <= u64::MAX ==> r is Ok,
        r is Ok ==> final(ctx).user_vault == (UserVault {
            deposited_amount: (old(ctx).user_vault.deposited_amount + amount) as u64,
            ..old(ctx).user_vault
        }),
        r is Err ==> *final(ctx) == *old(ctx),
        final(ctx).user == old(ctx).user,
{
    if ctx.user_vault.deposited_amount > u64::MAX - amount {
        return Err(TradeCallError::ArithmeticOverflow);
    }
    ctx.user_vault.deposited_amount = ctx.user_vault.deposited_amount + amount;
    Ok(())
}

/// Why `amount` may not be withdrawn with the accounts in `ctx`.
pub open spec fn withdraw_error(ctx: WithdrawFromVault, amount: u64) -> Option<TradeCallError> {
    if ctx.user_vault.deposited_amount < amount {
        Some(TradeCallError::InsufficientDeposit)
    } else if ctx.user_vault_lamports < amount {
        Some(TradeCallError::InsufficientFunds)
    } else if ctx.user_lamports + amount > u64::MAX {
        Some(TradeCallError::ArithmeticOverflow)
    } else {
        None
    }
}

/// Pays `amount` of the vault's spendable balance out to its owner.
pub fn withdraw_from_vault(ctx: &mut WithdrawFromVault, amount: u64) -> (r: Result<
    (),
    TradeCallError,
>)
    ensures
        r == as_result(withdraw_error(*old(ctx), amount)),
        r is Ok ==> *final(ctx) == (WithdrawFromVault {
            user_vault: UserVault {
                deposited_amount: (old(ctx).user_vault.deposited_amount - amount) as u64,
                ..old(ctx).user_vault
            },
            user_vault_lamports: (old(ctx).user_vault_lamports - amount) as u64,
            user_lamports: (old(ctx).user_lamports + amount) as u64,
            ..*old(ctx)
        }),
        r is Err ==> *final(ctx) == *old(ctx),
{
    if ctx.user_vault.deposited_amount < amount {
        return Err(TradeCallError::InsufficientDeposit);
    }
    if ctx.user_vault_lamports < amount {
        return Err(TradeCallError::InsufficientFunds);
    }
    if ctx.user_lamports > u64::MAX - amount {
        return Err(TradeCallError::ArithmeticOverflow);
    }
    ctx.user_vault_lamports = ctx.user_vault_lamports - amount;
    ctx.user_lamports = ctx.user_lamports + amount;
    ctx.user_vault.deposited_amount = ctx.user_vault.deposited_amount - amount;
    Ok(())
}

} // verus!
