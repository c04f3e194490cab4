use vstd::prelude::*;

use crate::accounts::{IDCounter, TradeCallView, TradeStatus};
use crate::contexts::{AdminResolveTradeCall, AdminResolveTradeCallAll};
use crate::error::TradeCallError;
use crate::key::AccountKey;
use crate::trade_call_platform::{
    claim_error, claimed_by, initial_id_counter, resolve_failure_error, resolve_success_error,
};

verus! {

/// In a well-formed call, nobody claims who does not follow, so there are
/// never more claims than followers.
pub proof fn lemma_claims_within_followers(call: TradeCallView)
    requires
        call.wf(),
    ensures
        call.claimed_followers.len() <= call.followers.len(),
{
    broadcast use vstd::seq_lib::seq_to_set_is_finite;

    call.claimed_followers.unique_seq_to_set();
    call.followers.unique_seq_to_set();
    assert(call.claimed_followers.to_set().subset_of(call.followers.to_set()));
    vstd::set_lib::lemma_len_subset(call.claimed_followers.to_set(), call.followers.to_set());
}

/// Funds are conserved on a failed call: the stake is exactly the shares
/// already paid to the followers that claimed, plus the shares still owed to
/// those that have not, plus the remainder of the equal split, which no claim
/// ever takes. Once every follower has claimed, what the claims paid and the
/// remainder left in escrow add up to the stake.
pub proof fn lemma_fund_conservation(call: TradeCallView)
    requires
        call.wf(),
        call.status == TradeStatus::Failed,
    ensures
        ({
            let n = call.followers.len() as int;
            let c = call.claimed_followers.len() as int;
            let share = call.payout_per_follower as int;
            let staked = call.staked_amount as int;
            &&& c <= n
            &&& staked == share * c + share * (n - c) + staked % n
            &&& c == n ==> staked == share * c + staked % n
        }),
{
    lemma_claims_within_followers(call);
    let n = call.followers.len();
    let c = call.claimed_followers.len();
    let share = call.payout_per_follower as int;
    let staked = call.staked_amount as int;
    assert(share == staked / (n as int));
    vstd::arithmetic::div_mod::lemma_fundamental_div_mod(staked, n as int);
    assert(share * c + share * (n - c) == share * n) by (nonlinear_arith);
    assert(staked == (n as int) * (staked / (n as int)) + staked % (n as int));
    assert(share * n == (n as int) * share) by (nonlinear_arith);
}

/// A follower's share is paid at most once: right after a claim succeeds,
/// the same follower's next claim on the call is refused as already claimed,
/// whatever the balances then are.
pub proof fn lemma_claim_at_most_once(
    call: TradeCallView,
    follower: AccountKey,
    escrow_lamports: u64,
    follower_lamports: u64,
    next_escrow_lamports: u64,
    next_follower_lamports: u64,
)
    requires
        claim_error(call, follower, escrow_lamports, follower_lamports) is None,
    ensures
        claim_error(
            claimed_by(call, follower),
            follower,
            next_escrow_lamports,
            next_follower_lamports,
        ) == Some(TradeCallError::AlreadyClaimed),
{
    let after = claimed_by(call, follower);
    assert(after.claimed_followers[call.claimed_followers.len() as int] == follower);
    assert(after.claimed_followers.contains(follower));
}

/// Resolution is final: once a call is successful or failed, the admin's
/// every further attempt to resolve it, either way, is refused as already
/// resolved.
pub proof fn lemma_resolution_is_final(
    success: AdminResolveTradeCall,
    failure: AdminResolveTradeCallAll,
)
    requires
        success.trade_call.status != TradeStatus::Active,
        success.platform_state.admin == success.admin,
        failure.trade_call.status != TradeStatus::Active,
        failure.platform_state.admin == failure.admin,
    ensures
        resolve_success_error(success) == Some(TradeCallError::TradeCallAlreadyResolved),
        resolve_failure_error(failure) == Some(TradeCallError::TradeCallAlreadyResolved),
{
}

/// The counter after it was initialized and `n` trade calls were created.
pub open spec fn counter_after(n: nat) -> IDCounter
    decreases n,
{
    if n == 0 {
        initial_id_counter()
    } else {
        counter_after((n - 1) as nat).advanced()
    }
}

/// Identifiers start at one and strictly increase: the `n`-th trade call
/// created after the counter is initialized (counting from zero) gets the
/// identifier `n + 1`, so of two calls the later one has the larger one.
pub proof fn lemma_identifiers_increase(m: nat, n: nat)
    requires
        m < n,
        n < u64::MAX,
    ensures
        counter_after(0).value == 1,
        counter_after(n).value == n + 1,
        counter_after(m).value < counter_after(n).value,
    decreases n,
{
    if m + 1 < n {
        lemma_identifiers_increase(m, (n - 1) as nat);
    } else if m > 0 {
        lemma_identifiers_increase((m - 1) as nat, m);
    }
}

/// The remainder of the equal split stays in escrow for good: once every
/// follower of a failed call has claimed, every further claim is refused,
/// whoever makes it and whatever the balances, so nothing more leaves the
/// escrow.
pub proof fn lemma_remainder_stays_in_escrow(
    call: TradeCallView,
    claimant: AccountKey,
    escrow_lamports: u64,
    claimant_lamports: u64,
)
    requires
        call.wf(),
        call.status == TradeStatus::Failed,
        call.claimed_followers.len() == call.followers.len(),
    ensures
        claim_error(call, claimant, escrow_lamports, claimant_lamports) is Some,
{
    broadcast use vstd::seq_lib::seq_to_set_is_finite;

    call.claimed_followers.unique_seq_to_set();
    call.followers.unique_seq_to_set();
    let claimed = call.claimed_followers.to_set();
    let followers = call.followers.to_set();
    assert(claimed.subset_of(followers));
    vstd::set_lib::lemma_subset_equality(claimed, followers);
    if call.followers.contains(claimant) {
        assert(followers.contains(claimant));
        assert(claimed.contains(claimant));
    }
}

} // verus!
