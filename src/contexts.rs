use vstd::prelude::*;

use crate::accounts::{IDCounter, PlatformState, TradeCall, UserVault};
use crate::key::AccountKey;

verus! {

// Each operation works on the accounts that it reads or writes, gathered in
// one of these. A `*_lamports` field is the balance held by that account on
// the ledger; the operation moves funds by changing these balances.

/// Accounts for setting the platform's admin.
#[derive(Clone, Copy, Debug)]
pub struct InitializePlatform {
    pub platform_state: PlatformState,
    pub admin: AccountKey,
}

/// Accounts for (re)starting the identifier counter.
#[derive(Clone, Copy, Debug)]
pub struct InitializeIDCounter {
    pub id_counter: IDCounter,
    pub platform_state: Option<PlatformState>,
    pub authority: AccountKey,
}

/// Accounts for opening a participant's vault.
#[derive(Clone, Copy, Debug)]
pub struct CreateUserVault {
    pub user_vault: UserVault,
    pub user: AccountKey,
}

/// Accounts for crediting a deposit to a vault.
#[derive(Clone, Copy, Debug)]
pub struct DepositToVault {
    pub user_vault: UserVault,
    pub user: AccountKey,
}

/// Accounts for creating a trade call; `trade_call` is overwritten.
#[derive(Clone, Debug)]
pub struct CreateTradeCall {
    pub trade_call: TradeCall,
    pub id_counter: IDCounter,
    pub authority: AccountKey,
}

/// Accounts for joining a trade call as a follower.
#[derive(Clone, Debug)]
pub struct FollowTrade {
    pub trade_call: TradeCall,
    pub user_vault: UserVault,
    pub follower: AccountKey,
}

/// Accounts for resolving a trade call as successful: the call's escrow, the
/// caller's balance and the caller's vault.
#[derive(Clone, Debug)]
pub struct AdminResolveTradeCall {
    pub trade_call: TradeCall,
    pub trade_call_lamports: u64,
    pub platform_state: PlatformState,
    pub admin: AccountKey,
    pub caller_lamports: u64,
    pub user_vault: UserVault,
    pub user_vault_lamports: u64,
}

/// Accounts for resolving a trade call as failed, with the admin's vault.
#[derive(Clone, Debug)]
pub struct AdminResolveTradeCallAll {
    pub trade_call: TradeCall,
    pub platform_state: PlatformState,
    pub admin: AccountKey,
    pub user_vault: UserVault,
}

/// Accounts for a follower's claim on a failed trade call.
#[derive(Clone, Debug)]
pub struct ClaimFollowerShare {
    pub trade_call: TradeCall,
    pub trade_call_lamports: u64,
    pub follower: AccountKey,
    pub follower_lamports: u64,
}

/// Accounts for paying a vault's spendable balance out to its owner.
#[derive(Clone, Copy, Debug)]
pub struct WithdrawFromVault {
    pub user_vault: UserVault,
    pub user_vault_lamports: u64,
    pub user: AccountKey,
    pub user_lamports: u64,
}

} // verus!
