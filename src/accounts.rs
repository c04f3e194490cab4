use vstd::prelude::*;

use crate::error::TradeCallError;
use crate::key::AccountKey;

verus! {

/// The fee that a follower reserves from its vault to join a trade call.
pub const FOLLOW_FEE: u64 = 1_000_000;

/// How many followers (and so how many claims) one trade call can hold.
pub const MAX_FOLLOWERS: usize = 10;

/// The platform's settings: the one identity allowed to resolve trade calls.
#[derive(Clone, Copy, Debug, PartialEq, Eq)]
pub struct PlatformState {
    pub admin: AccountKey,
}

/// Source of trade call identifiers.
#[derive(Clone, Copy, Debug, PartialEq, Eq, Structural)]
pub struct IDCounter {
    pub value: u64,
}

impl IDCounter {
    /// An issued counter starts at one and only grows.
    pub open spec fn wf(self) -> bool {
        self.value >= 1
    }
}

/// A participant's balances: what it may spend or withdraw, and what it has
/// set aside while following trade calls. The two never overlap.
#[derive(Clone, Copy, Debug, PartialEq, Eq)]
pub struct UserVault {
    pub user: AccountKey,
    pub deposited_amount: u64,
    pub reserved_fee: u64,
}

impl UserVault {
    /// Moves `amount` from the spendable balance to the reserved fee.
    pub fn reserve_fee(&mut self, amount: u64) -> (r: Result<(), TradeCallError>)
        ensures
            old(self).deposited_amount < amount ==> r == Err::<(), _>(
                TradeCallError::InsufficientDeposit,
            ),
            old(self).deposited_amount >= amount && old(self).reserved_fee + amount > u64::MAX
                ==> r == Err::<(), _>(TradeCallError::ArithmeticOverflow),
            old(self).deposited_amount >= amount && old(self).reserved_fee + amount <= u64::MAX
                ==> r is Ok,
            r is Ok ==> *final(self) == (UserVault {
                deposited_amount: (old(self).deposited_amount - amount) as u64,
                reserved_fee: (old(self).reserved_fee + amount) as u64,
                ..*old(self)
            }),
            r is Err ==> *final(self) == *old(self),
    {
        if self.deposited_amount < amount {
            return Err(TradeCallError::InsufficientDeposit);
        }
        if self.reserved_fee > u64::MAX - amount {
            return Err(TradeCallError::ArithmeticOverflow);
        }
        self.deposited_amount = self.deposited_amount - amount;
        self.reserved_fee = self.reserved_fee + amount;
        Ok(())
    }

    /// Moves the whole reserved fee back into the spendable balance.
    pub fn release_reserved_to_balance(&mut self) -> (r: Result<(), TradeCallError>)
        ensures
            old(self).deposited_amount + old(self).reserved_fee > u64::MAX ==> r == Err::<(), _>(
                TradeCallError::ArithmeticOverflow,
            ),
            old(self).deposited_amount + old(self).reserved_fee <= u64::MAX ==> r is Ok,
            r is Ok ==> *final(self) == (UserVault {
                deposited_amount: (old(self).deposited_amount + old(self).reserved_fee) as u64,
                reserved_fee: 0,
                ..*old(self)
            }),
            r is Err ==> *final(self) == *old(self),
    {
        if self.deposited_amount > u64::MAX - self.reserved_fee {
            return Err(TradeCallError::ArithmeticOverflow);
        }
        self.deposited_amount = self.deposited_amount + self.reserved_fee;
        self.reserved_fee = 0;
        Ok(())
    }
}

/// Where a trade call stands. `Successful` and `Failed` are final.
#[derive(Clone, Copy, Debug, PartialEq, Eq, Structural)]
pub enum TradeStatus {
    Active,
    Successful,
    Failed,
}

/// A staked prediction on a token, with the followers that joined it and the
/// bookkeeping of its settlement.
#[derive(Clone, Debug, PartialEq, Eq)]
pub struct TradeCall {
    pub id: u64,
    pub token_address: AccountKey,
    pub staked_amount: u64,
    pub caller: AccountKey,
    pub timestamp: i64,
    pub followers: Vec<AccountKey>,
    pub status: TradeStatus,
    pub is_distributed: bool,
    pub payout_per_follower: u64,
    pub claimed_followers: Vec<AccountKey>,
}

/// The mathematical content of a [`TradeCall`].
pub struct TradeCallView {
    pub id: u64,
    pub token_address: AccountKey,
    pub staked_amount: u64,
    pub caller: AccountKey,
    pub timestamp: i64,
    pub followers: Seq<AccountKey>,
    pub status: TradeStatus,
    pub is_distributed: bool,
    pub payout_per_follower: u64,
    pub claimed_followers: Seq<AccountKey>,
}

impl View for TradeCall {
    type V = TradeCallView;

    open spec fn view(&self) -> TradeCallView {
        TradeCallView {
            id: self.id,
            token_address: self.token_address,
            staked_amount: self.staked_amount,
            caller: self.caller,
            timestamp: self.timestamp,
            followers: self.followers@,
            status: self.status,
            is_distributed: self.is_distributed,
            payout_per_follower: self.payout_per_follower,
            claimed_followers: self.claimed_followers@,
        }
    }
}

impl TradeCallView {
    /// The invariant of a trade call: the caller never follows itself,
    /// nobody follows or claims twice, only followers claim, and the payout
    /// is fixed exactly when the call fails.
    pub open spec fn wf(self) -> bool {
        &&& self.id >= 1
        &&& !self.followers.contains(self.caller)
        &&& self.followers.no_duplicates()
        &&& self.followers.len() <= MAX_FOLLOWERS
        &&& self.claimed_followers.no_duplicates()
        &&& forall|k: AccountKey| #[trigger]
            self.claimed_followers.contains(k) ==> self.followers.contains(k)
        &&& self.status == TradeStatus::Failed <==> self.is_distributed
        &&& self.status != TradeStatus::Failed ==> {
            &&& self.payout_per_follower == 0
            &&& self.claimed_followers.len() == 0
        }
        &&& self.status == TradeStatus::Failed ==> {
            &&& self.followers.len() > 0
            &&& self.payout_per_follower == self.staked_amount / (self.followers.len() as u64)
        }
    }
}

} // verus!
