use vstd::prelude::*;

verus! {

/// Why an operation on a trade call or a vault was refused. A refused
/// operation changes nothing.
#[derive(Clone, Copy, Debug, PartialEq, Eq, Structural)]
pub enum TradeCallError {
    AlreadyFollowing,
    CannotFollowOwnTrade,
    NoDeposit,
    InsufficientDeposit,
    TradeCallAlreadyResolved,
    TradeCallNotActive,
    InsufficientFunds,
    NoFollowers,
    NotAuthorized,
    NotAFollower,
    AlreadyClaimed,
    FundsNotDistributed,
    InsufficientWithdraw,
    CapacityExceeded,
    ArithmeticOverflow,
}

impl TradeCallError {
    /// The message shown to a client for `e`.
    pub open spec fn message_text(e: TradeCallError) -> Seq<char> {
        match e {
            TradeCallError::AlreadyFollowing => "Already following this trade call"@,
            TradeCallError::CannotFollowOwnTrade => "Cannot follow your own trade call"@,
            TradeCallError::NoDeposit => "No deposit found in user vault"@,
            TradeCallError::InsufficientDeposit => "Insufficient deposit to reserve fee"@,
            TradeCallError::TradeCallAlreadyResolved => "Trade call already resolved"@,
            TradeCallError::TradeCallNotActive => "Trade call is not active"@,
            TradeCallError::InsufficientFunds => "Insufficient funds in trade call"@,
            TradeCallError::NoFollowers => "No followers to distribute funds to"@,
            TradeCallError::NotAuthorized => "Not authorized"@,
            TradeCallError::NotAFollower => "Not a follower"@,
            TradeCallError::AlreadyClaimed => "Already claimed"@,
            TradeCallError::FundsNotDistributed => "Funds not distributed"@,
            TradeCallError::InsufficientWithdraw => "Insufficient deposit to withdraw"@,
            TradeCallError::CapacityExceeded => "Follower list is full"@,
            TradeCallError::ArithmeticOverflow => "Arithmetic overflow"@,
        }
    }

    /// The message shown to a client for this error.
    pub fn message(&self) -> (r: &'static str)
        ensures
            r@ == Self::message_text(*self),
    {
        match self {
            TradeCallError::AlreadyFollowing => "Already following this trade call",
            TradeCallError::CannotFollowOwnTrade => "Cannot follow your own trade call",
            TradeCallError::NoDeposit => "No deposit found in user vault",
            TradeCallError::InsufficientDeposit => "Insufficient deposit to reserve fee",
            TradeCallError::TradeCallAlreadyResolved => "Trade call already resolved",
            TradeCallError::TradeCallNotActive => "Trade call is not active",
            TradeCallError::InsufficientFunds => "Insufficient funds in trade call",
            TradeCallError::NoFollowers => "No followers to distribute funds to",
            TradeCallError::NotAuthorized => "Not authorized",
            TradeCallError::NotAFollower => "Not a follower",
            TradeCallError::AlreadyClaimed => "Already claimed",
            TradeCallError::FundsNotDistributed => "Funds not distributed",
            TradeCallError::InsufficientWithdraw => "Insufficient deposit to withdraw",
            TradeCallError::CapacityExceeded => "Follower list is full",
            TradeCallError::ArithmeticOverflow => "Arithmetic overflow",
        }
    }
}

} // verus!
