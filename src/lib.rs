//! Fund accounting for a social-trading escrow: trade calls backed by a
//! stake, followers that reserve a fee from their vaults, and an admin that
//! settles each call once.

pub mod error;
pub mod key;
pub mod accounts;
pub mod contexts;
pub mod trade_call_platform;
pub mod laws;

pub use accounts::{
    IDCounter, PlatformState, TradeCall, TradeStatus, UserVault, FOLLOW_FEE, MAX_FOLLOWERS,
};
pub use contexts::{
    AdminResolveTradeCall, AdminResolveTradeCallAll, ClaimFollowerShare, CreateTradeCall,
    CreateUserVault, DepositToVault, FollowTrade, InitializeIDCounter, InitializePlatform,
    WithdrawFromVault,
};
pub use error::TradeCallError;
pub use key::AccountKey;
pub use trade_call_platform::{
    claim_follower_share, create_trade_call, create_user_vault, deposit_to_vault, follow_trade,
    initialize_id_counter, initialize_platform, resolve_trade_call_failure_all,
    resolve_trade_call_success, withdraw_from_vault,
};
