//! The token program: initialisation, fee configuration, the freeze guard,
//! minting along the bonding curve, and trades with fees.

pub mod admin;
pub mod error;
pub mod events;
pub mod fees;
pub mod guard;
pub mod laws;
pub mod lifecycle;
pub mod mint;
pub mod state;
pub mod trade;

pub use admin::{transfer_token_ownership, update_fees, update_token_metadata, update_treasury};
pub use error::ErrorCode;
pub use events::{
    AccountFrozen, AccountUnfrozen, CreatorFeesClaimed, FeesUpdated, OwnershipTransferred,
    TokenInitialized, TokenLaunchRecorded, TokenMetadataUpdated, TokenStatisticsVerified,
    TokensMinted, TradeExecuted, TreasuryUpdated,
};
pub use fees::{split_trade, FeeSplit};
pub use guard::{emergency_freeze, emergency_unfreeze};
pub use lifecycle::{
    claim_creator_fees, initialize, record_token_launch, verify_token_statistics,
};
pub use mint::mint_tokens;
pub use state::{LaunchRecord, TokenAccount, TokenHolder, TradingConfig};
pub use trade::execute_trade;
