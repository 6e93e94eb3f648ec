//! Events of the token program. Each successful operation returns one; the
//! caller delivers it to whoever indexes the ledger.

use vstd::prelude::*;
use crate::address::Address;

verus! {

/// A token was initialised.
#[derive(Clone, Debug, PartialEq, Eq)]
pub struct TokenInitialized {
    pub token_account: Address,
    pub name: String,
    pub symbol: String,
    pub creator_fee: u64,
    pub platform_fee: u64,
    pub authority: Address,
    pub treasury: Address,
    pub bonding_curve_cap: u64,
}

/// A token's fee configuration was replaced.
#[derive(Clone, Copy, Debug, PartialEq, Eq)]
pub struct FeesUpdated {
    pub token_account: Address,
    pub creator_fee: u64,
    pub platform_fee: u64,
    pub authority: Address,
}

/// A token was frozen.
#[derive(Clone, Copy, Debug, PartialEq, Eq)]
pub struct AccountFrozen {
    pub token_account: Address,
    pub authority: Address,
}

/// A token was unfrozen.
#[derive(Clone, Copy, Debug, PartialEq, Eq)]
pub struct AccountUnfrozen {
    pub token_account: Address,
    pub authority: Address,
}

/// Tokens were minted.
#[derive(Clone, Copy, Debug, PartialEq, Eq)]
pub struct TokensMinted {
    pub token_account: Address,
    pub creator: Address,
    pub holder: Address,
    pub amount: u64,
    pub treasury_amount: u64,
    pub holder_amount: u64,
    pub price_per_token: u64,
    pub total_price: u64,
    /// Whether the bonding curve is still active after this mint.
    pub is_bonding_curve_active: bool,
    pub timestamp: i64,
}

/// Tokens changed hands.
#[derive(Clone, Copy, Debug, PartialEq, Eq)]
pub struct TradeExecuted {
    pub token_account: Address,
    pub seller: Address,
    pub buyer: Address,
    pub creator: Address,
    pub amount: u64,
    pub price: u64,
    pub trade_value: u64,
    pub creator_fee: u64,
    pub platform_fee: u64,
    pub seller_receives: u64,
    pub treasury: Address,
    pub timestamp: i64,
}

/// A token's treasury wallet was replaced.
#[derive(Clone, Copy, Debug, PartialEq, Eq)]
pub struct TreasuryUpdated {
    pub token_account: Address,
    pub old_treasury: Address,
    pub new_treasury: Address,
    pub authority: Address,
    pub timestamp: i64,
}

/// The creator claimed the accumulated creator fees.
#[derive(Clone, Copy, Debug, PartialEq, Eq)]
pub struct CreatorFeesClaimed {
    pub token_account: Address,
    pub creator: Address,
    pub milestone_reached: bool,
    pub timestamp: i64,
}

/// A token's launch was recorded.
#[derive(Clone, Copy, Debug, PartialEq, Eq)]
pub struct TokenLaunchRecorded {
    pub token_account: Address,
    pub launch_record: Address,
    pub launch_date: i64,
    pub authority: Address,
}

/// An oracle vouched for a token's statistics.
#[derive(Clone, Copy, Debug, PartialEq, Eq)]
pub struct TokenStatisticsVerified {
    pub token_account: Address,
    pub oracle: Address,
    pub timestamp: i64,
}

/// A token's metadata URI was replaced.
#[derive(Clone, Debug, PartialEq, Eq)]
pub struct TokenMetadataUpdated {
    pub token_account: Address,
    pub new_uri: String,
    pub authority: Address,
    pub timestamp: i64,
}

/// A token passed to a new authority.
#[derive(Clone, Copy, Debug, PartialEq, Eq)]
pub struct OwnershipTransferred {
    pub token_account: Address,
    pub old_authority: Address,
    pub new_authority: Address,
    pub timestamp: i64,
}

} // verus!
