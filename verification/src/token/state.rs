//! Records of the token program.

use vstd::prelude::*;
use crate::address::Address;
use crate::token::fees::fees_within_cap;

verus! {

/// Longest token name, in bytes.
pub const MAX_NAME_BYTES: usize = 32;

/// Longest token symbol, in bytes.
pub const MAX_SYMBOL_BYTES: usize = 8;

/// Longest metadata URI, in bytes.
pub const MAX_URI_BYTES: usize = 200;

/// Market-cap level, in whole units, at which a new token's bonding curve ends.
pub const INITIAL_BONDING_CURVE_CAP: u64 = 50_000;

/// Number of bytes in the UTF-8 encoding of a string.
pub open spec fn byte_len(s: Seq<char>) -> nat {
    vstd::utf8::encode_utf8(s).len()
}

/// Number of bytes in a string.
pub(crate) fn string_bytes(s: &String) -> (n: usize)
    ensures
        n == byte_len(s@),
{
    s.as_str().as_bytes().len()
}

/// A token: its identity, fee configuration, issuance state and guard flags.
#[derive(Clone, Debug, PartialEq, Eq)]
pub struct TokenAccount {
    pub name: String,
    pub symbol: String,
    /// Creator fee in basis points.
    pub creator_fee: u64,
    /// Platform fee in basis points.
    pub platform_fee: u64,
    pub authority: Address,
    pub treasury: Address,
    pub total_supply: u64,
    pub is_frozen: bool,
    pub is_bonding_curve_active: bool,
    pub bonding_curve_cap: u64,
    pub market_cap: u64,
    pub metadata_uri: String,
    pub last_updated_at: i64,
    pub creation_time: i64,
    pub verified: bool,
}

impl TokenAccount {
    /// What holds of every token that `initialize` produced and the
    /// operations of this module have since changed.
    pub open spec fn wf(&self) -> bool {
        &&& 0 < self.name@.len()
        &&& byte_len(self.name@) <= MAX_NAME_BYTES
        &&& 0 < self.symbol@.len()
        &&& byte_len(self.symbol@) <= MAX_SYMBOL_BYTES
        &&& byte_len(self.metadata_uri@) <= MAX_URI_BYTES
        &&& fees_within_cap(self.creator_fee, self.platform_fee)
    }
}

/// One holder's position in a token.
#[derive(Clone, Copy, Debug, PartialEq, Eq)]
pub struct TokenHolder {
    pub owner: Address,
    pub balance: u64,
    pub last_trade: i64,
    pub initial_entry: i64,
    pub is_verified: bool,
}

/// The on-ledger record of a token's launch.
#[derive(Clone, Debug, PartialEq, Eq)]
pub struct LaunchRecord {
    pub token_account: Address,
    pub launch_date: i64,
    pub launch_data: String,
    pub is_verified: bool,
    pub initial_market_cap: u64,
    pub initial_holder_count: u16,
    pub creator_wallet: Address,
}

/// Trading parameters of a token.
#[derive(Clone, Copy, Debug, PartialEq, Eq)]
pub struct TradingConfig {
    pub token_account: Address,
    pub min_trade_amount: u64,
    /// Largest tolerated slippage in basis points.
    pub max_slippage: u16,
    pub trading_enabled: bool,
    pub authority: Address,
}

} // verus!
