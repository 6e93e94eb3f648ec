//! Events of the battle program. Each successful operation returns one; the
//! caller delivers it to whoever indexes the ledger.

use vstd::prelude::*;
use crate::address::Address;
use crate::battle::state::TradeType;

verus! {

/// A room was created.
#[derive(Clone, Debug, PartialEq, Eq)]
pub struct BattleRoomCreated {
    pub room_id: String,
    pub admin: Address,
    pub max_participants: u8,
    pub created_at: i64,
    /// End of the waiting window: the earliest start of the battle.
    pub battle_start: i64,
    pub battle_end: i64,
}

/// A token joined a room.
#[derive(Clone, Debug, PartialEq, Eq)]
pub struct TokenJoinedBattle {
    pub room_id: String,
    pub token_symbol: String,
    pub creator: Address,
    pub created_at: i64,
}

/// A battle started.
#[derive(Clone, Debug, PartialEq, Eq)]
pub struct BattleStarted {
    pub room_id: String,
    pub start_time: i64,
    pub end_time: i64,
    pub participant_count: u8,
}

/// A trade was recorded.
#[derive(Clone, Copy, Debug, PartialEq, Eq)]
pub struct TradeRecorded {
    pub battle_token: Address,
    pub trader: Address,
    pub amount: u64,
    pub fee: u64,
    pub trade_type: TradeType,
    pub market_cap: u64,
    pub timestamp: i64,
}

/// A battle was closed.
#[derive(Clone, Debug, PartialEq, Eq)]
pub struct BattleClosed {
    pub room_id: String,
    pub total_fees: u64,
    /// The platform's share of the total fees.
    pub platform_fee: u64,
    pub closed_at: i64,
}

/// A room's winner was declared.
#[derive(Clone, Debug, PartialEq, Eq)]
pub struct WinnerSet {
    pub room_id: String,
    pub winner_token: Address,
    pub token_symbol: String,
}

/// A reward was claimed.
#[derive(Clone, Debug, PartialEq, Eq)]
pub struct RewardClaimed {
    pub room_id: String,
    pub token_symbol: String,
    pub trader: Address,
    pub amount: u64,
    pub claimed_at: i64,
}

} // verus!
