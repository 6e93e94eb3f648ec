//! Records of the battle program.

use vstd::prelude::*;
use crate::address::Address;

verus! {

/// Fewest tokens a room may be created to admit, and fewest a battle starts with.
pub const MIN_PARTICIPANTS: u8 = 2;

/// Most tokens a room may be created to admit.
pub const MAX_PARTICIPANTS: u8 = 5;

/// Shortest battle, in seconds: one hour.
pub const MIN_BATTLE_SECONDS: i64 = 3600;

/// Longest battle, in seconds: twenty-four hours.
pub const MAX_BATTLE_SECONDS: i64 = 86400;

/// Length of the waiting window during which tokens may join, in seconds.
pub const WAITING_SECONDS: i64 = 60;

/// Share of the collected fees that goes to the platform, in percent.
pub const PLATFORM_FEE_PERCENT: u8 = 10;

/// Where a room stands in its life. A room only ever moves forward:
/// `Open`, possibly `Full`, then `Active`, then `Closed`.
#[derive(Clone, Copy, Debug, PartialEq, Eq, Structural)]
pub enum BattleRoomStatus {
    /// Tokens may join.
    Open,
    /// As many tokens have joined as the room admits; the battle has not started.
    Full,
    /// The battle is running.
    Active,
    /// The battle is over.
    Closed,
}

impl BattleRoomStatus {
    /// Position of a status in the order in which a room passes through them.
    pub open spec fn rank(self) -> nat {
        match self {
            BattleRoomStatus::Open => 0,
            BattleRoomStatus::Full => 1,
            BattleRoomStatus::Active => 2,
            BattleRoomStatus::Closed => 3,
        }
    }
}

/// Direction of a trade.
#[derive(Clone, Copy, Debug, PartialEq, Eq, Structural)]
pub enum TradeType {
    Buy,
    Sell,
}

/// One battle: a time-boxed event in which up to five tokens compete.
#[derive(Clone, Debug, PartialEq, Eq)]
pub struct BattleRoom {
    pub room_id: String,
    pub admin: Address,
    pub max_participants: u8,
    pub status: BattleRoomStatus,
    pub created_at: i64,
    /// End of the window in which tokens may join.
    pub waiting_time_end: i64,
    pub battle_end_time: i64,
    /// Share of the collected fees that goes to the platform, in percent.
    pub platform_fee_percentage: u8,
    pub participant_count: u8,
    /// Fees collected over all trades of all tokens of the room.
    pub total_fees_collected: u64,
    pub winner_token: Option<Address>,
}

impl BattleRoom {
    /// What holds of every room that `create_battle_room` produced and the
    /// operations of this module have since changed.
    pub open spec fn wf(&self) -> bool {
        &&& MIN_PARTICIPANTS <= self.max_participants <= MAX_PARTICIPANTS
        &&& self.participant_count <= self.max_participants
        &&& self.status is Open ==> self.participant_count < self.max_participants
        &&& self.status is Full ==> self.participant_count == self.max_participants
        &&& self.status is Active || self.status is Closed ==> self.participant_count
            >= MIN_PARTICIPANTS
        &&& self.waiting_time_end == self.created_at + WAITING_SECONDS
        &&& self.waiting_time_end + MIN_BATTLE_SECONDS <= self.battle_end_time
            <= self.waiting_time_end + MAX_BATTLE_SECONDS
        &&& self.platform_fee_percentage <= 100
        &&& self.winner_token is Some ==> self.status is Closed
    }
}

/// One token's entry in a battle.
#[derive(Clone, Debug, PartialEq, Eq)]
pub struct BattleToken {
    pub token_symbol: String,
    pub token_name: String,
    pub creator: Address,
    /// The room that this token competes in.
    pub battle_room: Address,
    pub initial_supply: u64,
    /// Market cap as of the latest trade.
    pub current_market_cap: u64,
    /// Fees collected over all trades of this token.
    pub total_fees: u64,
    pub created_at: i64,
    pub is_winner: bool,
}

/// One trade of a token, as written to the ledger.
#[derive(Clone, Copy, Debug, PartialEq, Eq)]
pub struct TradeRecord {
    pub battle_token: Address,
    pub trader: Address,
    pub amount: u64,
    pub fee: u64,
    pub trade_type: TradeType,
    pub timestamp: i64,
}

/// One claim of a reward against the winner of a battle.
#[derive(Clone, Copy, Debug, PartialEq, Eq)]
pub struct RewardClaim {
    pub battle_room: Address,
    pub battle_token: Address,
    pub trader: Address,
    pub amount: u64,
    pub claimed_at: i64,
}

} // verus!
