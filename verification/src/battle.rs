//! The battle program: the life of a room from creation to closure, the
//! admission of tokens, the trade ledger with its fee accounting, and the
//! declaration of a winner and the claims against it.

pub mod claim;
pub mod error;
pub mod events;
pub mod laws;
pub mod room;
pub mod state;
pub mod trade;

pub use claim::claim_reward;
pub use error::ErrorCode;
pub use events::{
    BattleClosed, BattleRoomCreated, BattleStarted, RewardClaimed, TokenJoinedBattle,
    TradeRecorded, WinnerSet,
};
pub use room::{
    check_end_time_fits, close_battle, create_battle_room, join_battle_room, set_winner,
    start_battle,
};
pub use state::{BattleRoom, BattleRoomStatus, BattleToken, RewardClaim, TradeRecord, TradeType};
pub use trade::record_trade;
