//! The trade ledger: every trade of a token during its battle, and the fees
//! that the trades accrue to the token and to its room.

use vstd::prelude::*;
use crate::address::Address;
use crate::battle::error::ErrorCode;
use crate::battle::events::TradeRecorded;
use crate::battle::state::{BattleRoom, BattleRoomStatus, BattleToken, TradeRecord, TradeType};

verus! {

/// Why a trade is refused, if it is: the battle is not active, its end time
/// has passed, or the fee would take the token's or the room's fee total out
/// of the 64-bit range, in this order.
pub open spec fn trade_rejection(room: BattleRoom, token: BattleToken, now: i64, fee_amount: u64)
    -> Option<ErrorCode> {
    if room.status != BattleRoomStatus::Active {
        Some(ErrorCode::BattleNotActive)
    } else if now > room.battle_end_time {
        Some(ErrorCode::BattleEnded)
    } else if token.total_fees + fee_amount > u64::MAX || room.total_fees_collected + fee_amount
        > u64::MAX {
        Some(ErrorCode::ArithmeticOverflow)
    } else {
        None
    }
}

/// The room after a trade that paid `fee_amount`.
pub open spec fn room_after_trade(room: BattleRoom, fee_amount: u64) -> BattleRoom {
    BattleRoom {
        total_fees_collected: (room.total_fees_collected + fee_amount) as u64,
        ..room
    }
}

/// The token after a trade that paid `fee_amount` and moved its market cap
/// to `market_cap_update`. The market cap is replaced, not averaged.
pub open spec fn token_after_trade(token: BattleToken, fee_amount: u64, market_cap_update: u64)
    -> BattleToken {
    BattleToken {
        current_market_cap: market_cap_update,
        total_fees: (token.total_fees + fee_amount) as u64,
        ..token
    }
}

/// Records a trade of the token stored at `token_key` while its battle is
/// active and `now` is not past the battle's end. The fee is added to the
/// token's and to the room's totals; if either sum would not fit in 64 bits
/// the trade fails with `ArithmeticOverflow`. On any refusal neither record
/// changes.
pub fn record_trade(
    room: &mut BattleRoom,
    token: &mut BattleToken,
    token_key: Address,
    trader: Address,
    now: i64,
    trade_amount: u64,
    fee_amount: u64,
    trade_type: TradeType,
    market_cap_update: u64,
) -> (res: Result<(TradeRecord, TradeRecorded), ErrorCode>)
    ensures
        old(room).wf() ==> final(room).wf(),
        match res {
            Ok((record, ev)) => {
                &&& trade_rejection(*old(room), *old(token), now, fee_amount) is None
                &&& *final(room) == room_after_trade(*old(room), fee_amount)
                &&& *final(token) == token_after_trade(*old(token), fee_amount, market_cap_update)
                &&& record == (TradeRecord {
                    battle_token: token_key,
                    trader,
                    amount: trade_amount,
                    fee: fee_amount,
                    trade_type,
                    timestamp: now,
                })
                &&& ev == (TradeRecorded {
                    battle_token: token_key,
                    trader,
                    amount: trade_amount,
                    fee: fee_amount,
                    trade_type,
                    market_cap: market_cap_update,
                    timestamp: now,
                })
            },
            Err(e) => {
                &&& trade_rejection(*old(room), *old(token), now, fee_amount) == Some(e)
                &&& *final(room) == *old(room)
                &&& *final(token) == *old(token)
            },
        },
{
    if room.status != BattleRoomStatus::Active {
        return Err(ErrorCode::BattleNotActive);
    }
    if now > room.battle_end_time {
        return Err(ErrorCode::BattleEnded);
    }
    let token_fees = match token.total_fees.checked_add(fee_amount) {
        Some(v) => v,
        None => { return Err(ErrorCode::ArithmeticOverflow); },
    };
    let room_fees = match room.total_fees_collected.checked_add(fee_amount) {
        Some(v) => v,
        None => { return Err(ErrorCode::ArithmeticOverflow); },
    };
    token.current_market_cap = market_cap_update;
    token.total_fees = token_fees;
    room.total_fees_collected = room_fees;
    let record = TradeRecord {
        battle_token: token_key,
        trader,
        amount: trade_amount,
        fee: fee_amount,
        trade_type,
        timestamp: now,
    };
    let ev = TradeRecorded {
        battle_token: token_key,
        trader,
        amount: trade_amount,
        fee: fee_amount,
        trade_type,
        market_cap: market_cap_update,
        timestamp: now,
    };
    Ok((record, ev))
}

} // verus!
