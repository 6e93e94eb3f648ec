//! Claims of rewards against the winner of a closed battle.

use vstd::prelude::*;
use crate::address::Address;
use crate::battle::error::ErrorCode;
use crate::battle::events::RewardClaimed;
use crate::battle::state::{BattleRoom, BattleRoomStatus, BattleToken, RewardClaim};

verus! {

/// Why a claim is refused, if it is: the token is not a winner, or the
/// battle is not closed, in this order.
pub open spec fn claim_rejection(room: BattleRoom, token: BattleToken) -> Option<ErrorCode> {
    if !token.is_winner {
        Some(ErrorCode::TokenNotWinner)
    } else if room.status != BattleRoomStatus::Closed {
        Some(ErrorCode::BattleNotClosed)
    } else {
        None
    }
}

/// Records that `trader` claims `amount` as reward for the winning token
/// stored at `token_key`, in the closed room stored at `room_key`.
///
/// The amount is the trader's own figure. It is recorded as given and not
/// held against any balance: whoever pays out must establish the
/// entitlement.
pub fn claim_reward(
    room: &BattleRoom,
    token: &BattleToken,
    room_key: Address,
    token_key: Address,
    trader: Address,
    now: i64,
    amount: u64,
) -> (res: Result<(RewardClaim, RewardClaimed), ErrorCode>)
    ensures
        match res {
            Ok((claim, ev)) => {
                &&& claim_rejection(*room, *token) is None
                &&& claim == (RewardClaim {
                    battle_room: room_key,
                    battle_token: token_key,
                    trader,
                    amount,
                    claimed_at: now,
                })
                &&& ev == (RewardClaimed {
                    room_id: room.room_id,
                    token_symbol: token.token_symbol,
                    trader,
                    amount,
                    claimed_at: now,
                })
            },
            Err(e) => claim_rejection(*room, *token) == Some(e),
        },
{
    if !token.is_winner {
        return Err(ErrorCode::TokenNotWinner);
    }
    if room.status != BattleRoomStatus::Closed {
        return Err(ErrorCode::BattleNotClosed);
    }
    let claim = RewardClaim {
        battle_room: room_key,
        battle_token: token_key,
        trader,
        amount,
        claimed_at: now,
    };
    let ev = RewardClaimed {
        room_id: room.room_id.clone(),
        token_symbol: token.token_symbol.clone(),
        trader,
        amount,
        claimed_at: now,
    };
    Ok((claim, ev))
}

} // verus!
