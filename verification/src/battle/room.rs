//! The life of a room: creation, admission of tokens, start, closure and the
//! declaration of the winner.

use vstd::prelude::*;
use crate::address::Address;
use crate::battle::error::ErrorCode;
use crate::battle::events::{
    BattleClosed,
    BattleRoomCreated,
    BattleStarted,
    TokenJoinedBattle,
    WinnerSet,
};
use crate::battle::state::{
    BattleRoom,
    BattleRoomStatus,
    BattleToken,
    MAX_BATTLE_SECONDS,
    MAX_PARTICIPANTS,
    MIN_BATTLE_SECONDS,
    MIN_PARTICIPANTS,
    PLATFORM_FEE_PERCENT,
    WAITING_SECONDS,
};

verus! {

/// Why the creation of a room is refused, if it is: first the participant
/// limit is checked, then the duration.
pub open spec fn create_rejection(max_participants: u8, battle_duration_seconds: i64) -> Option<
    ErrorCode,
> {
    if !(MIN_PARTICIPANTS <= max_participants <= MAX_PARTICIPANTS) {
        Some(ErrorCode::InvalidMaxParticipants)
    } else if !(MIN_BATTLE_SECONDS <= battle_duration_seconds <= MAX_BATTLE_SECONDS) {
        Some(ErrorCode::InvalidBattleDuration)
    } else {
        None
    }
}

/// The room that an accepted creation produces: open and empty, with the
/// waiting window ending sixty seconds after `now` and the battle ending
/// `battle_duration_seconds` after that.
pub open spec fn new_room(
    admin: Address,
    now: i64,
    room_id: String,
    max_participants: u8,
    battle_duration_seconds: i64,
) -> BattleRoom {
    BattleRoom {
        room_id,
        admin,
        max_participants,
        status: BattleRoomStatus::Open,
        created_at: now,
        waiting_time_end: (now + WAITING_SECONDS) as i64,
        battle_end_time: (now + WAITING_SECONDS + battle_duration_seconds) as i64,
        platform_fee_percentage: PLATFORM_FEE_PERCENT,
        participant_count: 0,
        total_fees_collected: 0,
        winner_token: None,
    }
}

/// The end of a battle created at `now` is a representable time, or the
/// creation is refused anyway.
pub open spec fn end_time_fits(now: i64, max_participants: u8, battle_duration_seconds: i64)
    -> bool {
    create_rejection(max_participants, battle_duration_seconds) is None ==> now + WAITING_SECONDS
        + battle_duration_seconds <= i64::MAX
}

/// Decides whether `create_battle_room` may be called with these arguments.
/// It may for every clock reading that is not within a day of the largest
/// representable time.
pub fn check_end_time_fits(now: i64, max_participants: u8, battle_duration_seconds: i64) -> (ok:
    bool)
    ensures
        ok == end_time_fits(now, max_participants, battle_duration_seconds),
        now <= i64::MAX - WAITING_SECONDS - MAX_BATTLE_SECONDS ==> ok,
{
    if !(max_participants >= MIN_PARTICIPANTS && max_participants <= MAX_PARTICIPANTS) {
        return true;
    }
    if !(battle_duration_seconds >= MIN_BATTLE_SECONDS && battle_duration_seconds
        <= MAX_BATTLE_SECONDS) {
        return true;
    }
    now <= i64::MAX - WAITING_SECONDS - battle_duration_seconds
}

/// Creates a room that admits `max_participants` tokens, between two and
/// five, for a battle of `battle_duration_seconds`, between one hour and
/// twenty-four.
///
/// The end of the battle must be a representable time, which
/// `check_end_time_fits` decides: for clock readings it always is.
pub fn create_battle_room(
    admin: Address,
    now: i64,
    room_id: String,
    max_participants: u8,
    battle_duration_seconds: i64,
) -> (res: Result<(BattleRoom, BattleRoomCreated), ErrorCode>)
    requires
        end_time_fits(now, max_participants, battle_duration_seconds),
    ensures
        match res {
            Ok((room, ev)) => {
                &&& create_rejection(max_participants, battle_duration_seconds) is None
                &&& room == new_room(admin, now, room_id, max_participants, battle_duration_seconds)
                &&& room.wf()
                &&& ev.room_id == room_id
                &&& ev.admin == admin
                &&& ev.max_participants == max_participants
                &&& ev.created_at == now
                &&& ev.battle_start == room.waiting_time_end
                &&& ev.battle_end == room.battle_end_time
            },
            Err(e) => create_rejection(max_participants, battle_duration_seconds) == Some(e),
        },
{
    if !(max_participants >= MIN_PARTICIPANTS && max_participants <= MAX_PARTICIPANTS) {
        return Err(ErrorCode::InvalidMaxParticipants);
    }
    if !(battle_duration_seconds >= MIN_BATTLE_SECONDS && battle_duration_seconds
        <= MAX_BATTLE_SECONDS) {
        return Err(ErrorCode::InvalidBattleDuration);
    }
    let waiting_time_end: i64 = now + WAITING_SECONDS;
    let battle_end_time: i64 = waiting_time_end + battle_duration_seconds;
    let ev = BattleRoomCreated {
        room_id: room_id.clone(),
        admin,
        max_participants,
        created_at: now,
        battle_start: waiting_time_end,
        battle_end: battle_end_time,
    };
    let room = BattleRoom {
        room_id,
        admin,
        max_participants,
        status: BattleRoomStatus::Open,
        created_at: now,
        waiting_time_end,
        battle_end_time,
        platform_fee_percentage: PLATFORM_FEE_PERCENT,
        participant_count: 0,
        total_fees_collected: 0,
        winner_token: None,
    };
    Ok((room, ev))
}

/// Why a token is refused admission, if it is: the room is not open, it is
/// full, or the waiting window is over, in this order.
pub open spec fn join_rejection(room: BattleRoom, now: i64) -> Option<ErrorCode> {
    if room.status != BattleRoomStatus::Open {
        Some(ErrorCode::RoomNotOpen)
    } else if room.participant_count >= room.max_participants {
        Some(ErrorCode::RoomFull)
    } else if now >= room.waiting_time_end {
        Some(ErrorCode::WaitingTimePassed)
    } else {
        None
    }
}

/// The room after admitting one more token: it becomes full exactly when the
/// new count equals the limit.
pub open spec fn room_after_join(room: BattleRoom) -> BattleRoom {
    BattleRoom {
        participant_count: (room.participant_count + 1) as u8,
        status: if room.participant_count + 1 == room.max_participants {
            BattleRoomStatus::Full
        } else {
            room.status
        },
        ..room
    }
}

/// The entry of a token that has just joined the room at `room_key`: no
/// market cap, no fees, not a winner.
pub open spec fn new_token(
    room_key: Address,
    creator: Address,
    now: i64,
    token_symbol: String,
    token_name: String,
    initial_supply: u64,
) -> BattleToken {
    BattleToken {
        token_symbol,
        token_name,
        creator,
        battle_room: room_key,
        initial_supply,
        current_market_cap: 0,
        total_fees: 0,
        created_at: now,
        is_winner: false,
    }
}

/// Admits a token into the room stored at `room_key`. The room must be open,
/// hold fewer tokens than it admits, and `now` must lie before the end of the
/// waiting window. On any refusal the room does not change.
pub fn join_battle_room(
    room: &mut BattleRoom,
    room_key: Address,
    creator: Address,
    now: i64,
    token_symbol: String,
    token_name: String,
    initial_supply: u64,
) -> (res: Result<(BattleToken, TokenJoinedBattle), ErrorCode>)
    ensures
        old(room).wf() ==> final(room).wf(),
        match res {
            Ok((token, ev)) => {
                &&& join_rejection(*old(room), now) is None
                &&& *final(room) == room_after_join(*old(room))
                &&& token == new_token(
                    room_key,
                    creator,
                    now,
                    token_symbol,
                    token_name,
                    initial_supply,
                )
                &&& ev == (TokenJoinedBattle {
                    room_id: old(room).room_id,
                    token_symbol,
                    creator,
                    created_at: now,
                })
            },
            Err(e) => {
                &&& join_rejection(*old(room), now) == Some(e)
                &&& *final(room) == *old(room)
            },
        },
{
    if room.status != BattleRoomStatus::Open {
        return Err(ErrorCode::RoomNotOpen);
    }
    if room.participant_count >= room.max_participants {
        return Err(ErrorCode::RoomFull);
    }
    if now >= room.waiting_time_end {
        return Err(ErrorCode::WaitingTimePassed);
    }
    let ev = TokenJoinedBattle {
        room_id: room.room_id.clone(),
        token_symbol: token_symbol.clone(),
        creator,
        created_at: now,
    };
    let token = BattleToken {
        token_symbol,
        token_name,
        creator,
        battle_room: room_key,
        initial_supply,
        current_market_cap: 0,
        total_fees: 0,
        created_at: now,
        is_winner: false,
    };
    room.participant_count = room.participant_count + 1;
    if room.participant_count == room.max_participants {
        room.status = BattleRoomStatus::Full;
    }
    Ok((token, ev))
}

/// Why the start of a battle is refused, if it is: the room is neither open
/// nor full, the waiting window is not over, or fewer than two tokens have
/// joined, in this order.
pub open spec fn start_rejection(room: BattleRoom, now: i64) -> Option<ErrorCode> {
    if room.status != BattleRoomStatus::Open && room.status != BattleRoomStatus::Full {
        Some(ErrorCode::InvalidRoomStatus)
    } else if now < room.waiting_time_end {
        Some(ErrorCode::WaitingTimeNotPassed)
    } else if room.participant_count < MIN_PARTICIPANTS {
        Some(ErrorCode::NotEnoughParticipants)
    } else {
        None
    }
}

/// The room once its battle has started.
pub open spec fn room_after_start(room: BattleRoom) -> BattleRoom {
    BattleRoom { status: BattleRoomStatus::Active, ..room }
}

/// Starts the battle of a room that is open or full, once the waiting window
/// is over and at least two tokens have joined. On any refusal the room does
/// not change.
pub fn start_battle(room: &mut BattleRoom, now: i64) -> (res: Result<BattleStarted, ErrorCode>)
    ensures
        old(room).wf() ==> final(room).wf(),
        match res {
            Ok(ev) => {
                &&& start_rejection(*old(room), now) is None
                &&& *final(room) == room_after_start(*old(room))
                &&& ev == (BattleStarted {
                    room_id: old(room).room_id,
                    start_time: now,
                    end_time: old(room).battle_end_time,
                    participant_count: old(room).participant_count,
                })
            },
            Err(e) => {
                &&& start_rejection(*old(room), now) == Some(e)
                &&& *final(room) == *old(room)
            },
        },
{
    if room.status != BattleRoomStatus::Open && room.status != BattleRoomStatus::Full {
        return Err(ErrorCode::InvalidRoomStatus);
    }
    if now < room.waiting_time_end {
        return Err(ErrorCode::WaitingTimeNotPassed);
    }
    if room.participant_count < MIN_PARTICIPANTS {
        return Err(ErrorCode::NotEnoughParticipants);
    }
    room.status = BattleRoomStatus::Active;
    Ok(
        BattleStarted {
            room_id: room.room_id.clone(),
            start_time: now,
            end_time: room.battle_end_time,
            participant_count: room.participant_count,
        },
    )
}

/// The platform's share of the collected fees: `percentage` hundredths of
/// the total, rounded down.
pub open spec fn platform_share(total_fees: u64, percentage: u8) -> int {
    total_fees * percentage / 100
}

/// Why the closure of a battle is refused, if it is: the battle is not
/// active, its end time has not come, or the product of the collected fees
/// and the platform's percentage does not fit in 64 bits, in this order.
pub open spec fn close_rejection(room: BattleRoom, now: i64) -> Option<ErrorCode> {
    if room.status != BattleRoomStatus::Active {
        Some(ErrorCode::InvalidRoomStatus)
    } else if now < room.battle_end_time {
        Some(ErrorCode::BattleNotEnded)
    } else if room.total_fees_collected * room.platform_fee_percentage > u64::MAX {
        Some(ErrorCode::ArithmeticOverflow)
    } else {
        None
    }
}

/// The room once its battle is closed.
pub open spec fn room_after_close(room: BattleRoom) -> BattleRoom {
    BattleRoom { status: BattleRoomStatus::Closed, ..room }
}

/// Closes an active battle whose end time has come, and reports the fees
/// collected and the platform's share of them. The transfer of that share is
/// left to the caller. On any refusal the room does not change.
pub fn close_battle(room: &mut BattleRoom, now: i64) -> (res: Result<BattleClosed, ErrorCode>)
    ensures
        old(room).wf() ==> final(room).wf(),
        match res {
            Ok(ev) => {
                &&& close_rejection(*old(room), now) is None
                &&& *final(room) == room_after_close(*old(room))
                &&& ev == (BattleClosed {
                    room_id: old(room).room_id,
                    total_fees: old(room).total_fees_collected,
                    platform_fee: platform_share(
                        old(room).total_fees_collected,
                        old(room).platform_fee_percentage,
                    ) as u64,
                    closed_at: now,
                })
            },
            Err(e) => {
                &&& close_rejection(*old(room), now) == Some(e)
                &&& *final(room) == *old(room)
            },
        },
{
    if room.status != BattleRoomStatus::Active {
        return Err(ErrorCode::InvalidRoomStatus);
    }
    if now < room.battle_end_time {
        return Err(ErrorCode::BattleNotEnded);
    }
    let percentage: u64 = room.platform_fee_percentage.into();
    let platform_fee = match room.total_fees_collected.checked_mul(percentage) {
        Some(v) => v / 100,
        None => { return Err(ErrorCode::ArithmeticOverflow); },
    };
    room.status = BattleRoomStatus::Closed;
    Ok(
        BattleClosed {
            room_id: room.room_id.clone(),
            total_fees: room.total_fees_collected,
            platform_fee,
            closed_at: now,
        },
    )
}

/// Why the declaration of a winner is refused, if it is: the caller is not
/// the room's admin, or the battle is not closed, in this order.
pub open spec fn set_winner_rejection(room: BattleRoom, caller: Address) -> Option<ErrorCode> {
    if room.admin != caller {
        Some(ErrorCode::Unauthorized)
    } else if room.status != BattleRoomStatus::Closed {
        Some(ErrorCode::BattleNotClosed)
    } else {
        None
    }
}

/// The room once the token at `token_key` is declared its winner.
pub open spec fn room_after_winner(room: BattleRoom, token_key: Address) -> BattleRoom {
    BattleRoom { winner_token: Some(token_key), ..room }
}

/// A token once it is declared the winner.
pub open spec fn token_after_winner(token: BattleToken) -> BattleToken {
    BattleToken { is_winner: true, ..token }
}

/// Declares the token stored at `token_key` the winner of a closed room.
/// Only the room's admin may do so. On any refusal neither record changes.
///
/// The room records the latest declaration. A second declaration for another
/// token replaces the recorded winner and leaves the first token's flag as it
/// is, so a caller that wants a single winner declares one once.
pub fn set_winner(
    room: &mut BattleRoom,
    token: &mut BattleToken,
    token_key: Address,
    admin: Address,
) -> (res: Result<WinnerSet, ErrorCode>)
    ensures
        old(room).wf() ==> final(room).wf(),
        match res {
            Ok(ev) => {
                &&& set_winner_rejection(*old(room), admin) is None
                &&& *final(room) == room_after_winner(*old(room), token_key)
                &&& *final(token) == token_after_winner(*old(token))
                &&& ev == (WinnerSet {
                    room_id: old(room).room_id,
                    winner_token: token_key,
                    token_symbol: old(token).token_symbol,
                })
            },
            Err(e) => {
                &&& set_winner_rejection(*old(room), admin) == Some(e)
                &&& *final(room) == *old(room)
                &&& *final(token) == *old(token)
            },
        },
{
    if room.admin != admin {
        return Err(ErrorCode::Unauthorized);
    }
    if room.status != BattleRoomStatus::Closed {
        return Err(ErrorCode::BattleNotClosed);
    }
    room.winner_token = Some(token_key);
    token.is_winner = true;
    Ok(
        WinnerSet {
            room_id: room.room_id.clone(),
            winner_token: token_key,
            token_symbol: token.token_symbol.clone(),
        },
    )
}

} // verus!
