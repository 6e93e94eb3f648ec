//! What holds of every room, whatever requests are made of it and in
//! whatever order.
//!
//! A room's history is modelled as the room that `create_battle_room`
//! produced followed by a sequence of requests, each of which the room either
//! accepts, moving to its next state, or refuses, staying as it is. The
//! functions of this crate realise exactly these steps: their contracts are
//! stated over the same rejection and next-state functions.

use vstd::prelude::*;
use crate::address::Address;
use crate::battle::claim::claim_rejection;
use crate::battle::error::ErrorCode;
use crate::battle::room::{
    close_rejection,
    create_rejection,
    join_rejection,
    new_room,
    platform_share,
    room_after_close,
    room_after_join,
    room_after_start,
    room_after_winner,
    set_winner_rejection,
    start_rejection,
    token_after_winner,
};
use crate::battle::state::{BattleRoom, BattleToken, WAITING_SECONDS};
use crate::battle::trade::{room_after_trade, token_after_trade, trade_rejection};

verus! {

/// One request made of a room.
pub enum RoomStep {
    /// A token asks to join at time `now`.
    Join { now: i64 },
    /// Someone asks to start the battle at time `now`.
    Start { now: i64 },
    /// A trade of `token` paying `fee_amount` is submitted at time `now`.
    Trade { token: BattleToken, now: i64, fee_amount: u64 },
    /// Someone asks to close the battle at time `now`.
    Close { now: i64 },
    /// `admin` asks to declare the token at `token_key` the winner.
    SetWinner { admin: Address, token_key: Address },
}

impl RoomStep {
    /// Why the room refuses this request, if it does.
    pub open spec fn rejection(self, room: BattleRoom) -> Option<ErrorCode> {
        match self {
            RoomStep::Join { now } => join_rejection(room, now),
            RoomStep::Start { now } => start_rejection(room, now),
            RoomStep::Trade { token, now, fee_amount } => trade_rejection(
                room,
                token,
                now,
                fee_amount,
            ),
            RoomStep::Close { now } => close_rejection(room, now),
            RoomStep::SetWinner { admin, token_key } => set_winner_rejection(room, admin),
        }
    }

    /// The room after this request: its next state if the request is
    /// accepted, the room itself if it is refused.
    pub open spec fn apply(self, room: BattleRoom) -> BattleRoom {
        if self.rejection(room) is Some {
            room
        } else {
            match self {
                RoomStep::Join { now } => room_after_join(room),
                RoomStep::Start { now } => room_after_start(room),
                RoomStep::Trade { token, now, fee_amount } => room_after_trade(room, fee_amount),
                RoomStep::Close { now } => room_after_close(room),
                RoomStep::SetWinner { admin, token_key } => room_after_winner(room, token_key),
            }
        }
    }

    /// The fee that this request adds to the room's total: the fee of an
    /// accepted trade, and nothing for any other request.
    pub open spec fn fee_collected(self, room: BattleRoom) -> int {
        match self {
            RoomStep::Trade { token, now, fee_amount } => if self.rejection(room) is None {
                fee_amount as int
            } else {
                0
            },
            _ => 0,
        }
    }
}

/// The room after a sequence of requests, made one after the other.
pub open spec fn room_after(room: BattleRoom, steps: Seq<RoomStep>) -> BattleRoom
    decreases steps.len(),
{
    if steps.len() == 0 {
        room
    } else {
        steps.last().apply(room_after(room, steps.drop_last()))
    }
}

/// The fees that a sequence of requests adds to the room's total: the sum of
/// the fees of the trades that the room accepted.
pub open spec fn fees_collected(room: BattleRoom, steps: Seq<RoomStep>) -> int
    decreases steps.len(),
{
    if steps.len() == 0 {
        0
    } else {
        fees_collected(room, steps.drop_last()) + steps.last().fee_collected(
            room_after(room, steps.drop_last()),
        )
    }
}

/// Creation is refused with `InvalidMaxParticipants` for every participant
/// limit outside two to five, whatever the duration, and accepted for every
/// limit inside that range together with a duration of one to twenty-four
/// hours.
pub proof fn lemma_create_checks_participants(max_participants: u8, battle_duration_seconds: i64)
    ensures
        !(2 <= max_participants <= 5) <==> create_rejection(
            max_participants,
            battle_duration_seconds,
        ) == Some(ErrorCode::InvalidMaxParticipants),
        2 <= max_participants <= 5 && 3600 <= battle_duration_seconds <= 86400
            <==> create_rejection(max_participants, battle_duration_seconds) is None,
        2 <= max_participants <= 5 && !(3600 <= battle_duration_seconds <= 86400)
            <==> create_rejection(max_participants, battle_duration_seconds) == Some(
            ErrorCode::InvalidBattleDuration,
        ),
{
}

/// A newly created room is well formed.
pub proof fn lemma_new_room_wf(
    admin: Address,
    now: i64,
    room_id: String,
    max_participants: u8,
    battle_duration_seconds: i64,
)
    requires
        create_rejection(max_participants, battle_duration_seconds) is None,
        now + WAITING_SECONDS + battle_duration_seconds <= i64::MAX,
    ensures
        new_room(admin, now, room_id, max_participants, battle_duration_seconds).wf(),
{
}

/// No request takes a well-formed room to one that is not.
pub proof fn lemma_step_preserves_wf(room: BattleRoom, step: RoomStep)
    requires
        room.wf(),
    ensures
        step.apply(room).wf(),
{
}

/// A room never moves backwards. A request leaves the status as it is, fills
/// an open room, starts an open or full one, or closes an active one; a
/// closed room stays closed.
pub proof fn lemma_step_moves_forward(room: BattleRoom, step: RoomStep)
    ensures
        ({
            let before = room.status;
            let after = step.apply(room).status;
            ||| after == before
            ||| before is Open && after is Full
            ||| (before is Open || before is Full) && after is Active
            ||| before is Active && after is Closed
        }),
        room.status.rank() <= step.apply(room).status.rank(),
{
}

/// A well-formed room, such as every newly created one, is well formed
/// after any sequence of requests: in particular it never holds more tokens
/// than it admits, an open room holds fewer, and a full room holds exactly as
/// many. Its status never moves backwards.
pub proof fn lemma_rooms_stay_wf(room: BattleRoom, steps: Seq<RoomStep>)
    requires
        room.wf(),
    ensures
        room_after(room, steps).wf(),
        room_after(room, steps).participant_count <= room_after(room, steps).max_participants,
        room.status.rank() <= room_after(room, steps).status.rank(),
    decreases steps.len(),
{
    if steps.len() > 0 {
        let before = room_after(room, steps.drop_last());
        lemma_rooms_stay_wf(room, steps.drop_last());
        lemma_step_preserves_wf(before, steps.last());
        lemma_step_moves_forward(before, steps.last());
    }
}

/// Whatever is asked of a room after its creation, it never holds more
/// tokens than it admits, and until its battle starts it is full exactly
/// when it holds as many as it admits.
pub proof fn lemma_created_rooms_respect_limit(
    admin: Address,
    now: i64,
    room_id: String,
    max_participants: u8,
    battle_duration_seconds: i64,
    steps: Seq<RoomStep>,
)
    requires
        create_rejection(max_participants, battle_duration_seconds) is None,
        now + WAITING_SECONDS + battle_duration_seconds <= i64::MAX,
    ensures
        ({
            let room = room_after(
                new_room(admin, now, room_id, max_participants, battle_duration_seconds),
                steps,
            );
            &&& room.wf()
            &&& room.max_participants == max_participants
            &&& room.participant_count <= max_participants
            &&& room.status is Open || room.status is Full ==> (room.status is Full
                <==> room.participant_count == max_participants)
        }),
{
    let created = new_room(admin, now, room_id, max_participants, battle_duration_seconds);
    lemma_new_room_wf(admin, now, room_id, max_participants, battle_duration_seconds);
    lemma_rooms_stay_wf(created, steps);
    lemma_limit_is_fixed(created, steps);
}

/// No request changes how many tokens a room admits, who its admin is, or
/// when its waiting window and its battle end.
pub proof fn lemma_limit_is_fixed(room: BattleRoom, steps: Seq<RoomStep>)
    ensures
        room_after(room, steps).max_participants == room.max_participants,
        room_after(room, steps).admin == room.admin,
        room_after(room, steps).room_id == room.room_id,
        room_after(room, steps).created_at == room.created_at,
        room_after(room, steps).waiting_time_end == room.waiting_time_end,
        room_after(room, steps).battle_end_time == room.battle_end_time,
        room_after(room, steps).platform_fee_percentage == room.platform_fee_percentage,
    decreases steps.len(),
{
    if steps.len() > 0 {
        lemma_limit_is_fixed(room, steps.drop_last());
    }
}

/// A join fills the room exactly when it brings the count to the limit: the
/// room is full after an accepted join if and only if the new count equals
/// the limit, and before that join it was open with a count below the limit.
pub proof fn lemma_full_exactly_at_limit(room: BattleRoom, now: i64)
    requires
        join_rejection(room, now) is None,
    ensures
        room.status is Open,
        room.participant_count < room.max_participants,
        room_after_join(room).participant_count == room.participant_count + 1,
        room_after_join(room).status is Full <==> room_after_join(room).participant_count
            == room.max_participants,
        !(room_after_join(room).status is Full) ==> room_after_join(room).status is Open,
{
}

/// A well-formed room never refuses a token with `RoomFull`: once it holds
/// as many tokens as it admits it is no longer open, and refuses with
/// `RoomNotOpen`.
pub proof fn lemma_full_rooms_are_not_open(room: BattleRoom, now: i64)
    requires
        room.wf(),
    ensures
        join_rejection(room, now) != Some(ErrorCode::RoomFull),
        room.participant_count == room.max_participants ==> join_rejection(room, now) == Some(
            ErrorCode::RoomNotOpen,
        ),
{
}

/// The platform's share is never more than the fees collected, as long as
/// the percentage is at most a hundred; at ten percent it is a tenth of the
/// total, rounded down.
pub proof fn lemma_platform_share_bounded(total_fees: u64, percentage: u8)
    requires
        percentage <= 100,
    ensures
        0 <= platform_share(total_fees, percentage) <= total_fees,
        platform_share(total_fees, 10) == total_fees / 10,
{
    assert(0 <= total_fees * percentage <= total_fees * 100) by (nonlinear_arith)
        requires
            0 <= percentage <= 100,
            0 <= total_fees,
    ;
}

/// For a room that is open or full, the start is refused with
/// `WaitingTimeNotPassed` at every time before the end of the waiting window;
/// from that time on it is accepted if at least two tokens have joined and
/// refused with `NotEnoughParticipants` otherwise. A room in any other state
/// refuses with `InvalidRoomStatus`.
pub proof fn lemma_start_gates(room: BattleRoom, now: i64)
    ensures
        (room.status is Open || room.status is Full) && now < room.waiting_time_end
            ==> start_rejection(room, now) == Some(ErrorCode::WaitingTimeNotPassed),
        (room.status is Open || room.status is Full) && now >= room.waiting_time_end
            && room.participant_count >= 2 ==> start_rejection(room, now) is None,
        (room.status is Open || room.status is Full) && now >= room.waiting_time_end
            && room.participant_count < 2 ==> start_rejection(room, now) == Some(
            ErrorCode::NotEnoughParticipants,
        ),
        room.status is Active || room.status is Closed ==> start_rejection(room, now) == Some(
            ErrorCode::InvalidRoomStatus,
        ),
{
}

/// A started battle cannot be started again.
pub proof fn lemma_start_not_repeatable(room: BattleRoom, now: i64, later: i64)
    requires
        start_rejection(room, now) is None,
    ensures
        start_rejection(room_after_start(room), later) == Some(ErrorCode::InvalidRoomStatus),
{
}

/// A trade is refused with `BattleNotActive` in every room that is not
/// active, whether its battle has yet to start or is already closed.
pub proof fn lemma_trade_needs_active_battle(
    room: BattleRoom,
    token: BattleToken,
    now: i64,
    fee_amount: u64,
)
    requires
        !(room.status is Active),
    ensures
        trade_rejection(room, token, now, fee_amount) == Some(ErrorCode::BattleNotActive),
{
}

/// A trade whose fee would take the room's or the token's fee total past
/// `u64::MAX` is refused; an active room within its time refuses it with
/// `ArithmeticOverflow`.
pub proof fn lemma_trade_overflow_refused(
    room: BattleRoom,
    token: BattleToken,
    now: i64,
    fee_amount: u64,
)
    requires
        room.total_fees_collected + fee_amount > u64::MAX || token.total_fees + fee_amount
            > u64::MAX,
    ensures
        trade_rejection(room, token, now, fee_amount) is Some,
        room.status is Active && now <= room.battle_end_time ==> trade_rejection(
            room,
            token,
            now,
            fee_amount,
        ) == Some(ErrorCode::ArithmeticOverflow),
        (RoomStep::Trade { token, now, fee_amount }).apply(room) == room,
{
}

/// After any sequence of requests the room's fee total is its earlier total
/// plus the exact sum of the fees of the trades it accepted: no fee is lost,
/// none is counted twice, and no other request touches the total.
pub proof fn lemma_fees_are_exact_sum(room: BattleRoom, steps: Seq<RoomStep>)
    ensures
        room_after(room, steps).total_fees_collected == room.total_fees_collected + fees_collected(
            room,
            steps,
        ),
    decreases steps.len(),
{
    if steps.len() > 0 {
        lemma_fees_are_exact_sum(room, steps.drop_last());
    }
}

/// One accepted trade of a token, as far as the token's own record goes.
pub struct TokenTrade {
    pub fee_amount: u64,
    pub market_cap_update: u64,
}

/// A token after a run of accepted trades, recorded one after the other.
pub open spec fn token_after_trades(token: BattleToken, trades: Seq<TokenTrade>) -> BattleToken
    decreases trades.len(),
{
    if trades.len() == 0 {
        token
    } else {
        token_after_trade(
            token_after_trades(token, trades.drop_last()),
            trades.last().fee_amount,
            trades.last().market_cap_update,
        )
    }
}

/// The sum of the fees of a run of trades.
pub open spec fn fees_of(trades: Seq<TokenTrade>) -> int
    decreases trades.len(),
{
    if trades.len() == 0 {
        0
    } else {
        fees_of(trades.drop_last()) + trades.last().fee_amount
    }
}

/// A sum of fees is not negative.
pub proof fn lemma_fees_nonnegative(trades: Seq<TokenTrade>)
    ensures
        0 <= fees_of(trades),
    decreases trades.len(),
{
    if trades.len() > 0 {
        lemma_fees_nonnegative(trades.drop_last());
    }
}

/// After a run of accepted trades a token's fee total is its earlier total
/// plus the exact sum of their fees, and its market cap is the one that the
/// latest trade reported. Nothing else about the token changes.
pub proof fn lemma_token_ledger(token: BattleToken, trades: Seq<TokenTrade>)
    requires
        token.total_fees + fees_of(trades) <= u64::MAX,
    ensures
        token_after_trades(token, trades) == (BattleToken {
            total_fees: (token.total_fees + fees_of(trades)) as u64,
            current_market_cap: if trades.len() == 0 {
                token.current_market_cap
            } else {
                trades.last().market_cap_update
            },
            ..token
        }),
    decreases trades.len(),
{
    if trades.len() > 0 {
        lemma_fees_nonnegative(trades.drop_last());
        lemma_token_ledger(token, trades.drop_last());
    }
}

/// Every accepted trade falls inside the battle: if the battle was started
/// at `started_at` and the clock has not moved backwards since, the trade's
/// time lies between the end of the waiting window and the end of the
/// battle.
pub proof fn lemma_trade_within_battle(
    room: BattleRoom,
    token: BattleToken,
    started_at: i64,
    now: i64,
    fee_amount: u64,
)
    requires
        start_rejection(room, started_at) is None,
        started_at <= now,
        trade_rejection(room_after_start(room), token, now, fee_amount) is None,
    ensures
        room.waiting_time_end <= now <= room.battle_end_time,
{
}

/// A winner is declared only by the room's admin and only for a closed room:
/// the declaration is accepted exactly then.
pub proof fn lemma_winner_needs_admin_and_closure(room: BattleRoom, caller: Address)
    ensures
        set_winner_rejection(room, caller) is None <==> room.admin == caller
            && room.status is Closed,
{
}

/// The tokens that are flagged as winners among those of a room.
pub open spec fn winners(tokens: Map<Address, BattleToken>) -> Set<Address> {
    Set::new(|k: Address| tokens.contains_key(k) && tokens[k].is_winner)
}

/// After an accepted declaration exactly one token of the room is the
/// winner, and it is the one that the room records.
///
/// `tokens` holds the tokens of the room by their addresses. The declared
/// token must be one of them, and no other token of the room may carry the
/// flag from an earlier declaration.
pub proof fn lemma_exactly_one_winner(
    room: BattleRoom,
    tokens: Map<Address, BattleToken>,
    token_key: Address,
    admin: Address,
)
    requires
        set_winner_rejection(room, admin) is None,
        tokens.contains_key(token_key),
        forall|k: Address| tokens.contains_key(k) && k != token_key ==> !tokens[k].is_winner,
    ensures
        ({
            let room_after = room_after_winner(room, token_key);
            let tokens_after = tokens.insert(token_key, token_after_winner(tokens[token_key]));
            &&& room_after.winner_token == Some(token_key)
            &&& winners(tokens_after) == set![token_key]
            &&& winners(tokens_after).len() == 1
            &&& forall|k: Address|
                tokens_after.contains_key(k) ==> (tokens_after[k].is_winner <==> k == token_key)
        }),
{
    let tokens_after = tokens.insert(token_key, token_after_winner(tokens[token_key]));
    assert(winners(tokens_after) =~= set![token_key]);
}

/// The room and its tokens agree on the winner: a token carries the flag
/// exactly when the room records it as the winner.
pub open spec fn winner_agrees(room: BattleRoom, tokens: Map<Address, BattleToken>) -> bool {
    forall|k: Address|
        tokens.contains_key(k) ==> (#[trigger] tokens[k].is_winner <==> room.winner_token == Some(
            k,
        ))
}

/// The first declaration of a winner, and any repetition of it for the same
/// token, keeps the room and its tokens in agreement on the winner.
pub proof fn lemma_declaration_keeps_agreement(
    room: BattleRoom,
    tokens: Map<Address, BattleToken>,
    token_key: Address,
    admin: Address,
)
    requires
        winner_agrees(room, tokens),
        set_winner_rejection(room, admin) is None,
        tokens.contains_key(token_key),
        room.winner_token is None || room.winner_token == Some(token_key),
    ensures
        winner_agrees(
            room_after_winner(room, token_key),
            tokens.insert(token_key, token_after_winner(tokens[token_key])),
        ),
{
    let tokens_after = tokens.insert(token_key, token_after_winner(tokens[token_key]));
    assert forall|k: Address| tokens_after.contains_key(k) implies (
    #[trigger] tokens_after[k].is_winner <==> room_after_winner(room, token_key).winner_token
        == Some(k)) by {
        if k != token_key {
            assert(tokens.contains_key(k));
            assert(tokens[k].is_winner <==> room.winner_token == Some(k));
        }
    }
}

/// In a well-formed room that agrees with its tokens on the winner, a token
/// carries the flag only once the battle is closed.
pub proof fn lemma_winner_only_after_closure(
    room: BattleRoom,
    tokens: Map<Address, BattleToken>,
    token_key: Address,
)
    requires
        room.wf(),
        winner_agrees(room, tokens),
        tokens.contains_key(token_key),
        tokens[token_key].is_winner,
    ensures
        room.status is Closed,
        room.winner_token == Some(token_key),
{
}

/// While the room and its tokens agree on the winner, at most one token of
/// the room carries the flag, and an accepted claim names the token that the
/// room records as its winner.
pub proof fn lemma_claims_name_the_winner(
    room: BattleRoom,
    tokens: Map<Address, BattleToken>,
    token_key: Address,
)
    requires
        winner_agrees(room, tokens),
        tokens.contains_key(token_key),
        claim_rejection(room, tokens[token_key]) is None,
    ensures
        room.winner_token == Some(token_key),
        winners(tokens) == set![token_key],
{
    assert(tokens[token_key].is_winner);
    assert forall|k: Address| winners(tokens).contains(k) implies k == token_key by {
        assert(tokens[k].is_winner);
    }
    assert(winners(tokens) =~= set![token_key]);
}

} // verus!
