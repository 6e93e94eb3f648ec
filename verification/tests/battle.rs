use wybe_core::address::Address;
use wybe_core::battle::{
    check_end_time_fits, claim_reward, close_battle, create_battle_room, join_battle_room, record_trade, set_winner,
    start_battle, BattleRoom, BattleRoomStatus, BattleToken, ErrorCode, RewardClaim, TradeRecord,
    TradeType,
};

fn addr(n: u8) -> Address {
    Address::new([n; 32])
}

const CREATED_AT: i64 = 1_700_000_000;

fn room_for(max: u8) -> BattleRoom {
    create_battle_room(addr(1), CREATED_AT, String::from("room-1"), max, 3600).unwrap().0
}

fn join(room: &mut BattleRoom, n: u8, now: i64) -> Result<BattleToken, ErrorCode> {
    join_battle_room(
        room,
        addr(100),
        addr(n),
        now,
        format!("T{}", n),
        format!("Token {}", n),
        1_000_000,
    )
    .map(|(token, _)| token)
}

fn active_room() -> (BattleRoom, BattleToken, BattleToken) {
    let mut room = room_for(3);
    let a = join(&mut room, 10, CREATED_AT).unwrap();
    let b = join(&mut room, 11, CREATED_AT).unwrap();
    let start = room.waiting_time_end;
    start_battle(&mut room, start).unwrap();
    (room, a, b)
}

#[test]
fn create_sets_every_field() {
    let (room, ev) =
        create_battle_room(addr(1), CREATED_AT, String::from("room-1"), 3, 3600).unwrap();
    assert_eq!(room.room_id, "room-1");
    assert_eq!(room.admin, addr(1));
    assert_eq!(room.max_participants, 3);
    assert_eq!(room.status, BattleRoomStatus::Open);
    assert_eq!(room.created_at, CREATED_AT);
    assert_eq!(room.waiting_time_end, CREATED_AT + 60);
    assert_eq!(room.battle_end_time, CREATED_AT + 60 + 3600);
    assert_eq!(room.platform_fee_percentage, 10);
    assert_eq!(room.participant_count, 0);
    assert_eq!(room.total_fees_collected, 0);
    assert_eq!(room.winner_token, None);
    assert_eq!(ev.room_id, "room-1");
    assert_eq!(ev.admin, addr(1));
    assert_eq!(ev.max_participants, 3);
    assert_eq!(ev.created_at, CREATED_AT);
    assert_eq!(ev.battle_start, CREATED_AT + 60);
    assert_eq!(ev.battle_end, CREATED_AT + 3660);
}

#[test]
fn create_accepts_every_limit_from_two_to_five() {
    for max in 2u8..=5 {
        let res = create_battle_room(addr(1), CREATED_AT, String::from("r"), max, 3600);
        assert_eq!(res.unwrap().0.max_participants, max);
    }
}

#[test]
fn create_rejects_every_limit_outside_two_to_five() {
    for max in 0u8..=255 {
        if (2..=5).contains(&max) {
            continue;
        }
        let res = create_battle_room(addr(1), CREATED_AT, String::from("r"), max, 3600);
        assert_eq!(res.unwrap_err(), ErrorCode::InvalidMaxParticipants);
    }
}

#[test]
fn create_checks_the_limit_before_the_duration() {
    let res = create_battle_room(addr(1), CREATED_AT, String::from("r"), 6, 10);
    assert_eq!(res.unwrap_err(), ErrorCode::InvalidMaxParticipants);
}

#[test]
fn create_rejects_durations_outside_one_to_twenty_four_hours() {
    for duration in [i64::MIN, -1, 0, 3599, 86401, i64::MAX] {
        let res = create_battle_room(addr(1), 0, String::from("r"), 3, duration);
        assert_eq!(res.unwrap_err(), ErrorCode::InvalidBattleDuration);
    }
    for duration in [3600, 3601, 86399, 86400] {
        let (room, _) = create_battle_room(addr(1), 0, String::from("r"), 3, duration).unwrap();
        assert_eq!(room.battle_end_time, 60 + duration);
    }
}

#[test]
fn join_creates_the_token_and_counts_it() {
    let mut room = room_for(3);
    let (token, ev) = join_battle_room(
        &mut room,
        addr(100),
        addr(7),
        CREATED_AT + 59,
        String::from("DOGE"),
        String::from("Doge"),
        42,
    )
    .unwrap();
    assert_eq!(
        token,
        BattleToken {
            token_symbol: String::from("DOGE"),
            token_name: String::from("Doge"),
            creator: addr(7),
            battle_room: addr(100),
            initial_supply: 42,
            current_market_cap: 0,
            total_fees: 0,
            created_at: CREATED_AT + 59,
            is_winner: false,
        }
    );
    assert_eq!(ev.room_id, "room-1");
    assert_eq!(ev.token_symbol, "DOGE");
    assert_eq!(ev.creator, addr(7));
    assert_eq!(ev.created_at, CREATED_AT + 59);
    assert_eq!(room.participant_count, 1);
    assert_eq!(room.status, BattleRoomStatus::Open);
}

#[test]
fn room_becomes_full_exactly_at_the_limit() {
    for max in 2u8..=5 {
        let mut room = room_for(max);
        for n in 1..=max {
            assert_eq!(room.status, BattleRoomStatus::Open);
            join(&mut room, n, CREATED_AT).unwrap();
            assert_eq!(room.participant_count, n);
            assert!(room.participant_count <= room.max_participants);
            assert_eq!(room.status == BattleRoomStatus::Full, n == max);
        }
        let before = room.clone();
        assert_eq!(join(&mut room, 99, CREATED_AT).unwrap_err(), ErrorCode::RoomNotOpen);
        assert_eq!(room, before);
    }
}

#[test]
fn join_rejects_after_the_waiting_window() {
    let mut room = room_for(3);
    let before = room.clone();
    assert_eq!(
        join(&mut room, 1, CREATED_AT + 60).unwrap_err(),
        ErrorCode::WaitingTimePassed
    );
    assert_eq!(room, before);
    assert!(join(&mut room, 1, CREATED_AT + 59).is_ok());
}

#[test]
fn join_rejects_a_count_at_the_limit_in_an_open_room() {
    let mut room = room_for(2);
    room.participant_count = 2;
    assert_eq!(join(&mut room, 1, CREATED_AT).unwrap_err(), ErrorCode::RoomFull);
    assert_eq!(room.participant_count, 2);
}

#[test]
fn join_reports_a_closed_door_before_a_late_hour() {
    let (mut room, _, _) = active_room();
    assert_eq!(
        join(&mut room, 1, CREATED_AT + 1000).unwrap_err(),
        ErrorCode::RoomNotOpen
    );
}

#[test]
fn start_waits_for_the_end_of_the_window() {
    let mut room = room_for(3);
    join(&mut room, 1, CREATED_AT).unwrap();
    join(&mut room, 2, CREATED_AT).unwrap();
    let before = room.clone();
    for now in [i64::MIN, 0, CREATED_AT, CREATED_AT + 59] {
        assert_eq!(
            start_battle(&mut room, now).unwrap_err(),
            ErrorCode::WaitingTimeNotPassed
        );
        assert_eq!(room, before);
    }
    let ev = start_battle(&mut room, CREATED_AT + 60).unwrap();
    assert_eq!(room.status, BattleRoomStatus::Active);
    assert_eq!(ev.room_id, "room-1");
    assert_eq!(ev.start_time, CREATED_AT + 60);
    assert_eq!(ev.end_time, CREATED_AT + 3660);
    assert_eq!(ev.participant_count, 2);
}

#[test]
fn start_needs_two_participants() {
    let mut room = room_for(3);
    assert_eq!(
        start_battle(&mut room, CREATED_AT + 60).unwrap_err(),
        ErrorCode::NotEnoughParticipants
    );
    join(&mut room, 1, CREATED_AT).unwrap();
    assert_eq!(
        start_battle(&mut room, CREATED_AT + 61).unwrap_err(),
        ErrorCode::NotEnoughParticipants
    );
    assert_eq!(room.status, BattleRoomStatus::Open);
}

#[test]
fn start_works_from_a_full_room() {
    let mut room = room_for(2);
    join(&mut room, 1, CREATED_AT).unwrap();
    join(&mut room, 2, CREATED_AT).unwrap();
    assert_eq!(room.status, BattleRoomStatus::Full);
    assert!(start_battle(&mut room, i64::MAX).is_ok());
    assert_eq!(room.status, BattleRoomStatus::Active);
}

#[test]
fn start_cannot_be_repeated() {
    let (mut room, _, _) = active_room();
    let before = room.clone();
    assert_eq!(
        start_battle(&mut room, CREATED_AT + 100).unwrap_err(),
        ErrorCode::InvalidRoomStatus
    );
    assert_eq!(room, before);
    let end = room.battle_end_time;
    close_battle(&mut room, end).unwrap();
    assert_eq!(
        start_battle(&mut room, 0).unwrap_err(),
        ErrorCode::InvalidRoomStatus
    );
}

#[test]
fn trade_writes_the_record_and_both_totals() {
    let (mut room, mut token, _) = active_room();
    let now = room.waiting_time_end + 5;
    let (record, ev) =
        record_trade(&mut room, &mut token, addr(50), addr(60), now, 1000, 50, TradeType::Buy, 9000)
            .unwrap();
    assert_eq!(
        record,
        TradeRecord {
            battle_token: addr(50),
            trader: addr(60),
            amount: 1000,
            fee: 50,
            trade_type: TradeType::Buy,
            timestamp: now,
        }
    );
    assert_eq!(ev.battle_token, addr(50));
    assert_eq!(ev.trader, addr(60));
    assert_eq!(ev.amount, 1000);
    assert_eq!(ev.fee, 50);
    assert_eq!(ev.trade_type, TradeType::Buy);
    assert_eq!(ev.market_cap, 9000);
    assert_eq!(ev.timestamp, now);
    assert_eq!(room.total_fees_collected, 50);
    assert_eq!(token.total_fees, 50);
    assert_eq!(token.current_market_cap, 9000);
}

#[test]
fn market_cap_is_the_latest_report() {
    let (mut room, mut token, _) = active_room();
    let now = room.waiting_time_end;
    for cap in [500u64, 20, 0, 777] {
        record_trade(&mut room, &mut token, addr(50), addr(60), now, 1, 0, TradeType::Sell, cap)
            .unwrap();
        assert_eq!(token.current_market_cap, cap);
    }
}

#[test]
fn fees_add_up_exactly_over_many_trades() {
    let (mut room, mut a, mut b) = active_room();
    let now = room.waiting_time_end;
    let fees = [0u64, 1, 50, 999, 123_456_789, 7, u32::MAX as u64];
    let mut sum_a = 0u64;
    let mut sum_b = 0u64;
    for (i, fee) in fees.iter().enumerate() {
        if i % 2 == 0 {
            record_trade(&mut room, &mut a, addr(50), addr(60), now, 10, *fee, TradeType::Buy, 1)
                .unwrap();
            sum_a += *fee;
        } else {
            record_trade(&mut room, &mut b, addr(51), addr(60), now, 10, *fee, TradeType::Sell, 1)
                .unwrap();
            sum_b += *fee;
        }
        assert_eq!(room.total_fees_collected, sum_a + sum_b);
    }
    assert_eq!(a.total_fees, sum_a);
    assert_eq!(b.total_fees, sum_b);
    assert_eq!(room.total_fees_collected, fees.iter().sum::<u64>());
}

#[test]
fn trade_fails_before_the_battle_and_after_it() {
    let mut room = room_for(2);
    let mut token = join(&mut room, 1, CREATED_AT).unwrap();
    let trade = |room: &mut BattleRoom, token: &mut BattleToken, now: i64| {
        record_trade(room, token, addr(50), addr(60), now, 1, 1, TradeType::Buy, 1)
            .map(|_| ())
            .unwrap_err()
    };
    assert_eq!(trade(&mut room, &mut token, CREATED_AT), ErrorCode::BattleNotActive);
    join(&mut room, 2, CREATED_AT).unwrap();
    assert_eq!(room.status, BattleRoomStatus::Full);
    assert_eq!(trade(&mut room, &mut token, CREATED_AT + 60), ErrorCode::BattleNotActive);
    start_battle(&mut room, CREATED_AT + 60).unwrap();
    let end = room.battle_end_time;
    close_battle(&mut room, end).unwrap();
    let room_before = room.clone();
    let token_before = token.clone();
    assert_eq!(trade(&mut room, &mut token, CREATED_AT + 61), ErrorCode::BattleNotActive);
    assert_eq!(room, room_before);
    assert_eq!(token, token_before);
}

#[test]
fn trade_is_accepted_at_the_end_time_and_refused_after() {
    let (mut room, mut token, _) = active_room();
    let end = room.battle_end_time;
    assert!(
        record_trade(&mut room, &mut token, addr(50), addr(60), end, 1, 1, TradeType::Buy, 1)
            .is_ok()
    );
    let before = (room.clone(), token.clone());
    let err =
        record_trade(&mut room, &mut token, addr(50), addr(60), end + 1, 1, 1, TradeType::Buy, 1)
            .unwrap_err();
    assert_eq!(err, ErrorCode::BattleEnded);
    assert_eq!((room, token), before);
}

#[test]
fn overflowing_room_total_is_refused_and_changes_nothing() {
    let (mut room, mut token, _) = active_room();
    room.total_fees_collected = u64::MAX - 10;
    token.current_market_cap = 5;
    let before = (room.clone(), token.clone());
    let now = room.waiting_time_end;
    let err = record_trade(&mut room, &mut token, addr(50), addr(60), now, 1, 11, TradeType::Buy, 9)
        .unwrap_err();
    assert_eq!(err, ErrorCode::ArithmeticOverflow);
    assert_eq!((room.clone(), token.clone()), before);
    record_trade(&mut room, &mut token, addr(50), addr(60), now, 1, 10, TradeType::Buy, 9).unwrap();
    assert_eq!(room.total_fees_collected, u64::MAX);
    assert_eq!(token.total_fees, 10);
}

#[test]
fn overflowing_token_total_is_refused_and_changes_nothing() {
    let (mut room, mut token, _) = active_room();
    token.total_fees = u64::MAX;
    let before = (room.clone(), token.clone());
    let now = room.waiting_time_end;
    let err = record_trade(&mut room, &mut token, addr(50), addr(60), now, 1, 1, TradeType::Buy, 9)
        .unwrap_err();
    assert_eq!(err, ErrorCode::ArithmeticOverflow);
    assert_eq!((room, token), before);
}

#[test]
fn close_reports_the_platform_share() {
    let (mut room, mut token, _) = active_room();
    let now = room.waiting_time_end;
    record_trade(&mut room, &mut token, addr(50), addr(60), now, 1000, 50, TradeType::Buy, 1)
        .unwrap();
    let end = room.battle_end_time;
    let ev = close_battle(&mut room, end).unwrap();
    assert_eq!(room.status, BattleRoomStatus::Closed);
    assert_eq!(ev.room_id, "room-1");
    assert_eq!(ev.total_fees, 50);
    assert_eq!(ev.platform_fee, 5);
    assert_eq!(ev.closed_at, end);
    assert_eq!(room.total_fees_collected, 50);
}

#[test]
fn platform_share_rounds_down() {
    for (total, share) in [(0u64, 0u64), (9, 0), (10, 1), (19, 1), (99, 9), (1005, 100)] {
        let (mut room, _, _) = active_room();
        room.total_fees_collected = total;
        let end = room.battle_end_time;
        assert_eq!(close_battle(&mut room, end).unwrap().platform_fee, share);
    }
}

#[test]
fn platform_share_follows_the_rooms_percentage() {
    let (mut room, _, _) = active_room();
    room.total_fees_collected = 250;
    room.platform_fee_percentage = 33;
    let end = room.battle_end_time;
    assert_eq!(close_battle(&mut room, end).unwrap().platform_fee, 82);
}

#[test]
fn close_waits_for_the_end_time() {
    let (mut room, _, _) = active_room();
    let before = room.clone();
    let end = room.battle_end_time;
    assert_eq!(close_battle(&mut room, end - 1).unwrap_err(), ErrorCode::BattleNotEnded);
    assert_eq!(room, before);
    assert!(close_battle(&mut room, end).is_ok());
}

#[test]
fn close_needs_an_active_battle() {
    let mut room = room_for(2);
    assert_eq!(
        close_battle(&mut room, i64::MAX).unwrap_err(),
        ErrorCode::InvalidRoomStatus
    );
    let (mut room, _, _) = active_room();
    let end = room.battle_end_time;
    close_battle(&mut room, end).unwrap();
    assert_eq!(close_battle(&mut room, end).unwrap_err(), ErrorCode::InvalidRoomStatus);
}

#[test]
fn close_refuses_a_share_that_overflows() {
    let (mut room, _, _) = active_room();
    room.total_fees_collected = u64::MAX / 10 + 1;
    let before = room.clone();
    let end = room.battle_end_time;
    assert_eq!(close_battle(&mut room, end).unwrap_err(), ErrorCode::ArithmeticOverflow);
    assert_eq!(room, before);
    room.total_fees_collected = u64::MAX / 10;
    assert_eq!(close_battle(&mut room, end).unwrap().platform_fee, u64::MAX / 100);
}

#[test]
fn winner_is_set_by_the_admin_of_a_closed_room() {
    let (mut room, mut a, b) = active_room();
    let end = room.battle_end_time;
    close_battle(&mut room, end).unwrap();
    let ev = set_winner(&mut room, &mut a, addr(50), addr(1)).unwrap();
    assert_eq!(room.winner_token, Some(addr(50)));
    assert!(a.is_winner);
    assert!(!b.is_winner);
    assert_eq!(ev.room_id, "room-1");
    assert_eq!(ev.winner_token, addr(50));
    assert_eq!(ev.token_symbol, "T10");
    assert_eq!(room.status, BattleRoomStatus::Closed);
}

#[test]
fn winner_cannot_be_set_by_anyone_else() {
    let (mut room, mut a, _) = active_room();
    let end = room.battle_end_time;
    close_battle(&mut room, end).unwrap();
    let before = (room.clone(), a.clone());
    assert_eq!(
        set_winner(&mut room, &mut a, addr(50), addr(2)).unwrap_err(),
        ErrorCode::Unauthorized
    );
    assert_eq!((room, a), before);
}

#[test]
fn winner_cannot_be_set_before_the_battle_is_closed() {
    let (mut room, mut a, _) = active_room();
    let before = (room.clone(), a.clone());
    assert_eq!(
        set_winner(&mut room, &mut a, addr(50), addr(1)).unwrap_err(),
        ErrorCode::BattleNotClosed
    );
    assert_eq!((room.clone(), a.clone()), before);
    assert_eq!(
        set_winner(&mut room, &mut a, addr(50), addr(9)).unwrap_err(),
        ErrorCode::Unauthorized
    );
}

#[test]
fn claim_is_recorded_against_the_winner() {
    let (mut room, mut a, _) = active_room();
    let end = room.battle_end_time;
    close_battle(&mut room, end).unwrap();
    set_winner(&mut room, &mut a, addr(50), addr(1)).unwrap();
    let (claim, ev) = claim_reward(&room, &a, addr(100), addr(50), addr(60), end + 7, 1234).unwrap();
    assert_eq!(
        claim,
        RewardClaim {
            battle_room: addr(100),
            battle_token: addr(50),
            trader: addr(60),
            amount: 1234,
            claimed_at: end + 7,
        }
    );
    assert_eq!(ev.room_id, "room-1");
    assert_eq!(ev.token_symbol, "T10");
    assert_eq!(ev.trader, addr(60));
    assert_eq!(ev.amount, 1234);
    assert_eq!(ev.claimed_at, end + 7);
}

#[test]
fn claim_against_another_token_fails() {
    let (mut room, mut a, b) = active_room();
    let end = room.battle_end_time;
    close_battle(&mut room, end).unwrap();
    set_winner(&mut room, &mut a, addr(50), addr(1)).unwrap();
    let err = claim_reward(&room, &b, addr(100), addr(51), addr(60), end, 1).unwrap_err();
    assert_eq!(err, ErrorCode::TokenNotWinner);
}

#[test]
fn claim_needs_a_closed_battle() {
    let (room, mut a, b) = active_room();
    a.is_winner = true;
    let err = claim_reward(&room, &a, addr(100), addr(50), addr(60), 0, 1).unwrap_err();
    assert_eq!(err, ErrorCode::BattleNotClosed);
    let err = claim_reward(&room, &b, addr(100), addr(51), addr(60), 0, 1).unwrap_err();
    assert_eq!(err, ErrorCode::TokenNotWinner);
}

#[test]
fn a_whole_battle() {
    let admin = addr(1);
    let (mut room, _) = create_battle_room(admin, CREATED_AT, String::from("arena"), 3, 3600).unwrap();
    let created_at = room.created_at;

    let mut first = join(&mut room, 10, created_at).unwrap();
    let second = join(&mut room, 11, created_at).unwrap();
    assert_eq!(room.status, BattleRoomStatus::Open);
    let _third = join(&mut room, 12, created_at).unwrap();
    assert_eq!(room.status, BattleRoomStatus::Full);

    let start = room.waiting_time_end;
    start_battle(&mut room, start).unwrap();
    assert_eq!(room.status, BattleRoomStatus::Active);

    record_trade(&mut room, &mut first, addr(50), addr(60), start, 1000, 50, TradeType::Buy, 1)
        .unwrap();
    assert_eq!(room.total_fees_collected, 50);

    let end = room.battle_end_time;
    let closed = close_battle(&mut room, end).unwrap();
    assert_eq!(closed.platform_fee, 5);

    set_winner(&mut room, &mut first, addr(50), admin).unwrap();
    assert!(first.is_winner);

    let err = claim_reward(&room, &second, addr(100), addr(51), addr(60), end, 1).unwrap_err();
    assert_eq!(err, ErrorCode::TokenNotWinner);
    assert!(claim_reward(&room, &first, addr(100), addr(50), addr(60), end, 1).is_ok());
}

#[test]
fn end_time_fits_for_every_clock_reading() {
    assert!(check_end_time_fits(0, 3, 3600));
    assert!(check_end_time_fits(CREATED_AT, 5, 86400));
    assert!(check_end_time_fits(i64::MIN, 2, 86400));
    assert!(check_end_time_fits(i64::MAX - 86460, 2, 86400));
    assert!(check_end_time_fits(i64::MAX - 3660, 2, 3600));
}

#[test]
fn end_time_does_not_fit_at_the_end_of_time() {
    assert!(!check_end_time_fits(i64::MAX - 86459, 2, 86400));
    assert!(!check_end_time_fits(i64::MAX - 3659, 2, 3600));
    assert!(!check_end_time_fits(i64::MAX, 5, 3600));
}

#[test]
fn end_time_is_not_asked_of_refused_arguments() {
    assert!(check_end_time_fits(i64::MAX, 1, 3600));
    assert!(check_end_time_fits(i64::MAX, 3, 10));
    assert!(check_end_time_fits(i64::MAX, 3, i64::MAX));
    let res = create_battle_room(addr(1), i64::MAX, String::from("r"), 3, i64::MAX);
    assert_eq!(res.unwrap_err(), ErrorCode::InvalidBattleDuration);
}

#[test]
fn create_works_at_the_last_time_that_fits() {
    let now = i64::MAX - 3660;
    let (room, _) = create_battle_room(addr(1), now, String::from("r"), 2, 3600).unwrap();
    assert_eq!(room.waiting_time_end, i64::MAX - 3600);
    assert_eq!(room.battle_end_time, i64::MAX);
}

#[test]
fn repeating_a_declaration_changes_nothing() {
    let (mut room, mut a, _) = active_room();
    let end = room.battle_end_time;
    close_battle(&mut room, end).unwrap();
    set_winner(&mut room, &mut a, addr(50), addr(1)).unwrap();
    let before = (room.clone(), a.clone());
    set_winner(&mut room, &mut a, addr(50), addr(1)).unwrap();
    assert_eq!((room, a), before);
}

#[test]
fn a_later_declaration_replaces_the_recorded_winner() {
    let (mut room, mut a, mut b) = active_room();
    let end = room.battle_end_time;
    close_battle(&mut room, end).unwrap();
    set_winner(&mut room, &mut a, addr(50), addr(1)).unwrap();
    set_winner(&mut room, &mut b, addr(51), addr(1)).unwrap();
    assert_eq!(room.winner_token, Some(addr(51)));
    assert!(b.is_winner);
    assert!(a.is_winner);
}

#[test]
fn no_request_takes_a_room_backwards() {
    fn rank(status: BattleRoomStatus) -> u8 {
        match status {
            BattleRoomStatus::Open => 0,
            BattleRoomStatus::Full => 1,
            BattleRoomStatus::Active => 2,
            BattleRoomStatus::Closed => 3,
        }
    }
    let mut room = room_for(2);
    let mut token = join(&mut room, 1, CREATED_AT).unwrap();
    let mut seen = rank(room.status);
    let times = [CREATED_AT, CREATED_AT + 60, CREATED_AT + 3660, i64::MAX];
    for round in 0..4 {
        for now in times {
            let _ = join(&mut room, 2, now);
            let _ = record_trade(&mut room, &mut token, addr(50), addr(60), now, 1, 1, TradeType::Buy, 1);
            if round > 0 {
                let _ = start_battle(&mut room, now);
            }
            if round > 1 {
                let _ = close_battle(&mut room, now);
            }
            if round > 2 {
                let _ = set_winner(&mut room, &mut token, addr(50), addr(1));
            }
            assert!(rank(room.status) >= seen);
            assert!(room.participant_count <= room.max_participants);
            seen = rank(room.status);
        }
    }
    assert_eq!(room.status, BattleRoomStatus::Closed);
    assert_eq!(room.winner_token, Some(addr(50)));
}
