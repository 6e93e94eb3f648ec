//! Errors of the battle program.

use vstd::prelude::*;

verus! {

/// Why a battle operation was refused. Every refusal is final for the inputs
/// and state it was given: nothing was written, and retrying unchanged gives
/// the same answer.
#[derive(Clone, Copy, Debug, PartialEq, Eq, Structural)]
pub enum ErrorCode {
    /// The participant limit is not between two and five.
    InvalidMaxParticipants,
    /// The battle duration is not between one hour and twenty-four hours.
    InvalidBattleDuration,
    /// The room is not open for registration.
    RoomNotOpen,
    /// The room already holds as many tokens as it admits.
    RoomFull,
    /// The waiting window is over.
    WaitingTimePassed,
    /// The waiting window is not over yet.
    WaitingTimeNotPassed,
    /// Fewer than two tokens have joined.
    NotEnoughParticipants,
    /// The room is in the wrong state for this operation.
    InvalidRoomStatus,
    /// The battle is not active.
    BattleNotActive,
    /// The battle's end time has passed.
    BattleEnded,
    /// The battle's end time has not come yet.
    BattleNotEnded,
    /// An amount left the range of a 64-bit unsigned integer.
    ArithmeticOverflow,
    /// The caller is not the room's admin.
    Unauthorized,
    /// The battle is not closed.
    BattleNotClosed,
    /// The token is not the winner.
    TokenNotWinner,
}

} // verus!
