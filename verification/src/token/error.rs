//! Errors of the token program.

use vstd::prelude::*;

verus! {

/// Why a token operation was refused. Every refusal is final for the inputs
/// and state it was given: nothing was written, and retrying unchanged gives
/// the same answer.
#[derive(Clone, Copy, Debug, PartialEq, Eq, Structural)]
pub enum ErrorCode {
    /// The caller is not the token's authority.
    Unauthorized,
    /// Creator and platform fees together exceed the ceiling.
    InvalidFees,
    /// The token name is empty.
    InvalidTokenName,
    /// The token symbol is empty.
    InvalidTokenSymbol,
    /// The token symbol is longer than eight bytes.
    TokenSymbolTooLong,
    /// The token name is longer than thirty-two bytes.
    TokenNameTooLong,
    /// The token is frozen and cannot be modified.
    AccountFrozen,
    /// The token is already frozen.
    AlreadyFrozen,
    /// The token is not frozen.
    NotFrozen,
    /// The seller holds fewer tokens than the trade moves.
    InsufficientFunds,
    /// An amount left the range of a 64-bit unsigned integer.
    CalculationError,
    /// The milestone that releases creator fees has not been reached.
    MilestoneNotReached,
    /// The metadata URI is empty.
    InvalidMetadataUri,
    /// The metadata URI is longer than two hundred bytes.
    MetadataUriTooLong,
    /// The operation fell inside a time lock.
    TimeLockActive,
    /// Trading is disabled for the token.
    TradingDisabled,
    /// The price moved further than the slippage tolerance.
    SlippageExceeded,
    /// The trade is smaller than the configured minimum.
    TradeBelowMinimum,
}

} // verus!
