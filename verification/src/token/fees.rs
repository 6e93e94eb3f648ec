//! Fee arithmetic of the token program.

use vstd::prelude::*;
use crate::token::error::ErrorCode;

verus! {

/// Ceiling on creator and platform fees together, in basis points: ten percent.
pub const MAX_TOTAL_FEE_BP: u64 = 1000;

/// Basis points in one whole.
pub const BASIS_POINTS: u64 = 10_000;

/// Creator and platform fees together stay within the ceiling.
pub open spec fn fees_within_cap(creator_fee: u64, platform_fee: u64) -> bool {
    creator_fee + platform_fee <= MAX_TOTAL_FEE_BP
}

/// Decides whether a fee configuration is within the ceiling. The sum is taken
/// over the integers, so no pair of fees passes by wrapping around.
pub fn check_fees(creator_fee: u64, platform_fee: u64) -> (ok: bool)
    ensures
        ok == fees_within_cap(creator_fee, platform_fee),
{
    creator_fee <= MAX_TOTAL_FEE_BP && platform_fee <= MAX_TOTAL_FEE_BP - creator_fee
}

/// How the value of one trade is divided.
#[derive(Clone, Copy, Debug, PartialEq, Eq, Structural)]
pub struct FeeSplit {
    /// `amount * price`.
    pub trade_value: u64,
    /// The creator's share of the trade value.
    pub creator_fee: u64,
    /// The platform's share of the trade value.
    pub platform_fee: u64,
    /// What is left for the seller.
    pub seller_receives: u64,
}

/// The share of `value` that `fee_bp` basis points take, rounded down.
pub open spec fn fee_share(value: int, fee_bp: int) -> int {
    value * fee_bp / 10_000
}

/// The split of a trade cannot be computed within 64 bits: the trade value,
/// one of the two products of the value with a fee rate, or the sum of the
/// two fees exceeds `u64::MAX`, or the fees exceed the trade value.
pub open spec fn split_overflows(
    amount: u64,
    price: u64,
    creator_fee_bp: u64,
    platform_fee_bp: u64,
) -> bool {
    let value = amount * price;
    let fees = fee_share(value, creator_fee_bp as int) + fee_share(value, platform_fee_bp as int);
    ||| value > u64::MAX
    ||| value * creator_fee_bp > u64::MAX
    ||| value * platform_fee_bp > u64::MAX
    ||| fees > u64::MAX
    ||| fees > value
}

/// The split of a trade of `amount` tokens at `price` each, under the given
/// fee rates in basis points. Meaningful when `split_overflows` is false.
pub open spec fn fee_split(
    amount: u64,
    price: u64,
    creator_fee_bp: u64,
    platform_fee_bp: u64,
) -> FeeSplit {
    let value = amount * price;
    let creator = fee_share(value, creator_fee_bp as int);
    let platform = fee_share(value, platform_fee_bp as int);
    FeeSplit {
        trade_value: value as u64,
        creator_fee: creator as u64,
        platform_fee: platform as u64,
        seller_receives: (value - (creator + platform)) as u64,
    }
}

/// Splits the value of a trade between creator, platform and seller. Each
/// fee is the trade value times its rate, divided by ten thousand and rounded
/// down. Fails with `CalculationError` exactly when a step leaves the 64-bit
/// range.
pub fn split_trade(amount: u64, price: u64, creator_fee_bp: u64, platform_fee_bp: u64) -> (res:
    Result<FeeSplit, ErrorCode>)
    ensures
        match res {
            Ok(split) => !split_overflows(amount, price, creator_fee_bp, platform_fee_bp) && split
                == fee_split(amount, price, creator_fee_bp, platform_fee_bp),
            Err(e) => split_overflows(amount, price, creator_fee_bp, platform_fee_bp) && e
                == ErrorCode::CalculationError,
        },
{
    let trade_value = match amount.checked_mul(price) {
        Some(v) => v,
        None => { return Err(ErrorCode::CalculationError); },
    };
    let creator_fee = match trade_value.checked_mul(creator_fee_bp) {
        Some(v) => v / BASIS_POINTS,
        None => { return Err(ErrorCode::CalculationError); },
    };
    let platform_fee = match trade_value.checked_mul(platform_fee_bp) {
        Some(v) => v / BASIS_POINTS,
        None => { return Err(ErrorCode::CalculationError); },
    };
    let total_fees = match creator_fee.checked_add(platform_fee) {
        Some(v) => v,
        None => { return Err(ErrorCode::CalculationError); },
    };
    let seller_receives = match trade_value.checked_sub(total_fees) {
        Some(v) => v,
        None => { return Err(ErrorCode::CalculationError); },
    };
    Ok(FeeSplit { trade_value, creator_fee, platform_fee, seller_receives })
}

} // verus!
