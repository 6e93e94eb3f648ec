//! Minting: pricing by the bonding curve or the fixed price, the treasury
//! reserve, and the supply and market-cap ledgers.

use vstd::prelude::*;
use crate::address::Address;
use crate::token::error::ErrorCode;
use crate::token::events::TokensMinted;
use crate::token::state::{TokenAccount, TokenHolder};

verus! {

/// Unit price of every mint once the bonding curve has ended.
pub const FIXED_UNIT_PRICE: u64 = 1_000_000;

/// Price units in one whole unit of the bonding-curve cap.
pub const CAP_UNIT: u64 = 1_000_000;

/// Divisor of the treasury reserve: one part in a hundred of every mint.
pub const TREASURY_DIVISOR: u64 = 100;

/// The unit price of a mint: the curve's quote while the curve is active, the
/// fixed price afterwards.
pub open spec fn mint_unit_price(token: TokenAccount, curve_price: u64) -> u64 {
    if token.is_bonding_curve_active {
        curve_price
    } else {
        FIXED_UNIT_PRICE
    }
}

/// The part of a mint reserved for the treasury, rounded down: amounts under
/// a hundred reserve nothing.
pub open spec fn treasury_part(amount: u64) -> u64 {
    (amount / 100) as u64
}

/// The part of a mint credited to the holder.
pub open spec fn holder_part(amount: u64) -> u64 {
    (amount - amount / 100) as u64
}

/// The market cap has reached the level at which the bonding curve ends.
pub open spec fn cap_reached(market_cap: int, bonding_curve_cap: u64) -> bool {
    market_cap >= bonding_curve_cap * CAP_UNIT
}

/// Why a mint is refused, if it is. The freeze guard comes first, then the
/// authority check, then the arithmetic: the total price, the new market cap,
/// the new supply and the holder's new balance must each fit in 64 bits.
pub open spec fn mint_rejection(
    token: TokenAccount,
    holder: TokenHolder,
    caller: Address,
    amount: u64,
    curve_price: u64,
) -> Option<ErrorCode> {
    let total_price = amount * mint_unit_price(token, curve_price);
    if token.is_frozen {
        Some(ErrorCode::AccountFrozen)
    } else if token.authority != caller {
        Some(ErrorCode::Unauthorized)
    } else if total_price > u64::MAX || token.market_cap + total_price > u64::MAX
        || token.total_supply + amount > u64::MAX || holder.balance + holder_part(amount)
        > u64::MAX {
        Some(ErrorCode::CalculationError)
    } else {
        None
    }
}

/// The token after an accepted mint: the market cap grows by the total price,
/// the supply by the amount, and the curve stays active only if it was active
/// and the new market cap is still under the cap.
pub open spec fn token_after_mint(token: TokenAccount, amount: u64, curve_price: u64)
    -> TokenAccount {
    let market_cap = token.market_cap + amount * mint_unit_price(token, curve_price);
    TokenAccount {
        market_cap: market_cap as u64,
        total_supply: (token.total_supply + amount) as u64,
        is_bonding_curve_active: token.is_bonding_curve_active && !cap_reached(
            market_cap,
            token.bonding_curve_cap,
        ),
        ..token
    }
}

/// The holder after an accepted mint.
pub open spec fn holder_after_mint(holder: TokenHolder, amount: u64) -> TokenHolder {
    TokenHolder { balance: (holder.balance + holder_part(amount)) as u64, ..holder }
}

/// Mints `amount` tokens to `holder`.
///
/// `curve_price` is the unit price that the bonding curve quotes at the
/// token's current supply; it is used while the curve is active and ignored
/// afterwards, when every token costs `FIXED_UNIT_PRICE`. One hundredth of the
/// amount, rounded down, is reserved for the treasury and the rest is
/// credited to the holder. On any refusal neither record changes.
pub fn mint_tokens(
    token: &mut TokenAccount,
    holder: &mut TokenHolder,
    token_key: Address,
    holder_key: Address,
    creator: Address,
    now: i64,
    amount: u64,
    curve_price: u64,
) -> (res: Result<TokensMinted, ErrorCode>)
    ensures
        old(token).wf() ==> final(token).wf(),
        match res {
            Ok(ev) => {
                &&& mint_rejection(*old(token), *old(holder), creator, amount, curve_price) is None
                &&& *final(token) == token_after_mint(*old(token), amount, curve_price)
                &&& *final(holder) == holder_after_mint(*old(holder), amount)
                &&& ev == (TokensMinted {
                    token_account: token_key,
                    creator,
                    holder: holder_key,
                    amount,
                    treasury_amount: treasury_part(amount),
                    holder_amount: holder_part(amount),
                    price_per_token: mint_unit_price(*old(token), curve_price),
                    total_price: (amount * mint_unit_price(*old(token), curve_price)) as u64,
                    is_bonding_curve_active: final(token).is_bonding_curve_active,
                    timestamp: now,
                })
            },
            Err(e) => {
                &&& mint_rejection(*old(token), *old(holder), creator, amount, curve_price)
                    == Some(e)
                &&& *final(token) == *old(token)
                &&& *final(holder) == *old(holder)
            },
        },
{
    if token.is_frozen {
        return Err(ErrorCode::AccountFrozen);
    }
    if token.authority != creator {
        return Err(ErrorCode::Unauthorized);
    }
    let price_per_token: u64 = if token.is_bonding_curve_active {
        curve_price
    } else {
        FIXED_UNIT_PRICE
    };
    let total_price = match amount.checked_mul(price_per_token) {
        Some(v) => v,
        None => { return Err(ErrorCode::CalculationError); },
    };
    let new_market_cap = match token.market_cap.checked_add(total_price) {
        Some(v) => v,
        None => { return Err(ErrorCode::CalculationError); },
    };
    let treasury_amount: u64 = amount / TREASURY_DIVISOR;
    let holder_amount: u64 = amount - treasury_amount;
    let new_supply = match token.total_supply.checked_add(amount) {
        Some(v) => v,
        None => { return Err(ErrorCode::CalculationError); },
    };
    let new_balance = match holder.balance.checked_add(holder_amount) {
        Some(v) => v,
        None => { return Err(ErrorCode::CalculationError); },
    };
    let still_active = token.is_bonding_curve_active && (new_market_cap as u128) < (
    token.bonding_curve_cap as u128) * (CAP_UNIT as u128);
    token.market_cap = new_market_cap;
    token.is_bonding_curve_active = still_active;
    token.total_supply = new_supply;
    holder.balance = new_balance;
    Ok(
        TokensMinted {
            token_account: token_key,
            creator,
            holder: holder_key,
            amount,
            treasury_amount,
            holder_amount,
            price_per_token,
            total_price,
            is_bonding_curve_active: still_active,
            timestamp: now,
        },
    )
}

} // verus!
