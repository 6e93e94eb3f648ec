//! What holds of the token operations taken together.

use vstd::prelude::*;
use crate::address::Address;
use crate::token::admin::{update_fees_rejection, update_metadata_rejection};
use crate::token::error::ErrorCode;
use crate::token::fees::{fee_share, fee_split, fees_within_cap, split_overflows};
use crate::token::guard::{
    after_freeze,
    after_unfreeze,
    freeze_rejection,
    guard_rejection,
    unfreeze_rejection,
};
use crate::token::lifecycle::claim_fees_rejection;
use crate::token::mint::{
    holder_part,
    mint_rejection,
    mint_unit_price,
    token_after_mint,
    treasury_part,
};
use crate::token::state::{TokenAccount, TokenHolder};
use crate::token::trade::trade_rejection;

verus! {

/// Freezing twice in a row fails the second time: whatever the token's state
/// before the first request of its authority, the second request is refused
/// with `AlreadyFrozen`.
pub proof fn lemma_freeze_twice(token: TokenAccount, authority: Address)
    requires
        token.authority == authority,
    ensures
        freeze_rejection(after_freeze(token, authority), authority) == Some(
            ErrorCode::AlreadyFrozen,
        ),
        after_freeze(after_freeze(token, authority), authority) == after_freeze(token, authority),
{
}

/// Unfreezing twice in a row fails the second time: whatever the token's
/// state before the first request of its authority, the second request is
/// refused with `NotFrozen`.
pub proof fn lemma_unfreeze_twice(token: TokenAccount, authority: Address)
    requires
        token.authority == authority,
    ensures
        unfreeze_rejection(after_unfreeze(token, authority), authority) == Some(
            ErrorCode::NotFrozen,
        ),
        after_unfreeze(after_unfreeze(token, authority), authority) == after_unfreeze(
            token,
            authority,
        ),
{
}

/// Nobody but the authority can freeze or unfreeze, and a refused request
/// leaves the token as it was.
pub proof fn lemma_freeze_needs_authority(token: TokenAccount, caller: Address)
    requires
        token.authority != caller,
    ensures
        freeze_rejection(token, caller) == Some(ErrorCode::Unauthorized),
        unfreeze_rejection(token, caller) == Some(ErrorCode::Unauthorized),
        after_freeze(token, caller) == token,
        after_unfreeze(token, caller) == token,
{
}

/// An accepted freeze followed by an unfreeze gives back the token as it
/// was, and the other way round.
pub proof fn lemma_freeze_round_trip(token: TokenAccount, authority: Address)
    requires
        token.authority == authority,
    ensures
        !token.is_frozen ==> after_unfreeze(after_freeze(token, authority), authority) == token,
        token.is_frozen ==> after_freeze(after_unfreeze(token, authority), authority) == token,
{
}

/// While a token is frozen every operation that would change it, mint it,
/// trade it or act in its name is refused with `AccountFrozen`, whoever
/// calls and whatever the arguments.
pub proof fn lemma_frozen_refuses_all(
    token: TokenAccount,
    caller: Address,
    holder: TokenHolder,
    other: TokenHolder,
    amount: u64,
    price: u64,
    creator_fee: u64,
    platform_fee: u64,
    uri: Seq<char>,
    milestone_reached: bool,
)
    requires
        token.is_frozen,
    ensures
        guard_rejection(token, caller) == Some(ErrorCode::AccountFrozen),
        update_fees_rejection(token, caller, creator_fee, platform_fee) == Some(
            ErrorCode::AccountFrozen,
        ),
        update_metadata_rejection(token, caller, uri) == Some(ErrorCode::AccountFrozen),
        claim_fees_rejection(token, caller, milestone_reached) == Some(ErrorCode::AccountFrozen),
        mint_rejection(token, holder, caller, amount, price) == Some(ErrorCode::AccountFrozen),
        trade_rejection(token, holder, other, amount, price) == Some(ErrorCode::AccountFrozen),
{
}

/// Fees are accepted exactly when they sum to at most a thousand basis
/// points. A configuration that passes this ceiling also passes every higher
/// one, such as two thousand basis points.
pub proof fn lemma_fee_ceiling(creator_fee: u64, platform_fee: u64)
    ensures
        fees_within_cap(creator_fee, platform_fee) <==> creator_fee + platform_fee <= 1000,
        fees_within_cap(creator_fee, platform_fee) ==> creator_fee + platform_fee <= 2000,
{
}

/// Two fees whose rates together are at most the whole never exceed the
/// value they are taken from.
pub proof fn lemma_fees_within_value(value: int, creator_fee_bp: int, platform_fee_bp: int)
    requires
        0 <= value,
        0 <= creator_fee_bp,
        0 <= platform_fee_bp,
        creator_fee_bp + platform_fee_bp <= 10_000,
    ensures
        0 <= fee_share(value, creator_fee_bp),
        0 <= fee_share(value, platform_fee_bp),
        fee_share(value, creator_fee_bp) + fee_share(value, platform_fee_bp) <= value,
{
    let a = value * creator_fee_bp;
    let b = value * platform_fee_bp;
    assert(0 <= a) by (nonlinear_arith)
        requires
            0 <= value,
            0 <= creator_fee_bp,
            a == value * creator_fee_bp,
    ;
    assert(0 <= b) by (nonlinear_arith)
        requires
            0 <= value,
            0 <= platform_fee_bp,
            b == value * platform_fee_bp,
    ;
    assert(a + b <= value * 10_000) by (nonlinear_arith)
        requires
            0 <= value,
            creator_fee_bp + platform_fee_bp <= 10_000,
            a == value * creator_fee_bp,
            b == value * platform_fee_bp,
    ;
}

/// The split of a trade gives away exactly the trade value: the two fees and
/// what the seller receives add up to it.
pub proof fn lemma_split_conserves_value(
    amount: u64,
    price: u64,
    creator_fee_bp: u64,
    platform_fee_bp: u64,
)
    requires
        !split_overflows(amount, price, creator_fee_bp, platform_fee_bp),
    ensures
        ({
            let split = fee_split(amount, price, creator_fee_bp, platform_fee_bp);
            &&& split.trade_value == amount * price
            &&& split.creator_fee == fee_share(amount * price, creator_fee_bp as int)
            &&& split.platform_fee == fee_share(amount * price, platform_fee_bp as int)
            &&& split.creator_fee + split.platform_fee + split.seller_receives
                == split.trade_value
        }),
{
    let value = amount * price;
    assert(0 <= value) by (nonlinear_arith)
        requires
            value == amount * price,
    ;
    assert(0 <= value * creator_fee_bp) by (nonlinear_arith)
        requires
            0 <= value,
    ;
    assert(0 <= value * platform_fee_bp) by (nonlinear_arith)
        requires
            0 <= value,
    ;
}

/// Under fee rates within the ceiling, the split of a trade can fail only in
/// its multiplications: the fees never exceed the trade value, so the seller
/// is never left with a negative amount.
pub proof fn lemma_capped_fees_leave_seller_whole(
    amount: u64,
    price: u64,
    creator_fee_bp: u64,
    platform_fee_bp: u64,
)
    requires
        fees_within_cap(creator_fee_bp, platform_fee_bp),
    ensures
        split_overflows(amount, price, creator_fee_bp, platform_fee_bp) <==> (amount * price
            > u64::MAX || amount * price * creator_fee_bp > u64::MAX || amount * price
            * platform_fee_bp > u64::MAX),
{
    let value = amount * price;
    assert(0 <= value) by (nonlinear_arith)
        requires
            value == amount * price,
    ;
    lemma_fees_within_value(value, creator_fee_bp as int, platform_fee_bp as int);
}

/// Every minted token goes either to the treasury reserve or to the holder,
/// and the reserve is one hundredth of the mint, rounded down: nothing for
/// mints under a hundred.
pub proof fn lemma_mint_parts(amount: u64)
    ensures
        treasury_part(amount) + holder_part(amount) == amount,
        treasury_part(amount) == amount / 100,
        amount < 100 ==> treasury_part(amount) == 0 && holder_part(amount) == amount,
{
}

/// The bonding curve ends once and for all: a mint never reactivates it, and
/// it ends the curve exactly when the market cap reaches the cap.
pub proof fn lemma_curve_ends_once(token: TokenAccount, amount: u64, curve_price: u64)
    ensures
        !token.is_bonding_curve_active ==> !token_after_mint(
            token,
            amount,
            curve_price,
        ).is_bonding_curve_active,
        token.is_bonding_curve_active ==> (token_after_mint(
            token,
            amount,
            curve_price,
        ).is_bonding_curve_active <==> token.market_cap + amount * curve_price
            < token.bonding_curve_cap * 1_000_000),
        !token.is_bonding_curve_active ==> mint_unit_price(token, curve_price) == 1_000_000,
{
}

} // verus!
