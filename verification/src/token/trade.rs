//! Trades between two holders of a token.

use vstd::prelude::*;
use crate::address::Address;
use crate::token::error::ErrorCode;
use crate::token::events::TradeExecuted;
use crate::token::fees::{fee_split, split_overflows, split_trade};
use crate::token::state::{TokenAccount, TokenHolder};

verus! {

/// Why a trade is refused, if it is. The freeze guard comes first, then the
/// seller's balance, then the arithmetic: the fee split must be computable and
/// the buyer's new balance must fit in 64 bits.
pub open spec fn trade_rejection(
    token: TokenAccount,
    seller: TokenHolder,
    buyer: TokenHolder,
    amount: u64,
    price: u64,
) -> Option<ErrorCode> {
    if token.is_frozen {
        Some(ErrorCode::AccountFrozen)
    } else if seller.balance < amount {
        Some(ErrorCode::InsufficientFunds)
    } else if split_overflows(amount, price, token.creator_fee, token.platform_fee)
        || buyer.balance + amount > u64::MAX {
        Some(ErrorCode::CalculationError)
    } else {
        None
    }
}

/// The seller after an accepted trade.
pub open spec fn seller_after_trade(seller: TokenHolder, amount: u64) -> TokenHolder {
    TokenHolder { balance: (seller.balance - amount) as u64, ..seller }
}

/// The buyer after an accepted trade.
pub open spec fn buyer_after_trade(buyer: TokenHolder, amount: u64) -> TokenHolder {
    TokenHolder { balance: (buyer.balance + amount) as u64, ..buyer }
}

/// Moves `amount` tokens from `seller` to `buyer` at `price` each and reports
/// how the trade value divides between the creator, the platform and the
/// seller under the token's fee rates.
///
/// `creator` and `treasury` are the wallets named as recipients of the two
/// fees; they are reported, not checked. On any refusal neither holder
/// changes.
pub fn execute_trade(
    token: &TokenAccount,
    seller: &mut TokenHolder,
    buyer: &mut TokenHolder,
    token_key: Address,
    seller_key: Address,
    buyer_key: Address,
    creator: Address,
    treasury: Address,
    now: i64,
    amount: u64,
    price: u64,
) -> (res: Result<TradeExecuted, ErrorCode>)
    ensures
        match res {
            Ok(ev) => {
                let split = fee_split(amount, price, token.creator_fee, token.platform_fee);
                &&& trade_rejection(*token, *old(seller), *old(buyer), amount, price) is None
                &&& *final(seller) == seller_after_trade(*old(seller), amount)
                &&& *final(buyer) == buyer_after_trade(*old(buyer), amount)
                &&& ev == (TradeExecuted {
                    token_account: token_key,
                    seller: seller_key,
                    buyer: buyer_key,
                    creator,
                    amount,
                    price,
                    trade_value: split.trade_value,
                    creator_fee: split.creator_fee,
                    platform_fee: split.platform_fee,
                    seller_receives: split.seller_receives,
                    treasury,
                    timestamp: now,
                })
            },
            Err(e) => {
                &&& trade_rejection(*token, *old(seller), *old(buyer), amount, price) == Some(e)
                &&& *final(seller) == *old(seller)
                &&& *final(buyer) == *old(buyer)
            },
        },
{
    if token.is_frozen {
        return Err(ErrorCode::AccountFrozen);
    }
    if seller.balance < amount {
        return Err(ErrorCode::InsufficientFunds);
    }
    let split = match split_trade(amount, price, token.creator_fee, token.platform_fee) {
        Ok(s) => s,
        Err(e) => { return Err(e); },
    };
    let buyer_balance = match buyer.balance.checked_add(amount) {
        Some(v) => v,
        None => { return Err(ErrorCode::CalculationError); },
    };
    seller.balance = seller.balance - amount;
    buyer.balance = buyer_balance;
    Ok(
        TradeExecuted {
            token_account: token_key,
            seller: seller_key,
            buyer: buyer_key,
            creator,
            amount,
            price,
            trade_value: split.trade_value,
            creator_fee: split.creator_fee,
            platform_fee: split.platform_fee,
            seller_receives: split.seller_receives,
            treasury,
            timestamp: now,
        },
    )
}

} // verus!
