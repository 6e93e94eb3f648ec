//! Creation of a token and the records of its launch.

use vstd::prelude::*;
use crate::address::Address;
use crate::token::error::ErrorCode;
use crate::token::events::{
    CreatorFeesClaimed,
    TokenInitialized,
    TokenLaunchRecorded,
    TokenStatisticsVerified,
};
use crate::token::fees::{check_fees, fees_within_cap};
use crate::token::guard::{check_guard, guard_rejection};
use crate::token::state::{
    byte_len,
    string_bytes,
    LaunchRecord,
    TokenAccount,
    INITIAL_BONDING_CURVE_CAP,
    MAX_NAME_BYTES,
    MAX_SYMBOL_BYTES,
};

verus! {

/// Why an initialisation is refused, if it is: an empty name, an empty
/// symbol, a symbol that is too long, a name that is too long, or fees over
/// the ceiling, in this order.
pub open spec fn initialize_rejection(
    name: Seq<char>,
    symbol: Seq<char>,
    creator_fee: u64,
    platform_fee: u64,
) -> Option<ErrorCode> {
    if name.len() == 0 {
        Some(ErrorCode::InvalidTokenName)
    } else if symbol.len() == 0 {
        Some(ErrorCode::InvalidTokenSymbol)
    } else if byte_len(symbol) > MAX_SYMBOL_BYTES {
        Some(ErrorCode::TokenSymbolTooLong)
    } else if byte_len(name) > MAX_NAME_BYTES {
        Some(ErrorCode::TokenNameTooLong)
    } else if !fees_within_cap(creator_fee, platform_fee) {
        Some(ErrorCode::InvalidFees)
    } else {
        None
    }
}

/// `token` is a token as `initialize` creates it: nothing minted, not frozen,
/// the bonding curve active with its initial cap, no metadata, unverified.
pub open spec fn is_new_token(
    token: TokenAccount,
    authority: Address,
    treasury: Address,
    now: i64,
    name: String,
    symbol: String,
    creator_fee: u64,
    platform_fee: u64,
) -> bool {
    &&& token.name == name
    &&& token.symbol == symbol
    &&& token.creator_fee == creator_fee
    &&& token.platform_fee == platform_fee
    &&& token.authority == authority
    &&& token.treasury == treasury
    &&& token.total_supply == 0
    &&& !token.is_frozen
    &&& token.is_bonding_curve_active
    &&& token.bonding_curve_cap == INITIAL_BONDING_CURVE_CAP
    &&& token.market_cap == 0
    &&& token.metadata_uri@ == Seq::<char>::empty()
    &&& token.last_updated_at == 0
    &&& token.creation_time == now
    &&& !token.verified
}

/// Creates a token owned by `authority`, with `treasury` as its treasury
/// wallet. The name must hold between one and thirty-two bytes, the symbol
/// between one and eight, and the two fees together at most ten percent.
pub fn initialize(
    token_key: Address,
    authority: Address,
    treasury: Address,
    now: i64,
    name: String,
    symbol: String,
    creator_fee: u64,
    platform_fee: u64,
) -> (res: Result<(TokenAccount, TokenInitialized), ErrorCode>)
    ensures
        match res {
            Ok((token, ev)) => {
                &&& initialize_rejection(name@, symbol@, creator_fee, platform_fee) is None
                &&& is_new_token(
                    token,
                    authority,
                    treasury,
                    now,
                    name,
                    symbol,
                    creator_fee,
                    platform_fee,
                )
                &&& token.wf()
                &&& ev.token_account == token_key
                &&& ev.name == name
                &&& ev.symbol == symbol
                &&& ev.creator_fee == creator_fee
                &&& ev.platform_fee == platform_fee
                &&& ev.authority == authority
                &&& ev.treasury == treasury
                &&& ev.bonding_curve_cap == INITIAL_BONDING_CURVE_CAP
            },
            Err(e) => initialize_rejection(name@, symbol@, creator_fee, platform_fee) == Some(e),
        },
{
    if name.as_str().is_empty() {
        return Err(ErrorCode::InvalidTokenName);
    }
    if symbol.as_str().is_empty() {
        return Err(ErrorCode::InvalidTokenSymbol);
    }
    if string_bytes(&symbol) > MAX_SYMBOL_BYTES {
        return Err(ErrorCode::TokenSymbolTooLong);
    }
    if string_bytes(&name) > MAX_NAME_BYTES {
        return Err(ErrorCode::TokenNameTooLong);
    }
    if !check_fees(creator_fee, platform_fee) {
        return Err(ErrorCode::InvalidFees);
    }
    let ev = TokenInitialized {
        token_account: token_key,
        name: name.clone(),
        symbol: symbol.clone(),
        creator_fee,
        platform_fee,
        authority,
        treasury,
        bonding_curve_cap: INITIAL_BONDING_CURVE_CAP,
    };
    let metadata_uri = String::new();
    let token = TokenAccount {
        name,
        symbol,
        creator_fee,
        platform_fee,
        authority,
        treasury,
        total_supply: 0,
        is_frozen: false,
        is_bonding_curve_active: true,
        bonding_curve_cap: INITIAL_BONDING_CURVE_CAP,
        market_cap: 0,
        metadata_uri,
        last_updated_at: 0,
        creation_time: now,
        verified: false,
    };
    Ok((token, ev))
}

/// Why a claim of creator fees is refused, if it is.
pub open spec fn claim_fees_rejection(token: TokenAccount, caller: Address, milestone_reached: bool)
    -> Option<ErrorCode> {
    if guard_rejection(token, caller) is Some {
        guard_rejection(token, caller)
    } else if !milestone_reached {
        Some(ErrorCode::MilestoneNotReached)
    } else {
        None
    }
}

/// Records that the creator claims the accumulated creator fees. Only the
/// token's authority may claim, only while the token is not frozen, and only
/// once the milestone is reached. The transfer itself is left to the caller.
pub fn claim_creator_fees(
    token: &TokenAccount,
    token_key: Address,
    creator: Address,
    now: i64,
    milestone_reached: bool,
) -> (res: Result<CreatorFeesClaimed, ErrorCode>)
    ensures
        match res {
            Ok(ev) => {
                &&& claim_fees_rejection(*token, creator, milestone_reached) is None
                &&& ev == (CreatorFeesClaimed {
                    token_account: token_key,
                    creator,
                    milestone_reached,
                    timestamp: now,
                })
            },
            Err(e) => claim_fees_rejection(*token, creator, milestone_reached) == Some(e),
        },
{
    if let Some(e) = check_guard(token, creator) {
        return Err(e);
    }
    if !milestone_reached {
        return Err(ErrorCode::MilestoneNotReached);
    }
    Ok(CreatorFeesClaimed { token_account: token_key, creator, milestone_reached, timestamp: now })
}

/// `record` is a launch record as `record_token_launch` writes it: verified,
/// dated `now`, and with the figures that a launch does not set left at zero.
pub open spec fn is_launch_record(
    record: LaunchRecord,
    token_key: Address,
    now: i64,
    launch_data: String,
) -> bool {
    &&& record.token_account == token_key
    &&& record.launch_date == now
    &&& record.launch_data == launch_data
    &&& record.is_verified
    &&& record.initial_market_cap == 0
    &&& record.initial_holder_count == 0
    &&& record.creator_wallet@ == Seq::new(32, |i: int| 0u8)
}

/// Writes the launch record of a token, to be stored at `launch_record_key`.
/// Only the token's authority may do so, and only while the token is not
/// frozen.
pub fn record_token_launch(
    token: &TokenAccount,
    token_key: Address,
    launch_record_key: Address,
    authority: Address,
    now: i64,
    launch_data: String,
) -> (res: Result<(LaunchRecord, TokenLaunchRecorded), ErrorCode>)
    ensures
        match res {
            Ok((record, ev)) => {
                &&& guard_rejection(*token, authority) is None
                &&& is_launch_record(record, token_key, now, launch_data)
                &&& ev == (TokenLaunchRecorded {
                    token_account: token_key,
                    launch_record: launch_record_key,
                    launch_date: now,
                    authority,
                })
            },
            Err(e) => guard_rejection(*token, authority) == Some(e),
        },
{
    if let Some(e) = check_guard(token, authority) {
        return Err(e);
    }
    let record = LaunchRecord {
        token_account: token_key,
        launch_date: now,
        launch_data,
        is_verified: true,
        initial_market_cap: 0,
        initial_holder_count: 0,
        creator_wallet: Address::zero(),
    };
    let ev = TokenLaunchRecorded {
        token_account: token_key,
        launch_record: launch_record_key,
        launch_date: now,
        authority,
    };
    Ok((record, ev))
}

/// Records that `oracle` vouches for the statistics of the token at
/// `token_key`. The oracle is accepted when it is the signing `authority`
/// itself or has signed the request; otherwise the call fails `Unauthorized`.
pub fn verify_token_statistics(
    token_key: Address,
    oracle: Address,
    oracle_is_signer: bool,
    authority: Address,
    now: i64,
) -> (res: Result<TokenStatisticsVerified, ErrorCode>)
    ensures
        match res {
            Ok(ev) => {
                &&& oracle == authority || oracle_is_signer
                &&& ev == (TokenStatisticsVerified { token_account: token_key, oracle, timestamp: now })
            },
            Err(e) => {
                &&& oracle != authority
                &&& !oracle_is_signer
                &&& e == ErrorCode::Unauthorized
            },
        },
{
    if oracle == authority || oracle_is_signer {
        Ok(TokenStatisticsVerified { token_account: token_key, oracle, timestamp: now })
    } else {
        Err(ErrorCode::Unauthorized)
    }
}

} // verus!
