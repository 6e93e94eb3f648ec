//! Changes that a token's authority makes to its configuration.

use vstd::prelude::*;
use crate::address::Address;
use crate::token::error::ErrorCode;
use crate::token::events::{
    FeesUpdated,
    OwnershipTransferred,
    TokenMetadataUpdated,
    TreasuryUpdated,
};
use crate::token::fees::{check_fees, fees_within_cap};
use crate::token::guard::{check_guard, guard_rejection};
use crate::token::state::{byte_len, string_bytes, TokenAccount, MAX_URI_BYTES};

verus! {

/// Why a change of fees is refused, if it is.
pub open spec fn update_fees_rejection(
    token: TokenAccount,
    caller: Address,
    creator_fee: u64,
    platform_fee: u64,
) -> Option<ErrorCode> {
    if guard_rejection(token, caller) is Some {
        guard_rejection(token, caller)
    } else if !fees_within_cap(creator_fee, platform_fee) {
        Some(ErrorCode::InvalidFees)
    } else {
        None
    }
}

/// Replaces a token's creator and platform fees, which together may take at
/// most ten percent. On any refusal the token does not change.
pub fn update_fees(
    token: &mut TokenAccount,
    token_key: Address,
    authority: Address,
    creator_fee: u64,
    platform_fee: u64,
) -> (res: Result<FeesUpdated, ErrorCode>)
    ensures
        old(token).wf() ==> final(token).wf(),
        match res {
            Ok(ev) => {
                &&& update_fees_rejection(*old(token), authority, creator_fee, platform_fee) is None
                &&& *final(token) == (TokenAccount { creator_fee, platform_fee, ..*old(token) })
                &&& ev == (FeesUpdated {
                    token_account: token_key,
                    creator_fee,
                    platform_fee,
                    authority,
                })
            },
            Err(e) => {
                &&& update_fees_rejection(*old(token), authority, creator_fee, platform_fee)
                    == Some(e)
                &&& *final(token) == *old(token)
            },
        },
{
    if let Some(e) = check_guard(token, authority) {
        return Err(e);
    }
    if !check_fees(creator_fee, platform_fee) {
        return Err(ErrorCode::InvalidFees);
    }
    token.creator_fee = creator_fee;
    token.platform_fee = platform_fee;
    Ok(FeesUpdated { token_account: token_key, creator_fee, platform_fee, authority })
}

/// Replaces a token's treasury wallet. `treasury` is the wallet named as the
/// current one; it is reported as the old treasury, not checked. On any
/// refusal the token does not change.
pub fn update_treasury(
    token: &mut TokenAccount,
    token_key: Address,
    authority: Address,
    treasury: Address,
    now: i64,
    new_treasury: Address,
) -> (res: Result<TreasuryUpdated, ErrorCode>)
    ensures
        old(token).wf() ==> final(token).wf(),
        match res {
            Ok(ev) => {
                &&& guard_rejection(*old(token), authority) is None
                &&& *final(token) == (TokenAccount { treasury: new_treasury, ..*old(token) })
                &&& ev == (TreasuryUpdated {
                    token_account: token_key,
                    old_treasury: treasury,
                    new_treasury,
                    authority,
                    timestamp: now,
                })
            },
            Err(e) => {
                &&& guard_rejection(*old(token), authority) == Some(e)
                &&& *final(token) == *old(token)
            },
        },
{
    if let Some(e) = check_guard(token, authority) {
        return Err(e);
    }
    token.treasury = new_treasury;
    Ok(
        TreasuryUpdated {
            token_account: token_key,
            old_treasury: treasury,
            new_treasury,
            authority,
            timestamp: now,
        },
    )
}

/// Why a change of metadata is refused, if it is.
pub open spec fn update_metadata_rejection(token: TokenAccount, caller: Address, new_uri: Seq<char>)
    -> Option<ErrorCode> {
    if guard_rejection(token, caller) is Some {
        guard_rejection(token, caller)
    } else if new_uri.len() == 0 {
        Some(ErrorCode::InvalidMetadataUri)
    } else if byte_len(new_uri) > MAX_URI_BYTES {
        Some(ErrorCode::MetadataUriTooLong)
    } else {
        None
    }
}

/// Replaces a token's metadata URI, which must hold between one and two
/// hundred bytes, and stamps the token with the time of the change. On any
/// refusal the token does not change.
pub fn update_token_metadata(
    token: &mut TokenAccount,
    token_key: Address,
    authority: Address,
    now: i64,
    new_uri: String,
) -> (res: Result<TokenMetadataUpdated, ErrorCode>)
    ensures
        old(token).wf() ==> final(token).wf(),
        match res {
            Ok(ev) => {
                &&& update_metadata_rejection(*old(token), authority, new_uri@) is None
                &&& *final(token) == (TokenAccount {
                    metadata_uri: new_uri,
                    last_updated_at: now,
                    ..*old(token)
                })
                &&& ev == (TokenMetadataUpdated {
                    token_account: token_key,
                    new_uri,
                    authority,
                    timestamp: now,
                })
            },
            Err(e) => {
                &&& update_metadata_rejection(*old(token), authority, new_uri@) == Some(e)
                &&& *final(token) == *old(token)
            },
        },
{
    if let Some(e) = check_guard(token, authority) {
        return Err(e);
    }
    if new_uri.as_str().is_empty() {
        return Err(ErrorCode::InvalidMetadataUri);
    }
    if string_bytes(&new_uri) > MAX_URI_BYTES {
        return Err(ErrorCode::MetadataUriTooLong);
    }
    let ev = TokenMetadataUpdated {
        token_account: token_key,
        new_uri: new_uri.clone(),
        authority,
        timestamp: now,
    };
    token.metadata_uri = new_uri;
    token.last_updated_at = now;
    Ok(ev)
}

/// Hands a token to `new_authority` and stamps the token with the time of the
/// change. On any refusal the token does not change.
pub fn transfer_token_ownership(
    token: &mut TokenAccount,
    token_key: Address,
    authority: Address,
    now: i64,
    new_authority: Address,
) -> (res: Result<OwnershipTransferred, ErrorCode>)
    ensures
        old(token).wf() ==> final(token).wf(),
        match res {
            Ok(ev) => {
                &&& guard_rejection(*old(token), authority) is None
                &&& *final(token) == (TokenAccount {
                    authority: new_authority,
                    last_updated_at: now,
                    ..*old(token)
                })
                &&& ev == (OwnershipTransferred {
                    token_account: token_key,
                    old_authority: authority,
                    new_authority,
                    timestamp: now,
                })
            },
            Err(e) => {
                &&& guard_rejection(*old(token), authority) == Some(e)
                &&& *final(token) == *old(token)
            },
        },
{
    if let Some(e) = check_guard(token, authority) {
        return Err(e);
    }
    token.authority = new_authority;
    token.last_updated_at = now;
    Ok(
        OwnershipTransferred {
            token_account: token_key,
            old_authority: authority,
            new_authority,
            timestamp: now,
        },
    )
}

} // verus!
