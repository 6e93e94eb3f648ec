//! The freeze guard and the authority check that every privileged token
//! operation passes first.

use vstd::prelude::*;
use crate::address::Address;
use crate::token::error::ErrorCode;
use crate::token::events::{AccountFrozen, AccountUnfrozen};
use crate::token::state::TokenAccount;

verus! {

/// Why a privileged operation on a token is refused before it looks at its
/// arguments, if it is: the token is frozen, or the caller is not its
/// authority. The freeze is reported first.
pub open spec fn guard_rejection(token: TokenAccount, caller: Address) -> Option<ErrorCode> {
    if token.is_frozen {
        Some(ErrorCode::AccountFrozen)
    } else if token.authority != caller {
        Some(ErrorCode::Unauthorized)
    } else {
        None
    }
}

/// Applies the freeze guard and the authority check.
pub(crate) fn check_guard(token: &TokenAccount, caller: Address) -> (rejection: Option<ErrorCode>)
    ensures
        rejection == guard_rejection(*token, caller),
{
    if token.is_frozen {
        Some(ErrorCode::AccountFrozen)
    } else if token.authority != caller {
        Some(ErrorCode::Unauthorized)
    } else {
        None
    }
}

/// Why a freeze is refused, if it is. The authority check comes first.
pub open spec fn freeze_rejection(token: TokenAccount, caller: Address) -> Option<ErrorCode> {
    if token.authority != caller {
        Some(ErrorCode::Unauthorized)
    } else if token.is_frozen {
        Some(ErrorCode::AlreadyFrozen)
    } else {
        None
    }
}

/// Why an unfreeze is refused, if it is. The authority check comes first.
pub open spec fn unfreeze_rejection(token: TokenAccount, caller: Address) -> Option<ErrorCode> {
    if token.authority != caller {
        Some(ErrorCode::Unauthorized)
    } else if !token.is_frozen {
        Some(ErrorCode::NotFrozen)
    } else {
        None
    }
}

/// The token after a freeze request: frozen if the request was accepted,
/// unchanged otherwise.
pub open spec fn after_freeze(token: TokenAccount, caller: Address) -> TokenAccount {
    if freeze_rejection(token, caller) is None {
        TokenAccount { is_frozen: true, ..token }
    } else {
        token
    }
}

/// The token after an unfreeze request: unfrozen if the request was accepted,
/// unchanged otherwise.
pub open spec fn after_unfreeze(token: TokenAccount, caller: Address) -> TokenAccount {
    if unfreeze_rejection(token, caller) is None {
        TokenAccount { is_frozen: false, ..token }
    } else {
        token
    }
}

/// Freezes a token. Only its authority may do so, and only while it is not
/// frozen already.
pub fn emergency_freeze(token: &mut TokenAccount, token_key: Address, authority: Address) -> (res:
    Result<AccountFrozen, ErrorCode>)
    ensures
        old(token).wf() ==> final(token).wf(),
        *final(token) == after_freeze(*old(token), authority),
        match res {
            Ok(ev) => {
                &&& freeze_rejection(*old(token), authority) is None
                &&& ev == (AccountFrozen { token_account: token_key, authority })
            },
            Err(e) => freeze_rejection(*old(token), authority) == Some(e),
        },
{
    if token.authority != authority {
        return Err(ErrorCode::Unauthorized);
    }
    if token.is_frozen {
        return Err(ErrorCode::AlreadyFrozen);
    }
    token.is_frozen = true;
    Ok(AccountFrozen { token_account: token_key, authority })
}

/// Unfreezes a token. Only its authority may do so, and only while it is
/// frozen.
pub fn emergency_unfreeze(token: &mut TokenAccount, token_key: Address, authority: Address) -> (res:
    Result<AccountUnfrozen, ErrorCode>)
    ensures
        old(token).wf() ==> final(token).wf(),
        *final(token) == after_unfreeze(*old(token), authority),
        match res {
            Ok(ev) => {
                &&& unfreeze_rejection(*old(token), authority) is None
                &&& ev == (AccountUnfrozen { token_account: token_key, authority })
            },
            Err(e) => unfreeze_rejection(*old(token), authority) == Some(e),
        },
{
    if token.authority != authority {
        return Err(ErrorCode::Unauthorized);
    }
    if !token.is_frozen {
        return Err(ErrorCode::NotFrozen);
    }
    token.is_frozen = false;
    Ok(AccountUnfrozen { token_account: token_key, authority })
}

} // verus!
