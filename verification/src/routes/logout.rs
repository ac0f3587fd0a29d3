use vstd::prelude::*;
use crate::app_state::AppState;
use crate::domain::data_stores::BannedTokenStore;
use crate::domain::error::AuthAPIError;

verus! {

/// The logout flow: with a bearer token at hand, revoke it — always
/// idempotently, so revoking twice is not an error. Without one there is
/// nothing to revoke.
pub fn logout<U, B: BannedTokenStore, T>(
    state: &mut AppState<U, B, T>,
    token: Option<&String>,
) -> (r: Result<(), AuthAPIError>)
    ensures
        final(state).user_store == old(state).user_store,
        final(state).two_fa_code_store == old(state).two_fa_code_store,
        final(state).banned_token_store.reliable() == old(state).banned_token_store.reliable(),
        match r {
            Ok(()) => token matches Some(t) && final(state).banned_token_store.tokens() == old(state).banned_token_store.tokens().insert(t@),
            Err(AuthAPIError::MissingToken) => token is None && final(state).banned_token_store.tokens() == old(state).banned_token_store.tokens(),
            Err(AuthAPIError::UnexpectedError) => !old(state).banned_token_store.reliable()
                && final(state).banned_token_store.tokens() == old(state).banned_token_store.tokens(),
            Err(_) => false,
        },
{
    match token {
        None => Err(AuthAPIError::MissingToken),
        Some(t) => {
            match state.banned_token_store.add_token(t.as_str()) {
                Ok(()) => Ok(()),
                Err(_) => Err(AuthAPIError::UnexpectedError),
            }
        },
    }
}

} // verus!
