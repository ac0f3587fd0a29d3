use vstd::prelude::*;
use crate::app_state::AppState;
use crate::domain::data_stores::BannedTokenStore;
use crate::domain::error::AuthAPIError;

verus! {

/// What a token check is answered with: accepted exactly when the
/// signature is valid and the token was never revoked.
pub open spec fn token_decision(
    banned: Set<Seq<char>>,
    token: Seq<char>,
    signature_valid: bool,
) -> Result<(), AuthAPIError> {
    if signature_valid && !banned.contains(token) {
        Ok(())
    } else {
        Err(AuthAPIError::InvalidToken)
    }
}

pub struct VerifyTokenRequest {
    pub token: String,
}

/// The token verification flow. The token issuer collaborator has
/// already checked the signature; `signature_valid` is its verdict. A
/// structurally valid but revoked token is rejected all the same.
pub fn verify_token<U, B: BannedTokenStore, T>(
    state: &AppState<U, B, T>,
    request: &VerifyTokenRequest,
    signature_valid: bool,
) -> (r: Result<(), AuthAPIError>)
    ensures
        match r {
            Ok(()) => token_decision(
                state.banned_token_store.tokens(),
                request.token@,
                signature_valid,
            ) == Ok::<(), AuthAPIError>(()),
            Err(AuthAPIError::UnexpectedError) => !state.banned_token_store.reliable(),
            Err(e) => token_decision(
                state.banned_token_store.tokens(),
                request.token@,
                signature_valid,
            ) == Err::<(), AuthAPIError>(e),
        },
{
    match state.banned_token_store.contains_token(request.token.as_str()) {
        Ok(true) => Err(AuthAPIError::InvalidToken),
        Ok(false) => {
            if signature_valid {
                Ok(())
            } else {
                Err(AuthAPIError::InvalidToken)
            }
        },
        Err(_) => Err(AuthAPIError::UnexpectedError),
    }
}

} // verus!
