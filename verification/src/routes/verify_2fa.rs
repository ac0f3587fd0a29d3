use vstd::prelude::*;
use crate::app_state::AppState;
use crate::domain::data_stores::{
    two_fa_code_ok, uuid_parse, LoginAttemptId, TwoFACode, TwoFACodeStore, TwoFACodeStoreError,
};
use crate::domain::email::{email_ok, Email};
use crate::domain::error::AuthAPIError;

verus! {

/// What a two-factor submission is answered with, before any backend
/// failure: malformed values are rejected outright; an absent challenge,
/// a wrong attempt id and a wrong code are indistinguishable; only the
/// exact issued pair is accepted.
pub open spec fn verify_2fa_decision(
    codes: Map<Seq<char>, (Seq<char>, Seq<char>)>,
    email: Seq<char>,
    login_attempt_id: Seq<char>,
    two_fa_code: Seq<char>,
) -> Result<(), AuthAPIError> {
    if !email_ok(email) || uuid_parse(login_attempt_id) is None || !two_fa_code_ok(two_fa_code) {
        Err(AuthAPIError::InvalidCredentials)
    } else if !codes.contains_key(email) {
        Err(AuthAPIError::IncorrectCredentials)
    } else if uuid_parse(login_attempt_id) == Some(codes[email].0) && two_fa_code
        == codes[email].1 {
        Ok(())
    } else {
        Err(AuthAPIError::IncorrectCredentials)
    }
}

pub struct Verify2FARequest {
    pub email: String,
    pub login_attempt_id: String,
    pub two_fa_code: String,
}

/// The two-factor verification flow: parse all three values, compare the
/// submitted pair against the live challenge by exact equality, and
/// consume the challenge on a full match (single use). On success the
/// caller issues the session token for the returned address.
pub fn verify_2fa<U, B, T: TwoFACodeStore>(
    state: &mut AppState<U, B, T>,
    request: &Verify2FARequest,
) -> (r: Result<Email, AuthAPIError>)
    ensures
        final(state).user_store == old(state).user_store,
        final(state).banned_token_store == old(state).banned_token_store,
        final(state).two_fa_code_store.reliable() == old(state).two_fa_code_store.reliable(),
        match r {
            Ok(em) => verify_2fa_decision(
                old(state).two_fa_code_store.codes(),
                request.email@,
                request.login_attempt_id@,
                request.two_fa_code@,
            ) == Ok::<(), AuthAPIError>(()) && em@ == request.email@ && final(state).two_fa_code_store.codes() == old(state).two_fa_code_store.codes().remove(
                request.email@,
            ),
            Err(AuthAPIError::UnexpectedError) => !old(state).two_fa_code_store.reliable()
                && final(state).two_fa_code_store.codes() == old(state).two_fa_code_store.codes(),
            Err(e) => verify_2fa_decision(
                old(state).two_fa_code_store.codes(),
                request.email@,
                request.login_attempt_id@,
                request.two_fa_code@,
            ) == Err::<(), AuthAPIError>(e) && final(state).two_fa_code_store.codes() == old(state).two_fa_code_store.codes(),
        },
{
    let email = match Email::parse(request.email.as_str()) {
        Ok(v) => v,
        Err(_) => {
            return Err(AuthAPIError::InvalidCredentials);
        },
    };
    let login_attempt_id = match LoginAttemptId::parse(request.login_attempt_id.as_str()) {
        Ok(v) => v,
        Err(_) => {
            return Err(AuthAPIError::InvalidCredentials);
        },
    };
    let two_fa_code = match TwoFACode::parse(request.two_fa_code.as_str()) {
        Ok(v) => v,
        Err(_) => {
            return Err(AuthAPIError::InvalidCredentials);
        },
    };
    let code_tuple = match state.two_fa_code_store.get_code(&email) {
        Ok(v) => v,
        Err(TwoFACodeStoreError::LoginAttemptIdNotFound) => {
            return Err(AuthAPIError::IncorrectCredentials);
        },
        Err(_) => {
            return Err(AuthAPIError::UnexpectedError);
        },
    };
    if !(code_tuple.0 == login_attempt_id && code_tuple.1 == two_fa_code) {
        return Err(AuthAPIError::IncorrectCredentials);
    }
    match state.two_fa_code_store.remove_code(&email) {
        Ok(()) => (),
        Err(_) => {
            return Err(AuthAPIError::UnexpectedError);
        },
    }
    Ok(email)
}

} // verus!
