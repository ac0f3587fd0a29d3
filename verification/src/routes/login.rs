use vstd::prelude::*;
use vstd::string::StringExecFns;
use crate::app_state::AppState;
use crate::domain::data_stores::{
    LoginAttemptId, TwoFACode, TwoFACodeStore, UserStore, UserStoreError,
};
use crate::domain::email::{email_ok, Email};
use crate::domain::error::AuthAPIError;
use crate::domain::password::{password_ok, validate_password};
use crate::domain::password_hash::hash_matches;
use crate::domain::user::UserView;

verus! {

/// What a login request is answered with, before any backend failure:
/// malformed input is rejected outright; an unknown address and a wrong
/// password are indistinguishable; otherwise the user's two-factor flag
/// decides the branch.
pub open spec fn login_decision(
    users: Map<Seq<char>, UserView>,
    email: Seq<char>,
    password: Seq<char>,
) -> Result<bool, AuthAPIError> {
    if !email_ok(email) || !password_ok(password) {
        Err(AuthAPIError::InvalidCredentials)
    } else if !users.contains_key(email) || !hash_matches(users[email].password, password) {
        Err(AuthAPIError::IncorrectCredentials)
    } else {
        Ok(users[email].requires_2fa)
    }
}

pub struct LoginRequest {
    pub email: String,
    pub password: String,
}

/// The body returned when a login needs a second factor: the attempt id
/// goes back to the caller, the code never does.
pub struct TwoFactorAuthResponse {
    pub message: String,
    pub login_attempt_id: String,
}

/// The two success responses of the login route.
pub enum LoginResponse {
    RegularAuth,
    TwoFactorAuth(TwoFactorAuthResponse),
}

/// Where a validated login goes next: straight to a session token, or
/// through a two-factor challenge first.
#[derive(Debug)]
pub enum LoginFlow {
    Regular(Email),
    TwoFactor(Email),
}

/// The credential-checking stage of login: parses the request, validates
/// it against the credential store, and branches on the two-factor flag.
/// Touches no store state.
pub fn login<U: UserStore, B, T>(state: &AppState<U, B, T>, request: &LoginRequest) -> (r: Result<
    LoginFlow,
    AuthAPIError,
>)
    ensures
        match r {
            Ok(LoginFlow::Regular(em)) => login_decision(
                state.user_store.users(),
                request.email@,
                request.password@,
            ) == Ok::<bool, AuthAPIError>(false) && em@ == request.email@,
            Ok(LoginFlow::TwoFactor(em)) => login_decision(
                state.user_store.users(),
                request.email@,
                request.password@,
            ) == Ok::<bool, AuthAPIError>(true) && em@ == request.email@,
            Err(AuthAPIError::UnexpectedError) => !state.user_store.reliable(),
            Err(e) => login_decision(state.user_store.users(), request.email@, request.password@)
                == Err::<bool, AuthAPIError>(e),
        },
{
    let email = match Email::parse(request.email.as_str()) {
        Ok(e) => e,
        Err(_) => {
            return Err(AuthAPIError::InvalidCredentials);
        },
    };
    if !validate_password(request.password.as_str()) {
        return Err(AuthAPIError::InvalidCredentials);
    }
    match state.user_store.validate_user(&email, request.password.as_str()) {
        Ok(()) => (),
        Err(UserStoreError::UserNotFound) | Err(UserStoreError::InvalidCredentials) => {
            return Err(AuthAPIError::IncorrectCredentials);
        },
        Err(_) => {
            return Err(AuthAPIError::UnexpectedError);
        },
    }
    let user = match state.user_store.get_user(&email) {
        Ok(u) => u,
        Err(UserStoreError::UnexpectedError) => {
            return Err(AuthAPIError::UnexpectedError);
        },
        Err(_) => {
            return Err(AuthAPIError::IncorrectCredentials);
        },
    };
    if user.requires_2fa() {
        Ok(LoginFlow::TwoFactor(email))
    } else {
        Ok(LoginFlow::Regular(email))
    }
}

/// The two-factor stage of login. The caller has generated the challenge
/// and dispatched the code through the notification collaborator;
/// `notification_sent` is that collaborator's verdict. The challenge is
/// persisted only after a delivered code, superseding any live challenge
/// for the address, and only the attempt id is handed back.
pub fn handle_2fa<T: TwoFACodeStore>(
    two_fa_code_store: &mut T,
    email: &Email,
    login_attempt_id: LoginAttemptId,
    code: TwoFACode,
    notification_sent: bool,
) -> (r: Result<LoginResponse, AuthAPIError>)
    ensures
        final(two_fa_code_store).reliable() == old(two_fa_code_store).reliable(),
        !notification_sent ==> final(two_fa_code_store).codes() == old(two_fa_code_store).codes()
            && r == Err::<LoginResponse, AuthAPIError>(AuthAPIError::UnexpectedError),
        notification_sent ==> match r {
            Ok(resp) => final(two_fa_code_store).codes() == old(two_fa_code_store).codes().insert(
                email@,
                (login_attempt_id@, code@),
            ) && (resp matches LoginResponse::TwoFactorAuth(t) && t.message@ == "2FA required"@
                && t.login_attempt_id@ == login_attempt_id@),
            Err(AuthAPIError::UnexpectedError) => !old(two_fa_code_store).reliable() && final(two_fa_code_store).codes() == old(two_fa_code_store).codes(),
            Err(_) => false,
        },
{
    if !notification_sent {
        return Err(AuthAPIError::UnexpectedError);
    }
    let login_attempt_id_str = String::from_str(login_attempt_id.as_ref());
    match two_fa_code_store.add_code(email.clone(), login_attempt_id, code) {
        Ok(()) => Ok(
            LoginResponse::TwoFactorAuth(
                TwoFactorAuthResponse {
                    message: String::from_str("2FA required"),
                    login_attempt_id: login_attempt_id_str,
                },
            ),
        ),
        Err(_) => Err(AuthAPIError::UnexpectedError),
    }
}

} // verus!
