use vstd::prelude::*;
use vstd::string::StringExecFns;
use crate::app_state::AppState;
use crate::domain::data_stores::{UserStore, UserStoreError};
use crate::domain::email::{email_ok, Email};
use crate::domain::error::AuthAPIError;
use crate::domain::password::{password_ok, Password};
use crate::domain::password_hash::{hash_matches, PasswordHash};
use crate::domain::user::{User, UserView};

verus! {

/// What a signup request is answered with, before any backend failure:
/// malformed input is rejected, a taken address conflicts, anything else
/// is accepted.
pub open spec fn signup_result(
    users: Map<Seq<char>, UserView>,
    email: Seq<char>,
    password: Seq<char>,
) -> Result<(), AuthAPIError> {
    if !email_ok(email) || !password_ok(password) {
        Err(AuthAPIError::InvalidCredentials)
    } else if users.contains_key(email) {
        Err(AuthAPIError::UserAlreadyExists)
    } else {
        Ok(())
    }
}

pub struct SignupRequest {
    pub email: String,
    pub password: String,
    pub requires_2fa: bool,
}

#[derive(Debug)]
pub struct SignupResponse {
    pub message: String,
}

impl PartialEq for SignupResponse {
    fn eq(&self, other: &SignupResponse) -> (r: bool) {
        self.message == other.message
    }
}

impl vstd::std_specs::cmp::PartialEqSpecImpl for SignupResponse {
    open spec fn obeys_eq_spec() -> bool {
        true
    }

    open spec fn eq_spec(&self, other: &SignupResponse) -> bool {
        self.message@ == other.message@
    }
}

/// Registers a parsed user whose password has already been hashed: the
/// outcome is fixed by the store contents alone.
pub fn signup_with_hash<U: UserStore>(
    user_store: &mut U,
    email: Email,
    password_hash: PasswordHash,
    requires_2fa: bool,
) -> (r: Result<SignupResponse, AuthAPIError>)
    ensures
        final(user_store).reliable() == old(user_store).reliable(),
        match r {
            Ok(resp) => !old(user_store).users().contains_key(email@) && final(user_store).users()
                == old(user_store).users().insert(
                email@,
                (UserView { email: email@, password: password_hash@, requires_2fa }),
            ) && resp.message@ == "User created successfully!"@,
            Err(AuthAPIError::UserAlreadyExists) => old(user_store).users().contains_key(email@)
                && final(user_store).users() == old(user_store).users(),
            Err(AuthAPIError::UnexpectedError) => !old(user_store).reliable() && final(user_store).users() == old(user_store).users(),
            Err(_) => false,
        },
{
    let user = User::new(email, password_hash, requires_2fa);
    match user_store.add_user(user) {
        Ok(()) => Ok(
            SignupResponse { message: String::from_str("User created successfully!") },
        ),
        Err(UserStoreError::UserAlreadyExists) => Err(AuthAPIError::UserAlreadyExists),
        Err(_) => Err(AuthAPIError::UnexpectedError),
    }
}

/// The signup flow: parse both values, hash the password, register the
/// user. No store is touched on malformed input.
pub fn signup<U: UserStore, B, T>(state: &mut AppState<U, B, T>, request: &SignupRequest) -> (r:
    Result<SignupResponse, AuthAPIError>)
    ensures
        final(state).banned_token_store == old(state).banned_token_store,
        final(state).two_fa_code_store == old(state).two_fa_code_store,
        final(state).user_store.reliable() == old(state).user_store.reliable(),
        match r {
            Ok(resp) => signup_result(
                old(state).user_store.users(),
                request.email@,
                request.password@,
            ) == Ok::<(), AuthAPIError>(()) && ({
                let u = final(state).user_store.users()[request.email@];
                &&& final(state).user_store.users() == old(state).user_store.users().insert(
                    request.email@,
                    u,
                )
                &&& u.email == request.email@
                &&& u.requires_2fa == request.requires_2fa
                &&& hash_matches(u.password, request.password@)
            }) && resp.message@ == "User created successfully!"@,
            Err(AuthAPIError::UnexpectedError) => !old(state).user_store.reliable() && email_ok(
                request.email@,
            ) && password_ok(request.password@) && final(state).user_store.users() == old(state).user_store.users(),
            Err(e) => signup_result(old(state).user_store.users(), request.email@, request.password@)
                == Err::<(), AuthAPIError>(e) && final(state).user_store.users() == old(state).user_store.users(),
        },
{
    let email = match Email::parse(request.email.as_str()) {
        Ok(e) => e,
        Err(_) => {
            return Err(AuthAPIError::InvalidCredentials);
        },
    };
    let password = match Password::parse(request.password.as_str()) {
        Ok(p) => p,
        Err(_) => {
            return Err(AuthAPIError::InvalidCredentials);
        },
    };
    let password_hash = match PasswordHash::hash(&password) {
        Some(h) => h,
        None => {
            return Err(AuthAPIError::UnexpectedError);
        },
    };
    signup_with_hash(&mut state.user_store, email, password_hash, request.requires_2fa)
}

} // verus!
