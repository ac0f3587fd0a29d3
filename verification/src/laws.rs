use vstd::prelude::*;
use crate::domain::data_stores::{two_fa_code_ok, uuid_parse};
use crate::domain::email::email_ok;
use crate::domain::error::AuthAPIError;
use crate::domain::password::password_ok;
use crate::domain::password_hash::hash_matches;
use crate::domain::user::UserView;
use crate::routes::login::login_decision;
use crate::routes::signup::signup_result;
use crate::routes::verify_2fa::verify_2fa_decision;
use crate::routes::verify_token::token_decision;

verus! {

/// Signing up a fresh address with the two-factor flag off and then
/// logging in with the same credentials succeeds straight away, and a
/// session token whose signature holds is accepted for as long as it is
/// not revoked.
pub proof fn lemma_signup_then_login_no_2fa(
    users: Map<Seq<char>, UserView>,
    banned: Set<Seq<char>>,
    email: Seq<char>,
    password: Seq<char>,
    hash: Seq<char>,
    token: Seq<char>,
)
    requires
        email_ok(email),
        password_ok(password),
        !users.contains_key(email),
        hash_matches(hash, password),
        !banned.contains(token),
    ensures
        signup_result(users, email, password) == Ok::<(), AuthAPIError>(()),
        login_decision(
            users.insert(email, (UserView { email, password: hash, requires_2fa: false })),
            email,
            password,
        ) == Ok::<bool, AuthAPIError>(false),
        token_decision(banned, token, true) == Ok::<(), AuthAPIError>(()),
{
}

/// Signing up with the two-factor flag on routes the next login through
/// a two-factor challenge instead of an immediate session token.
pub proof fn lemma_signup_then_login_with_2fa(
    users: Map<Seq<char>, UserView>,
    email: Seq<char>,
    password: Seq<char>,
    hash: Seq<char>,
)
    requires
        email_ok(email),
        password_ok(password),
        !users.contains_key(email),
        hash_matches(hash, password),
    ensures
        signup_result(users, email, password) == Ok::<(), AuthAPIError>(()),
        login_decision(
            users.insert(email, (UserView { email, password: hash, requires_2fa: true })),
            email,
            password,
        ) == Ok::<bool, AuthAPIError>(true),
{
}

/// A challenge answered exactly as issued succeeds exactly once: the
/// issued pair is accepted against the live record, the record is
/// consumed on success, and the same submission afterwards is rejected
/// as incorrect credentials.
pub proof fn lemma_challenge_single_use(
    codes: Map<Seq<char>, (Seq<char>, Seq<char>)>,
    email: Seq<char>,
    login_attempt_id: Seq<char>,
    two_fa_code: Seq<char>,
)
    requires
        email_ok(email),
        uuid_parse(login_attempt_id) == Some(login_attempt_id),
        two_fa_code_ok(two_fa_code),
    ensures
        verify_2fa_decision(
            codes.insert(email, (login_attempt_id, two_fa_code)),
            email,
            login_attempt_id,
            two_fa_code,
        ) == Ok::<(), AuthAPIError>(()),
        verify_2fa_decision(
            codes.insert(email, (login_attempt_id, two_fa_code)).remove(email),
            email,
            login_attempt_id,
            two_fa_code,
        ) == Err::<(), AuthAPIError>(AuthAPIError::IncorrectCredentials),
{
}

/// A second login attempt for the same address supersedes the first
/// challenge: once the new pair is recorded, the superseded pair is
/// rejected — provided the two pairs differ at all, which chance alone
/// leaves open.
pub proof fn lemma_second_attempt_supersedes(
    codes: Map<Seq<char>, (Seq<char>, Seq<char>)>,
    email: Seq<char>,
    first_id: Seq<char>,
    first_code: Seq<char>,
    second_id: Seq<char>,
    second_code: Seq<char>,
)
    requires
        email_ok(email),
        uuid_parse(first_id) == Some(first_id),
        two_fa_code_ok(first_code),
        (first_id, first_code) != (second_id, second_code),
    ensures
        verify_2fa_decision(
            codes.insert(email, (first_id, first_code)).insert(email, (second_id, second_code)),
            email,
            first_id,
            first_code,
        ) == Err::<(), AuthAPIError>(AuthAPIError::IncorrectCredentials),
{
}

/// Revoking a token makes verification fail from then on, even while
/// its signature stays structurally valid.
pub proof fn lemma_revoked_token_rejected(banned: Set<Seq<char>>, token: Seq<char>)
    ensures
        token_decision(banned.insert(token), token, true) == Err::<(), AuthAPIError>(
            AuthAPIError::InvalidToken,
        ),
{
}

/// A login with a never-registered address fails as incorrect
/// credentials — indistinguishable from a wrong password, never as a
/// missing user.
pub proof fn lemma_unknown_email_incorrect(
    users: Map<Seq<char>, UserView>,
    email: Seq<char>,
    password: Seq<char>,
)
    requires
        email_ok(email),
        password_ok(password),
        !users.contains_key(email),
    ensures
        login_decision(users, email, password) == Err::<bool, AuthAPIError>(
            AuthAPIError::IncorrectCredentials,
        ),
{
}

/// A second signup for an address that already carries a record
/// conflicts, whatever the rest of the request says.
pub proof fn lemma_duplicate_signup_conflicts(
    users: Map<Seq<char>, UserView>,
    email: Seq<char>,
    user: UserView,
    password: Seq<char>,
)
    requires
        email_ok(email),
        password_ok(password),
    ensures
        signup_result(users.insert(email, user), email, password) == Err::<(), AuthAPIError>(
            AuthAPIError::UserAlreadyExists,
        ),
{
}

} // verus!
