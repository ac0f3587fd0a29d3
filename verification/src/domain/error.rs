use vstd::prelude::*;
use vstd::string::StringExecFns;

verus! {

/// The externally visible error taxonomy. Unknown identity, wrong
/// password and wrong two-factor pair all surface as
/// `IncorrectCredentials`, so a caller learns nothing about which part
/// was wrong.
#[derive(Clone, Copy, Debug, PartialEq, Eq, Structural)]
pub enum AuthAPIError {
    UserAlreadyExists,
    InvalidCredentials,
    IncorrectCredentials,
    MissingToken,
    InvalidToken,
    UnexpectedError,
}

/// The HTTP status code each error surfaces with.
pub open spec fn spec_status_code(e: AuthAPIError) -> u16 {
    match e {
        AuthAPIError::UserAlreadyExists => 409,
        AuthAPIError::InvalidCredentials => 400,
        AuthAPIError::IncorrectCredentials => 401,
        AuthAPIError::MissingToken => 400,
        AuthAPIError::InvalidToken => 401,
        AuthAPIError::UnexpectedError => 500,
    }
}

/// The message placed in the response body for each error.
pub open spec fn spec_message(e: AuthAPIError) -> Seq<char> {
    match e {
        AuthAPIError::UserAlreadyExists => "User already exists"@,
        AuthAPIError::InvalidCredentials => "Invalid credentials"@,
        AuthAPIError::IncorrectCredentials => "Incorrect credentials"@,
        AuthAPIError::MissingToken => "Missing token"@,
        AuthAPIError::InvalidToken => "Invalid auth token"@,
        AuthAPIError::UnexpectedError => "Unexpected error"@,
    }
}

impl AuthAPIError {
    pub fn status_code(&self) -> (r: u16)
        ensures
            r == spec_status_code(*self),
    {
        match self {
            AuthAPIError::UserAlreadyExists => 409,
            AuthAPIError::InvalidCredentials => 400,
            AuthAPIError::IncorrectCredentials => 401,
            AuthAPIError::MissingToken => 400,
            AuthAPIError::InvalidToken => 401,
            AuthAPIError::UnexpectedError => 500,
        }
    }

    pub fn message(&self) -> (r: String)
        ensures
            r@ == spec_message(*self),
    {
        match self {
            AuthAPIError::UserAlreadyExists => String::from_str("User already exists"),
            AuthAPIError::InvalidCredentials => String::from_str("Invalid credentials"),
            AuthAPIError::IncorrectCredentials => String::from_str("Incorrect credentials"),
            AuthAPIError::MissingToken => String::from_str("Missing token"),
            AuthAPIError::InvalidToken => String::from_str("Invalid auth token"),
            AuthAPIError::UnexpectedError => String::from_str("Unexpected error"),
        }
    }
}

} // verus!
