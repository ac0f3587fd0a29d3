use vstd::prelude::*;
use vstd::string::StrSliceExecFns;
use vstd::string::StringExecFns;
use crate::domain::email::Email;
use crate::domain::password_hash::hash_matches;
use crate::domain::user::{User, UserView};

verus! {

// ---------------------------------------------------------------------
// Login attempt identifiers
// ---------------------------------------------------------------------
/// What `uuid::Uuid::parse_str` makes of `s`: `None` when the string is
/// not an identifier in any accepted form, otherwise the canonical
/// (lowercase, hyphenated) rendering of the identifier it denotes.
pub uninterp spec fn uuid_parse(s: Seq<char>) -> Option<Seq<char>>;

/// Relies on `uuid::Uuid::parse_str` and the canonical hyphenated
/// display form: parsing is deterministic, a canonical string parses
/// back to itself unchanged, and the canonical form spells only hex
/// digits and hyphens, so it never holds a quote.
#[verifier::external_body]
fn parse_uuid_string(raw: &str) -> (r: Option<String>)
    ensures
        r is Some <==> uuid_parse(raw@) is Some,
        r matches Some(t) ==> uuid_parse(raw@) == Some(t@) && uuid_parse(t@) == Some(t@),
        r matches Some(t) ==> forall|i: int| 0 <= i < t@.len() ==> t@[i] != '"',
{
    match uuid::Uuid::parse_str(raw) {
        Ok(u) => Some(u.to_string()),
        Err(_) => None,
    }
}

/// Relies on `uuid::Uuid::new_v4`: a fresh random identifier. Its display
/// form is canonical — hex digits and hyphens, never a quote — and
/// parses back to itself; nothing more can be said of a random value.
#[verifier::external_body]
fn new_uuid_string() -> (r: String)
    ensures
        uuid_parse(r@) == Some(r@),
        forall|i: int| 0 <= i < r@.len() ==> r@[i] != '"',
{
    uuid::Uuid::new_v4().to_string()
}

/// An opaque identifier correlating a login request to its pending
/// two-factor challenge. Kept in canonical form, compared by exact
/// equality.
pub struct LoginAttemptId {
    id: String,
}

impl View for LoginAttemptId {
    type V = Seq<char>;

    closed spec fn view(&self) -> Seq<char> {
        self.id@
    }
}

impl PartialEq for LoginAttemptId {
    fn eq(&self, other: &LoginAttemptId) -> (r: bool) {
        self.id == other.id
    }
}

impl vstd::std_specs::cmp::PartialEqSpecImpl for LoginAttemptId {
    open spec fn obeys_eq_spec() -> bool {
        true
    }

    open spec fn eq_spec(&self, other: &LoginAttemptId) -> bool {
        self@ == other@
    }
}

impl LoginAttemptId {
    #[verifier::type_invariant]
    closed spec fn wf(self) -> bool {
        uuid_parse(self@) == Some(self@) && (forall|i: int|
            0 <= i < self@.len() ==> self@[i] != '"')
    }

    /// Accepts exactly the strings the identifier grammar accepts, and
    /// normalizes them to canonical form.
    pub fn parse(id: &str) -> (r: Result<LoginAttemptId, String>)
        ensures
            match r {
                Ok(v) => uuid_parse(id@) == Some(v@),
                Err(_) => uuid_parse(id@) is None,
            },
    {
        match parse_uuid_string(id) {
            Some(canonical) => Ok(LoginAttemptId { id: canonical }),
            None => Err(String::from_str("Invalid login attempt id")),
        }
    }

    /// A fresh random identifier, already in canonical form, so it
    /// round-trips through `parse` unchanged.
    pub fn default() -> (r: LoginAttemptId)
        ensures
            uuid_parse(r@) == Some(r@),
            forall|i: int| 0 <= i < r@.len() ==> r@[i] != '"',
    {
        LoginAttemptId { id: new_uuid_string() }
    }

    /// The canonical identifier string, round-tripping through `parse`
    /// and free of quotes, so the stored record rendering stays
    /// unambiguous.
    pub fn as_ref(&self) -> (r: &str)
        ensures
            r@ == self@,
            uuid_parse(self@) == Some(self@),
            forall|i: int| 0 <= i < self@.len() ==> self@[i] != '"',
    {
        proof {
            use_type_invariant(self);
        }
        self.id.as_str()
    }

    pub fn clone(&self) -> (r: LoginAttemptId)
        ensures
            r@ == self@,
    {
        proof {
            use_type_invariant(self);
        }
        LoginAttemptId { id: self.id.clone() }
    }
}

// ---------------------------------------------------------------------
// Two-factor codes
// ---------------------------------------------------------------------
pub open spec fn is_digit_char(c: char) -> bool {
    48 <= c as u32 && c as u32 <= 57
}

/// A well-formed one-time code: exactly six ASCII digits.
pub open spec fn two_fa_code_ok(s: Seq<char>) -> bool {
    s.len() == 6 && (forall|i: int| 0 <= i < 6 ==> is_digit_char(#[trigger] s[i]))
}

/// Relies on `rand::Rng::random_range` over `rand::rng()`: a number drawn
/// below one million; the draw depends on chance, so only the bound is
/// stated.
#[verifier::external_body]
fn random_code_number() -> (r: u32)
    ensures
        r < 1000000,
{
    rand::Rng::random_range(&mut rand::rng(), 0..1000000u32)
}

/// One ASCII digit as a string slice: the digit `d` itself.
fn digit_str(d: u32) -> (r: &'static str)
    requires
        d < 10,
    ensures
        r@.len() == 1,
        is_digit_char(r@[0]),
        r@[0] as u32 == 48 + d,
{
    proof {
        reveal_strlit("0");
        reveal_strlit("1");
        reveal_strlit("2");
        reveal_strlit("3");
        reveal_strlit("4");
        reveal_strlit("5");
        reveal_strlit("6");
        reveal_strlit("7");
        reveal_strlit("8");
        reveal_strlit("9");
    }
    match d {
        0 => "0",
        1 => "1",
        2 => "2",
        3 => "3",
        4 => "4",
        5 => "5",
        6 => "6",
        7 => "7",
        8 => "8",
        _ => "9",
    }
}

/// Renders `n` as a six-digit, zero-padded decimal string: position by
/// position, the decimal digits of `n`.
fn format_six_digits(n: u32) -> (r: String)
    requires
        n < 1000000,
    ensures
        two_fa_code_ok(r@),
        r@[0] as u32 == 48 + n / 100000 % 10,
        r@[1] as u32 == 48 + n / 10000 % 10,
        r@[2] as u32 == 48 + n / 1000 % 10,
        r@[3] as u32 == 48 + n / 100 % 10,
        r@[4] as u32 == 48 + n / 10 % 10,
        r@[5] as u32 == 48 + n % 10,
{
    let mut s = String::new();
    s.append(digit_str(n / 100000 % 10));
    s.append(digit_str(n / 10000 % 10));
    s.append(digit_str(n / 1000 % 10));
    s.append(digit_str(n / 100 % 10));
    s.append(digit_str(n / 10 % 10));
    s.append(digit_str(n % 10));
    s
}

/// A one-time two-factor code: exactly six ASCII digits, single use.
pub struct TwoFACode {
    code: String,
}

impl View for TwoFACode {
    type V = Seq<char>;

    closed spec fn view(&self) -> Seq<char> {
        self.code@
    }
}

impl PartialEq for TwoFACode {
    fn eq(&self, other: &TwoFACode) -> (r: bool) {
        self.code == other.code
    }
}

impl vstd::std_specs::cmp::PartialEqSpecImpl for TwoFACode {
    open spec fn obeys_eq_spec() -> bool {
        true
    }

    open spec fn eq_spec(&self, other: &TwoFACode) -> bool {
        self@ == other@
    }
}

impl TwoFACode {
    #[verifier::type_invariant]
    closed spec fn wf(self) -> bool {
        two_fa_code_ok(self@)
    }

    /// Accepts exactly the strings of six ASCII digits, unchanged.
    pub fn parse(code: &str) -> (r: Result<TwoFACode, String>)
        ensures
            match r {
                Ok(v) => v@ == code@ && two_fa_code_ok(code@),
                Err(_) => !two_fa_code_ok(code@),
            },
    {
        if code.unicode_len() != 6 {
            return Err(String::from_str("Invalid 2FA code"));
        }
        let mut i: usize = 0;
        while i < 6
            invariant
                code@.len() == 6,
                0 <= i <= 6,
                forall|j: int| 0 <= j < i ==> is_digit_char(#[trigger] code@[j]),
            decreases 6 - i,
        {
            let c = code.get_char(i);
            if !(48 <= c as u32 && c as u32 <= 57) {
                return Err(String::from_str("Invalid 2FA code"));
            }
            i = i + 1;
        }
        Ok(TwoFACode { code: String::from_str(code) })
    }

    /// A fresh uniformly random six-digit code, zero-padded.
    pub fn default() -> (r: TwoFACode)
        ensures
            two_fa_code_ok(r@),
    {
        TwoFACode { code: format_six_digits(random_code_number()) }
    }

    pub fn as_ref(&self) -> (r: &str)
        ensures
            r@ == self@,
            two_fa_code_ok(self@),
    {
        proof {
            use_type_invariant(self);
        }
        self.code.as_str()
    }

    pub fn clone(&self) -> (r: TwoFACode)
        ensures
            r@ == self@,
    {
        proof {
            use_type_invariant(self);
        }
        TwoFACode { code: self.code.clone() }
    }
}

// ---------------------------------------------------------------------
// Store errors
// ---------------------------------------------------------------------
#[derive(Clone, Copy, Debug, PartialEq, Eq, Structural)]
pub enum UserStoreError {
    UserAlreadyExists,
    UserNotFound,
    InvalidCredentials,
    UnexpectedError,
}

#[derive(Clone, Copy, Debug, PartialEq, Eq, Structural)]
pub enum BannedTokenStoreError {
    UnexpectedError,
}

#[derive(Clone, Copy, Debug, PartialEq, Eq, Structural)]
pub enum TwoFACodeStoreError {
    LoginAttemptIdNotFound,
    UnexpectedError,
}

// ---------------------------------------------------------------------
// Store contracts
// ---------------------------------------------------------------------
/// The credential store: a mapping from email address to user record,
/// unique per address.
pub trait UserStore: Sized {
    /// The records the store holds, keyed by email address.
    spec fn users(&self) -> Map<Seq<char>, UserView>;

    /// Whether the backend can be counted on not to fail; an in-memory
    /// store always can, a durable one may report `UnexpectedError`.
    spec fn reliable(&self) -> bool;

    /// Registers the user unless the address is taken; never a silent
    /// overwrite.
    fn add_user(&mut self, user: User) -> (r: Result<(), UserStoreError>)
        ensures
            final(self).reliable() == old(self).reliable(),
            match r {
                Ok(()) => !old(self).users().contains_key(user@.email) && final(self).users()
                    == old(self).users().insert(user@.email, user@),
                Err(UserStoreError::UserAlreadyExists) => old(self).users().contains_key(
                    user@.email,
                ) && final(self).users() == old(self).users(),
                Err(UserStoreError::UnexpectedError) => !old(self).reliable() && final(self).users() == old(self).users(),
                Err(_) => false,
            },
    ;

    fn get_user(&self, email: &Email) -> (r: Result<User, UserStoreError>)
        ensures
            match r {
                Ok(user) => self.users().contains_key(email@) && user@ == self.users()[email@]
                    && user@.email == email@,
                Err(UserStoreError::UserNotFound) => !self.users().contains_key(email@),
                Err(UserStoreError::UnexpectedError) => !self.reliable(),
                Err(_) => false,
            },
    ;

    /// `Ok` exactly when the address is registered and the raw password
    /// verifies against the stored hash.
    fn validate_user(&self, email: &Email, raw_password: &str) -> (r: Result<
        (),
        UserStoreError,
    >)
        ensures
            match r {
                Ok(()) => self.users().contains_key(email@) && hash_matches(
                    self.users()[email@].password,
                    raw_password@,
                ),
                Err(UserStoreError::UserNotFound) => !self.users().contains_key(email@),
                Err(UserStoreError::InvalidCredentials) => self.users().contains_key(email@)
                    && !hash_matches(self.users()[email@].password, raw_password@),
                Err(UserStoreError::UnexpectedError) => !self.reliable(),
                Err(_) => false,
            },
    ;
}

/// The revocation store: the set of revoked session tokens.
pub trait BannedTokenStore: Sized {
    /// The tokens revoked so far.
    spec fn tokens(&self) -> Set<Seq<char>>;

    /// Whether the backend can be counted on not to fail.
    spec fn reliable(&self) -> bool;

    /// Idempotent insert: revoking an already revoked token is not an
    /// error.
    fn add_token(&mut self, token: &str) -> (r: Result<(), BannedTokenStoreError>)
        ensures
            final(self).reliable() == old(self).reliable(),
            match r {
                Ok(()) => final(self).tokens() == old(self).tokens().insert(token@),
                Err(BannedTokenStoreError::UnexpectedError) => !old(self).reliable() && final(self).tokens() == old(self).tokens(),
            },
    ;

    fn contains_token(&self, token: &str) -> (r: Result<bool, BannedTokenStoreError>)
        ensures
            match r {
                Ok(b) => b == self.tokens().contains(token@),
                Err(BannedTokenStoreError::UnexpectedError) => !self.reliable(),
            },
    ;
}

/// The challenge store: at most one live two-factor challenge per email.
pub trait TwoFACodeStore: Sized {
    /// The live challenges: email address to (attempt id, code).
    spec fn codes(&self) -> Map<Seq<char>, (Seq<char>, Seq<char>)>;

    /// Whether the backend can be counted on not to fail.
    spec fn reliable(&self) -> bool;

    /// Records the challenge, unconditionally superseding any live
    /// challenge for the same address.
    fn add_code(&mut self, email: Email, login_attempt_id: LoginAttemptId, code: TwoFACode) -> (r:
        Result<(), TwoFACodeStoreError>)
        ensures
            final(self).reliable() == old(self).reliable(),
            match r {
                Ok(()) => final(self).codes() == old(self).codes().insert(
                    email@,
                    (login_attempt_id@, code@),
                ),
                Err(TwoFACodeStoreError::UnexpectedError) => !old(self).reliable() && final(self).codes() == old(self).codes(),
                Err(_) => false,
            },
    ;

    fn remove_code(&mut self, email: &Email) -> (r: Result<(), TwoFACodeStoreError>)
        ensures
            final(self).reliable() == old(self).reliable(),
            match r {
                Ok(()) => old(self).codes().contains_key(email@) && final(self).codes() == old(self).codes().remove(email@),
                Err(TwoFACodeStoreError::LoginAttemptIdNotFound) => !old(self).codes().contains_key(
                    email@,
                ) && final(self).codes() == old(self).codes(),
                Err(TwoFACodeStoreError::UnexpectedError) => !old(self).reliable() && final(self).codes() == old(self).codes(),
            },
    ;

    fn get_code(&self, email: &Email) -> (r: Result<
        (LoginAttemptId, TwoFACode),
        TwoFACodeStoreError,
    >)
        ensures
            match r {
                Ok(pair) => self.codes().contains_key(email@) && (pair.0@, pair.1@)
                    == self.codes()[email@],
                Err(TwoFACodeStoreError::LoginAttemptIdNotFound) => !self.codes().contains_key(
                    email@,
                ),
                Err(TwoFACodeStoreError::UnexpectedError) => !self.reliable(),
            },
    ;
}

} // verus!
