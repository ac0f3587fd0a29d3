use vstd::prelude::*;
use vstd::string::StrSliceExecFns;
use vstd::string::StringExecFns;

verus! {

/// A plaintext password is accepted when it is at least eight characters
/// long.
pub open spec fn password_ok(s: Seq<char>) -> bool {
    s.len() >= 8
}

/// A validated plaintext password.
///
/// The plaintext only lives while a signup or login request is handled;
/// the stores keep a `PasswordHash` instead, and the error message of a
/// failed parse never echoes the rejected input.
pub struct Password {
    plaintext: String,
}

impl View for Password {
    type V = Seq<char>;

    closed spec fn view(&self) -> Seq<char> {
        self.plaintext@
    }
}

impl Password {
    #[verifier::type_invariant]
    closed spec fn wf(self) -> bool {
        password_ok(self@)
    }

    /// Accepts the input exactly when it has at least eight characters.
    pub fn parse(raw_pass: &str) -> (r: Result<Password, String>)
        ensures
            match r {
                Ok(p) => p@ == raw_pass@ && password_ok(raw_pass@),
                Err(_) => !password_ok(raw_pass@),
            },
    {
        if validate_password(raw_pass) {
            Ok(Password { plaintext: String::from_str(raw_pass) })
        } else {
            Err(String::from_str("Invalid Password"))
        }
    }

    /// The plaintext, through one explicit, auditable accessor.
    pub fn as_ref(&self) -> (r: &str)
        ensures
            r@ == self@,
    {
        self.plaintext.as_str()
    }

    pub fn clone(&self) -> (r: Password)
        ensures
            r@ == self@,
    {
        proof {
            use_type_invariant(self);
        }
        Password { plaintext: self.plaintext.clone() }
    }
}

/// Whether a plaintext password meets the length policy.
pub fn validate_password(s: &str) -> (r: bool)
    ensures
        r == password_ok(s@),
{
    s.unicode_len() >= 8
}

} // verus!
