use vstd::prelude::*;
use vstd::string::StringExecFns;
use crate::domain::password::Password;

verus! {

/// Whether verifying `password` against the PHC hash string `hash`
/// succeeds. Verification re-derives the hash from the salt and parameters
/// carried inside `hash`, so the outcome is a function of the two strings
/// alone.
pub uninterp spec fn hash_matches(hash: Seq<char>, password: Seq<char>) -> bool;

/// Whether `s` is a structurally valid PHC hash string.
pub uninterp spec fn phc_ok(s: Seq<char>) -> bool;

/// Relies on `argon2::Argon2::hash_password` (through the
/// `password_hash::PasswordHasher` trait), salted with fresh random bytes
/// drawn through `rand::Rng::fill`. The salt makes the result depend on
/// chance, so nothing ties it to the inputs; the hash that comes back is a
/// valid PHC string that verifies against the hashed password. For a
/// sixteen-byte salt and the default parameters the call cannot fail (the
/// salt encodes well within the buffer, the output length is in range and
/// the parameters are valid by construction), so a value always comes
/// back.
#[verifier::external_body]
fn hash_password_string(password: &str) -> (r: Option<String>)
    ensures
        r is Some,
        r matches Some(h) ==> phc_ok(h@) && hash_matches(h@, password@),
{
    let mut salt_bytes = [0u8; 16];
    rand::Rng::fill(&mut rand::rng(), &mut salt_bytes[..]);
    let salt = match argon2::password_hash::SaltString::encode_b64(&salt_bytes) {
        Ok(s) => s,
        Err(_) => return None,
    };
    let hasher = argon2::Argon2::default();
    match argon2::PasswordHasher::hash_password(&hasher, password.as_bytes(), &salt) {
        Ok(h) => Some(h.to_string()),
        Err(_) => None,
    }
}

/// Relies on `password_hash::PasswordHash::new` followed by
/// `argon2::Argon2::verify_password`: deterministic in the hash string and
/// the candidate password, and false (never a panic) on a malformed hash.
#[verifier::external_body]
fn verify_password_string(hash: &str, password: &str) -> (r: bool)
    ensures
        r == hash_matches(hash@, password@),
{
    match argon2::password_hash::PasswordHash::new(hash) {
        Ok(parsed) => {
            let hasher = argon2::Argon2::default();
            argon2::PasswordVerifier::verify_password(&hasher, password.as_bytes(), &parsed)
                .is_ok()
        },
        Err(_) => false,
    }
}

/// Relies on `password_hash::PasswordHash::new`: it returns `Ok` exactly
/// when the string follows the PHC string format.
#[verifier::external_body]
fn check_phc(s: &str) -> (r: bool)
    ensures
        r == phc_ok(s@),
{
    argon2::password_hash::PasswordHash::new(s).is_ok()
}

/// An opaque, structurally valid password hash, created at signup and
/// never mutated.
#[derive(Debug)]
pub struct PasswordHash {
    phc: String,
}

impl View for PasswordHash {
    type V = Seq<char>;

    closed spec fn view(&self) -> Seq<char> {
        self.phc@
    }
}

impl PartialEq for PasswordHash {
    fn eq(&self, other: &PasswordHash) -> (r: bool) {
        self.phc == other.phc
    }
}

impl vstd::std_specs::cmp::PartialEqSpecImpl for PasswordHash {
    open spec fn obeys_eq_spec() -> bool {
        true
    }

    open spec fn eq_spec(&self, other: &PasswordHash) -> bool {
        self@ == other@
    }
}

impl PasswordHash {
    #[verifier::type_invariant]
    closed spec fn wf(self) -> bool {
        phc_ok(self@)
    }

    /// Computes a salted hash of the password; two calls on the same input
    /// salt independently, so their results need not agree, yet each one
    /// verifies against the plaintext it was computed from.
    pub fn hash(password: &Password) -> (r: Option<PasswordHash>)
        ensures
            r is Some,
            r matches Some(h) ==> hash_matches(h@, password@),
    {
        match hash_password_string(password.as_ref()) {
            Some(s) => Some(PasswordHash { phc: s }),
            None => None,
        }
    }

    /// Accepts a stored hash string exactly when it is structurally valid.
    pub fn parse(raw: &str) -> (r: Result<PasswordHash, String>)
        ensures
            match r {
                Ok(h) => h@ == raw@ && phc_ok(raw@),
                Err(_) => !phc_ok(raw@),
            },
    {
        if check_phc(raw) {
            Ok(PasswordHash { phc: String::from_str(raw) })
        } else {
            Err(String::from_str("Invalid password hash"))
        }
    }

    /// True exactly when the candidate plaintext verifies against this
    /// hash; false on any mismatch, never a panic.
    pub fn verify(&self, candidate: &str) -> (r: bool)
        ensures
            r == hash_matches(self@, candidate@),
    {
        verify_password_string(self.phc.as_str(), candidate)
    }

    pub fn as_ref(&self) -> (r: &str)
        ensures
            r@ == self@,
    {
        self.phc.as_str()
    }

    pub fn clone(&self) -> (r: PasswordHash)
        ensures
            r@ == self@,
    {
        proof {
            use_type_invariant(self);
        }
        PasswordHash { phc: self.phc.clone() }
    }
}

} // verus!
