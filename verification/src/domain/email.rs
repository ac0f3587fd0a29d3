use vstd::prelude::*;
use vstd::string::StringExecFns;

verus! {

/// Whether the `validator` crate accepts `s` as an email address under
/// its HTML5-style syntax check: a pure function of the string alone.
pub uninterp spec fn email_ok(s: Seq<char>) -> bool;

/// Relies on `validator::validate_email`: a deterministic syntax check on
/// the string alone.
#[verifier::external_body]
fn check_email(raw: &str) -> (r: bool)
    ensures
        r == email_ok(raw@),
{
    validator::validate_email(raw)
}

/// A validated email address. Equality is exact, case-sensitive match on
/// the stored string.
#[derive(Debug)]
pub struct Email {
    address: String,
}

impl View for Email {
    type V = Seq<char>;

    closed spec fn view(&self) -> Seq<char> {
        self.address@
    }
}

impl PartialEq for Email {
    fn eq(&self, other: &Email) -> (r: bool) {
        self.address == other.address
    }
}

impl vstd::std_specs::cmp::PartialEqSpecImpl for Email {
    open spec fn obeys_eq_spec() -> bool {
        true
    }

    open spec fn eq_spec(&self, other: &Email) -> bool {
        self@ == other@
    }
}

impl Email {
    #[verifier::type_invariant]
    closed spec fn wf(self) -> bool {
        email_ok(self@)
    }

    /// Accepts the input exactly when the syntax check does, and keeps the
    /// string unchanged.
    pub fn parse(raw_email: &str) -> (r: Result<Email, String>)
        ensures
            match r {
                Ok(e) => e@ == raw_email@ && email_ok(raw_email@),
                Err(m) => !email_ok(raw_email@) && m@ == "Invalid email: "@ + raw_email@,
            },
    {
        if check_email(raw_email) {
            Ok(Email { address: String::from_str(raw_email) })
        } else {
            Err(String::from_str("Invalid email: ").concat(raw_email))
        }
    }

    pub fn as_ref(&self) -> (r: &str)
        ensures
            r@ == self@,
    {
        self.address.as_str()
    }

    /// The address as the owned key the stores index by.
    pub fn key(&self) -> (r: &String)
        ensures
            r@ == self@,
    {
        &self.address
    }

    pub fn clone(&self) -> (r: Email)
        ensures
            r@ == self@,
    {
        proof {
            use_type_invariant(self);
        }
        Email { address: self.address.clone() }
    }
}

} // verus!
