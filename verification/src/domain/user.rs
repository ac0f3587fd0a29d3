use vstd::prelude::*;
use crate::domain::email::Email;
use crate::domain::password_hash::PasswordHash;

verus! {

/// The mathematical content of a `User`: the address, the stored hash and
/// the two-factor flag.
pub ghost struct UserView {
    pub email: Seq<char>,
    pub password: Seq<char>,
    pub requires_2fa: bool,
}

/// A registered user: immutable after construction.
#[derive(Debug)]
pub struct User {
    email: Email,
    password: PasswordHash,
    requires_2fa: bool,
}

impl View for User {
    type V = UserView;

    closed spec fn view(&self) -> UserView {
        UserView {
            email: self.email@,
            password: self.password@,
            requires_2fa: self.requires_2fa,
        }
    }
}

impl PartialEq for User {
    fn eq(&self, other: &User) -> (r: bool) {
        self.email == other.email && self.password == other.password && self.requires_2fa
            == other.requires_2fa
    }
}

impl vstd::std_specs::cmp::PartialEqSpecImpl for User {
    open spec fn obeys_eq_spec() -> bool {
        true
    }

    open spec fn eq_spec(&self, other: &User) -> bool {
        self@ == other@
    }
}

impl User {
    pub fn new(email: Email, password: PasswordHash, requires_2fa: bool) -> (r: User)
        ensures
            r@ == (UserView { email: email@, password: password@, requires_2fa }),
    {
        User { email, password, requires_2fa }
    }

    pub fn email(&self) -> (r: &Email)
        ensures
            r@ == self@.email,
    {
        &self.email
    }

    pub fn password(&self) -> (r: &PasswordHash)
        ensures
            r@ == self@.password,
    {
        &self.password
    }

    pub fn requires_2fa(&self) -> (r: bool)
        ensures
            r == self@.requires_2fa,
    {
        self.requires_2fa
    }

    pub fn clone(&self) -> (r: User)
        ensures
            r@ == self@,
    {
        User {
            email: self.email.clone(),
            password: self.password.clone(),
            requires_2fa: self.requires_2fa,
        }
    }
}

} // verus!
