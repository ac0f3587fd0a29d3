use vstd::prelude::*;
use crate::domain::data_stores::{UserStore, UserStoreError};
use crate::domain::email::Email;
use crate::domain::password::Password;
use crate::domain::user::{User, UserView};
use crate::services::assoc::StringMap;

verus! {

/// An in-memory credential store that, besides the store contract,
/// answers validation queries phrased with a parsed `Password` value.
pub struct HashmapUserStore {
    users: StringMap<User>,
}

impl HashmapUserStore {
    #[verifier::type_invariant]
    closed spec fn record_keys_coherent(self) -> bool {
        forall|k: Seq<char>| #[trigger] self.users@.contains_key(k) ==> self.users@[k].email == k
    }

    pub fn default() -> (r: HashmapUserStore)
        ensures
            r.users() == Map::<Seq<char>, UserView>::empty(),
            r.reliable(),
    {
        HashmapUserStore { users: StringMap::new() }
    }

    /// Validation phrased over a parsed password value.
    pub fn validate_password(&self, email: &Email, password: &Password) -> (r: Result<
        (),
        UserStoreError,
    >)
        ensures
            match r {
                Ok(()) => self.users().contains_key(email@)
                    && crate::domain::password_hash::hash_matches(
                    self.users()[email@].password,
                    password@,
                ),
                Err(UserStoreError::UserNotFound) => !self.users().contains_key(email@),
                Err(UserStoreError::InvalidCredentials) => self.users().contains_key(email@)
                    && !crate::domain::password_hash::hash_matches(
                    self.users()[email@].password,
                    password@,
                ),
                Err(_) => false,
            },
    {
        self.validate_user(email, password.as_ref())
    }
}

impl UserStore for HashmapUserStore {
    closed spec fn users(&self) -> Map<Seq<char>, UserView> {
        self.users@
    }

    closed spec fn reliable(&self) -> bool {
        true
    }

    fn add_user(&mut self, user: User) -> (r: Result<(), UserStoreError>) {
        proof {
            use_type_invariant(&*self);
        }
        let key = user.email().key().clone();
        if self.users.contains_key(&key) {
            Err(UserStoreError::UserAlreadyExists)
        } else {
            let ghost before = self.users@;
            let ghost added = user@;
            let mut users = StringMap::new();
            core::mem::swap(&mut users, &mut self.users);
            users.insert(key, user);
            proof {
                assert forall|k: Seq<char>| #[trigger] users@.contains_key(k) implies users@[k].email
                    == k by {
                    if k != added.email {
                        assert(before.contains_key(k));
                    }
                }
            }
            self.users = users;
            Ok(())
        }
    }

    fn get_user(&self, email: &Email) -> (r: Result<User, UserStoreError>) {
        proof {
            use_type_invariant(self);
        }
        match self.users.get(email.key()) {
            Some(user) => Ok(user.clone()),
            None => Err(UserStoreError::UserNotFound),
        }
    }

    fn validate_user(&self, email: &Email, raw_password: &str) -> (r: Result<
        (),
        UserStoreError,
    >) {
        match self.users.get(email.key()) {
            Some(user) => {
                if user.password().verify(raw_password) {
                    Ok(())
                } else {
                    Err(UserStoreError::InvalidCredentials)
                }
            },
            None => Err(UserStoreError::UserNotFound),
        }
    }
}

} // verus!
