use vstd::prelude::*;
use vstd::string::StringExecFns;
use crate::domain::data_stores::{
    BannedTokenStore, BannedTokenStoreError, LoginAttemptId, TwoFACode, TwoFACodeStore,
    TwoFACodeStoreError, UserStore, UserStoreError,
};
use crate::domain::email::Email;
use crate::domain::user::{User, UserView};
use crate::services::assoc::StringMap;

verus! {

/// The in-memory credential store: one user record per email address.
pub struct HashMapUserStore {
    users: StringMap<User>,
}

impl HashMapUserStore {
    #[verifier::type_invariant]
    closed spec fn record_keys_coherent(self) -> bool {
        forall|k: Seq<char>| #[trigger] self.users@.contains_key(k) ==> self.users@[k].email == k
    }

    pub fn default() -> (r: HashMapUserStore)
        ensures
            r.users() == Map::<Seq<char>, UserView>::empty(),
            r.reliable(),
    {
        HashMapUserStore { users: StringMap::new() }
    }
}

impl UserStore for HashMapUserStore {
    closed spec fn users(&self) -> Map<Seq<char>, UserView> {
        self.users@
    }

    closed spec fn reliable(&self) -> bool {
        true
    }

    fn add_user(&mut self, user: User) -> (r: Result<(), UserStoreError>) {
        proof {
            use_type_invariant(&*self);
        }
        let key = user.email().key().clone();
        if self.users.contains_key(&key) {
            Err(UserStoreError::UserAlreadyExists)
        } else {
            let ghost before = self.users@;
            let ghost added = user@;
            let mut users = StringMap::new();
            core::mem::swap(&mut users, &mut self.users);
            users.insert(key, user);
            proof {
                assert forall|k: Seq<char>| #[trigger] users@.contains_key(k) implies users@[k].email
                    == k by {
                    if k != added.email {
                        assert(before.contains_key(k));
                    }
                }
            }
            self.users = users;
            Ok(())
        }
    }

    fn get_user(&self, email: &Email) -> (r: Result<User, UserStoreError>) {
        proof {
            use_type_invariant(self);
        }
        match self.users.get(email.key()) {
            Some(user) => Ok(user.clone()),
            None => Err(UserStoreError::UserNotFound),
        }
    }

    fn validate_user(&self, email: &Email, raw_password: &str) -> (r: Result<
        (),
        UserStoreError,
    >) {
        match self.users.get(email.key()) {
            Some(user) => {
                if user.password().verify(raw_password) {
                    Ok(())
                } else {
                    Err(UserStoreError::InvalidCredentials)
                }
            },
            None => Err(UserStoreError::UserNotFound),
        }
    }
}

/// The in-memory challenge store: at most one live challenge per email.
pub struct HashMapTwoFACodeStore {
    codes: StringMap<(LoginAttemptId, TwoFACode)>,
}

impl HashMapTwoFACodeStore {
    pub fn default() -> (r: HashMapTwoFACodeStore)
        ensures
            r.codes() == Map::<Seq<char>, (Seq<char>, Seq<char>)>::empty(),
            r.reliable(),
    {
        HashMapTwoFACodeStore { codes: StringMap::new() }
    }
}

impl TwoFACodeStore for HashMapTwoFACodeStore {
    closed spec fn codes(&self) -> Map<Seq<char>, (Seq<char>, Seq<char>)> {
        self.codes@
    }

    closed spec fn reliable(&self) -> bool {
        true
    }

    fn add_code(&mut self, email: Email, login_attempt_id: LoginAttemptId, code: TwoFACode) -> (r:
        Result<(), TwoFACodeStoreError>) {
        let key = email.key().clone();
        self.codes.insert(key, (login_attempt_id, code));
        Ok(())
    }

    fn remove_code(&mut self, email: &Email) -> (r: Result<(), TwoFACodeStoreError>) {
        if self.codes.remove(email.key()) {
            Ok(())
        } else {
            Err(TwoFACodeStoreError::LoginAttemptIdNotFound)
        }
    }

    fn get_code(&self, email: &Email) -> (r: Result<
        (LoginAttemptId, TwoFACode),
        TwoFACodeStoreError,
    >) {
        match self.codes.get(email.key()) {
            Some(pair) => Ok((pair.0.clone(), pair.1.clone())),
            None => Err(TwoFACodeStoreError::LoginAttemptIdNotFound),
        }
    }
}

/// The in-memory revocation store: the set of revoked tokens.
pub struct HashSetBannedTokenStore {
    tokens: StringMap<bool>,
}

impl HashSetBannedTokenStore {
    pub fn default() -> (r: HashSetBannedTokenStore)
        ensures
            r.tokens() == Set::<Seq<char>>::empty(),
            r.reliable(),
    {
        let r = HashSetBannedTokenStore { tokens: StringMap::new() };
        proof {
            assert(r.tokens() =~= Set::<Seq<char>>::empty());
        }
        r
    }
}

impl BannedTokenStore for HashSetBannedTokenStore {
    closed spec fn tokens(&self) -> Set<Seq<char>> {
        self.tokens@.dom()
    }

    closed spec fn reliable(&self) -> bool {
        true
    }

    fn add_token(&mut self, token: &str) -> (r: Result<(), BannedTokenStoreError>) {
        self.tokens.insert(String::from_str(token), true);
        proof {
            assert(self.tokens() =~= old(self).tokens().insert(token@));
        }
        Ok(())
    }

    fn contains_token(&self, token: &str) -> (r: Result<bool, BannedTokenStoreError>) {
        let key = String::from_str(token);
        Ok(self.tokens.contains_key(&key))
    }
}

} // verus!
