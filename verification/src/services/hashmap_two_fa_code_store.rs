//! A store of pending second-factor log-ins held in memory.

use crate::domain::{Email, LoginAttemptId, TwoFACode, TwoFACodeStore, TwoFACodeStoreError};
use vstd::hash_map::StringHashMap;
use vstd::prelude::*;

verus! {

/// Pending attempts keyed by e-mail address.
pub struct HashmapTwoFACodeStore {
    codes: StringHashMap<(LoginAttemptId, TwoFACode)>,
}

impl View for HashmapTwoFACodeStore {
    type V = Map<Seq<char>, (Seq<char>, Seq<char>)>;

    closed spec fn view(&self) -> Map<Seq<char>, (Seq<char>, Seq<char>)> {
        self.codes@.map_values(|v: (LoginAttemptId, TwoFACode)| (v.0@, v.1@))
    }
}

impl HashmapTwoFACodeStore {
    /// An empty store.
    pub fn new() -> (r: HashmapTwoFACodeStore)
        ensures
            r@ == Map::<Seq<char>, (Seq<char>, Seq<char>)>::empty(),
    {
        let r = HashmapTwoFACodeStore { codes: StringHashMap::new() };
        assert(r@ =~= Map::<Seq<char>, (Seq<char>, Seq<char>)>::empty());
        r
    }
}

impl Default for HashmapTwoFACodeStore {
    fn default() -> (r: Self)
        ensures
            r@ == Map::<Seq<char>, (Seq<char>, Seq<char>)>::empty(),
    {
        HashmapTwoFACodeStore::new()
    }
}

impl TwoFACodeStore for HashmapTwoFACodeStore {
    open spec fn keeps_model(&self) -> bool {
        true
    }

    open spec fn codes(&self) -> Map<Seq<char>, (Seq<char>, Seq<char>)> {
        self@
    }

    /// Always succeeds.
    fn add_code(&mut self, email: Email, login_attempt_id: LoginAttemptId, code: TwoFACode) -> (r:
        Result<(), TwoFACodeStoreError>)
        ensures
            r is Ok,
    {
        let ghost entry = (login_attempt_id, code);
        let key = email.into_string();
        self.codes.insert(key, (login_attempt_id, code));
        assert(self@ =~= old(self)@.insert(key@, (entry.0@, entry.1@)));
        Ok(())
    }

    /// Fails with `LoginAttemptIdNotFound` exactly when nothing is recorded
    /// for `email`.
    fn remove_code(&mut self, email: &Email) -> (r: Result<(), TwoFACodeStoreError>)
        ensures
            r is Ok <==> old(self)@.contains_key(email@),
            r is Err ==> r == Err::<(), TwoFACodeStoreError>(
                TwoFACodeStoreError::LoginAttemptIdNotFound,
            ),
    {
        if self.codes.contains_key(email.as_str()) {
            self.codes.remove(email.as_str());
            assert(self@ =~= old(self)@.remove(email@));
            Ok(())
        } else {
            Err(TwoFACodeStoreError::LoginAttemptIdNotFound)
        }
    }

    /// Fails with `LoginAttemptIdNotFound` exactly when nothing is recorded
    /// for `email`.
    fn get_code(&self, email: &Email) -> (r: Result<(LoginAttemptId, TwoFACode), TwoFACodeStoreError>)
        ensures
            r is Ok <==> self@.contains_key(email@),
            r is Err ==> r matches Err(TwoFACodeStoreError::LoginAttemptIdNotFound),
    {
        match self.codes.get(email.as_str()) {
            Some(entry) => Ok((entry.0.clone(), entry.1.clone())),
            None => Err(TwoFACodeStoreError::LoginAttemptIdNotFound),
        }
    }
}

} // verus!
