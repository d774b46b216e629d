//! A user store held in memory.

use crate::domain::email::email_text_accepted;
use crate::domain::password::password_is_strong;
use crate::domain::{Email, Password, User, UserStore, UserStoreError};
use crate::pattern::test_pattern;
use crate::domain::email::EMAIL_PATTERN;
use crate::domain::password::PASSWORD_PATTERN;
use crate::text::{lemma_trim_idempotent, trim, trim_str, trimmed};
use vstd::hash_map::StringHashMap;
use vstd::prelude::*;

verus! {

/// Whether the store takes `user`: its trimmed address matches the address
/// pattern and its trimmed password passes the strength rules.
pub open spec fn user_admissible(user: User) -> bool {
    &&& email_text_accepted(trim(user.email@))
    &&& password_is_strong(trim(user.password@))
}

/// The users of an in-memory store, keyed by address.
pub type UserTable = Map<Seq<char>, User>;

/// What adding `user` answers: `UserAlreadyExists` when its address is a
/// key already, `InvalidCredentials` when the user is not admissible.
pub open spec fn add_user_result(users: UserTable, user: User) -> Result<(), UserStoreError> {
    if users.contains_key(user.email@) {
        Err(UserStoreError::UserAlreadyExists)
    } else if !user_admissible(user) {
        Err(UserStoreError::InvalidCredentials)
    } else {
        Ok(())
    }
}

/// The users after adding `user`: the user is stored under its address when
/// it is taken; otherwise nothing changes.
pub open spec fn users_after_add(users: UserTable, user: User) -> UserTable {
    if add_user_result(users, user) is Ok {
        users.insert(user.email@, user)
    } else {
        users
    }
}

/// What looking up `email` answers: the user stored under the trimmed
/// address, or `UserNotFound`.
pub open spec fn get_user_result(users: UserTable, email: Seq<char>) -> Result<User, UserStoreError> {
    if users.contains_key(trim(email)) {
        Ok(users[trim(email)])
    } else {
        Err(UserStoreError::UserNotFound)
    }
}

/// What checking `password` for `email` answers: `Ok(true)` when the user
/// stored under the trimmed address has the trimmed password,
/// `InvalidCredentials` for another password, `UserNotFound` for an
/// unknown address.
pub open spec fn credentials_result(users: UserTable, email: Seq<char>, password: Seq<char>) -> Result<
    bool,
    UserStoreError,
> {
    if !users.contains_key(trim(email)) {
        Err(UserStoreError::UserNotFound)
    } else if users[trim(email)].password@ == trim(password) {
        Ok(true)
    } else {
        Err(UserStoreError::InvalidCredentials)
    }
}

/// Users keyed by their e-mail address, as given when they were added.
pub struct HashmapUserStore {
    users: StringHashMap<User>,
}

impl HashmapUserStore {
    /// Every user is kept under their own address.
    #[verifier::type_invariant]
    spec fn well_formed(self) -> bool {
        forall|k: Seq<char>| #[trigger] self.users@.contains_key(k) ==> self.users@[k].email@ == k
    }
}

impl View for HashmapUserStore {
    type V = Map<Seq<char>, User>;

    closed spec fn view(&self) -> Map<Seq<char>, User> {
        self.users@
    }
}

impl HashmapUserStore {
    /// An empty store.
    pub fn new() -> (r: HashmapUserStore)
        ensures
            r@ == Map::<Seq<char>, User>::empty(),
    {
        HashmapUserStore { users: StringHashMap::new() }
    }

    /// Adds `user` under its address. An address already present is refused
    /// with `UserAlreadyExists`; a user whose trimmed address or password
    /// fails its pattern is refused with `InvalidCredentials`. A refusal
    /// leaves the store as it was.
    pub fn add_user(&mut self, user: User) -> (r: Result<(), UserStoreError>)
        ensures
            r == add_user_result(old(self)@, user),
            final(self)@ == users_after_add(old(self)@, user),
    {
        if self.users.contains_key(user.email.as_str()) {
            return Err(UserStoreError::UserAlreadyExists);
        }
        let email = trimmed(user.email.as_str());
        let password = trimmed(user.password.as_str());
        match test_pattern(EMAIL_PATTERN, email.as_str()) {
            Some(true) => {},
            _ => return Err(UserStoreError::InvalidCredentials),
        }
        match test_pattern(PASSWORD_PATTERN, password.as_str()) {
            Some(true) => {},
            _ => return Err(UserStoreError::InvalidCredentials),
        }
        proof {
            use_type_invariant(&*self);
        }
        let key = user.email.clone();
        let mut users = StringHashMap::new();
        std::mem::swap(&mut users, &mut self.users);
        users.insert(key, user);
        self.users = users;
        Ok(())
    }

    /// The user stored under the trimmed `email`.
    pub fn get_user(&self, email: &str) -> (r: Result<User, UserStoreError>)
        ensures
            r == get_user_result(self@, email@),
    {
        let email = trim_str(email);
        match self.users.get(email) {
            Some(user) => Ok(user.duplicate()),
            None => Err(UserStoreError::UserNotFound),
        }
    }

    /// `Ok(true)` when the user stored under the trimmed `email` has the
    /// trimmed `password`; `InvalidCredentials` for another password and
    /// `UserNotFound` for an unknown address.
    pub fn validate_credentials(&self, email: &str, password: &str) -> (r: Result<
        bool,
        UserStoreError,
    >)
        ensures
            r == credentials_result(self@, email@, password@),
    {
        let password = trimmed(password);
        match self.get_user(email) {
            Ok(user) => {
                if user.password == password {
                    Ok(true)
                } else {
                    Err(UserStoreError::InvalidCredentials)
                }
            },
            Err(e) => Err(e),
        }
    }
}

impl Default for HashmapUserStore {
    fn default() -> (r: Self)
        ensures
            r@ == Map::<Seq<char>, User>::empty(),
    {
        HashmapUserStore::new()
    }
}

impl UserStore for HashmapUserStore {
    open spec fn keeps_model(&self) -> bool {
        true
    }

    open spec fn account(&self, email: Seq<char>) -> Option<bool> {
        if self@.contains_key(email) {
            Some(self@[email].requires_2fa)
        } else {
            None
        }
    }

    open spec fn password_of(&self, email: Seq<char>) -> Seq<char> {
        self@[email].password@
    }

    open spec fn accepts(&self, email: Seq<char>, password: Seq<char>) -> bool {
        self@.contains_key(email) && self@[email].password@ == trim(password)
    }

    open spec fn admits(&self, email: Seq<char>, password: Seq<char>) -> bool {
        email_text_accepted(trim(email)) && password_is_strong(trim(password))
    }

    fn add_user(&mut self, user: User) -> (r: Result<(), UserStoreError>) {
        HashmapUserStore::add_user(self, user)
    }

    fn get_user(&self, email: &Email) -> (r: Result<User, UserStoreError>) {
        proof {
            use_type_invariant(email);
            use_type_invariant(self);
        }
        HashmapUserStore::get_user(self, email.as_str())
    }

    fn validate_credentials(&self, email: &Email, password: &Password) -> (r: Result<
        bool,
        UserStoreError,
    >) {
        proof {
            use_type_invariant(email);
            lemma_trim_idempotent(password@);
        }
        HashmapUserStore::validate_credentials(self, email.as_str(), password.as_str())
    }
}

/// A user just added is found again under their address, when the address
/// has no surrounding white space (as `User::new` makes it).
pub proof fn law_added_user_is_found(users: UserTable, user: User)
    requires
        add_user_result(users, user) is Ok,
        trim(user.email@) == user.email@,
    ensures
        get_user_result(users_after_add(users, user), user.email@) == Ok::<User, UserStoreError>(user),
{
}

/// Adding a user whose address is already taken is refused, and changes
/// nothing.
pub proof fn law_second_add_is_refused(users: UserTable, user: User, again: User)
    requires
        add_user_result(users, user) is Ok,
        again.email@ == user.email@,
    ensures
        add_user_result(users_after_add(users, user), again) == Err::<(), UserStoreError>(
            UserStoreError::UserAlreadyExists,
        ),
        users_after_add(users_after_add(users, user), again) == users_after_add(users, user),
{
}

/// A user just added logs in with their password, when address and password
/// have no surrounding white space (as `User::new` makes them).
pub proof fn law_added_user_password_accepted(users: UserTable, user: User)
    requires
        add_user_result(users, user) is Ok,
        trim(user.email@) == user.email@,
        trim(user.password@) == user.password@,
    ensures
        credentials_result(users_after_add(users, user), user.email@, user.password@) == Ok::<
            bool,
            UserStoreError,
        >(true),
{
}

/// Surrounding white space in a query makes no difference.
pub proof fn law_lookup_ignores_surrounding_space(users: UserTable, email: Seq<char>, password: Seq<char>)
    ensures
        get_user_result(users, email) == get_user_result(users, trim(email)),
        credentials_result(users, email, password) == credentials_result(users, trim(email), password),
{
    lemma_trim_idempotent(email);
}

} // verus!
