//! The interface of a user store.

use crate::domain::{Email, Password, User};
use crate::text::trim;
use vstd::prelude::*;

verus! {

/// Why a user store refused a request.
#[derive(Debug, Clone, Copy, PartialEq, Eq, Structural)]
pub enum UserStoreError {
    UserAlreadyExists,
    UserNotFound,
    InvalidCredentials,
    UnexpectedError,
}

/// What looking up `email` answers in a store where the account under it is
/// `account` and the stored password `password`: the user registered there,
/// with that address, password and second-factor setting, and an error
/// exactly when no one is registered.
pub open spec fn lookup_post(
    account: Option<bool>,
    password: Seq<char>,
    email: Seq<char>,
    r: Result<User, UserStoreError>,
) -> bool {
    &&& r is Ok <==> account is Some
    &&& r matches Ok(u) ==> account == Some(u.requires_2fa) && u.email@ == email && u.password@
        == password
}

/// A store of users, keyed by e-mail address.
///
/// A store that keeps a model (`keeps_model()`) describes its contents:
/// `account(e)` is `Some(requires_2fa)` when a user is registered under the
/// address `e`, `password_of(e)` is the password stored for them,
/// `accepts(e, p)` says whether the store takes `p` as that user's password,
/// and `admits(e, p)` whether it registers a user with that
/// address and password when the address is free. The contracts speak of stores that keep a model; a store
/// implemented outside the library keeps none, and nothing is stated of it.
pub trait UserStore {
    closed spec fn keeps_model(&self) -> bool {
        false
    }

    closed spec fn account(&self, email: Seq<char>) -> Option<bool> {
        None
    }

    closed spec fn accepts(&self, email: Seq<char>, password: Seq<char>) -> bool {
        false
    }

    /// The password stored for the user registered under `email`.
    closed spec fn password_of(&self, email: Seq<char>) -> Seq<char> {
        Seq::empty()
    }

    /// Whether the store takes a user with this address and password when
    /// the address is free.
    closed spec fn admits(&self, email: Seq<char>, password: Seq<char>) -> bool {
        false
    }

    /// Registers `user`. An address already registered is refused with
    /// `UserAlreadyExists`; after a success the user is registered with their
    /// second-factor setting, and a password without surrounding white space
    /// is taken as theirs. A refusal changes nothing, and a success changes
    /// nothing for the other addresses.
    fn add_user(&mut self, user: User) -> (r: Result<(), UserStoreError>)
        ensures
            final(self).keeps_model() == old(self).keeps_model(),
            old(self).keeps_model() ==> (r is Ok <==> old(self).account(user.email@) is None && old(
                self,
            ).admits(user.email@, user.password@)),
            old(self).keeps_model() ==> (old(self).account(user.email@) is Some ==> r == Err::<
                (),
                UserStoreError,
            >(UserStoreError::UserAlreadyExists)),
            old(self).keeps_model() ==> (r is Ok ==> final(self).account(user.email@) == Some(
                user.requires_2fa,
            )),
            old(self).keeps_model() ==> (r is Ok && trim(user.password@) == user.password@
                ==> final(self).accepts(user.email@, user.password@)),
            old(self).keeps_model() ==> (r is Ok ==> final(self).password_of(user.email@)
                == user.password@),
            old(self).keeps_model() ==> (r is Err ==> (forall|e: Seq<char>|
                #[trigger] final(self).password_of(e) == old(self).password_of(e))),
            old(self).keeps_model() ==> (r is Ok ==> (forall|e: Seq<char>|
                e != user.email@ ==> #[trigger] final(self).password_of(e) == old(
                    self,
                ).password_of(e))),
            old(self).keeps_model() ==> (r is Err ==> (forall|e: Seq<char>|
                #[trigger] final(self).account(e) == old(self).account(e))),
            old(self).keeps_model() ==> (r is Err ==> (forall|e: Seq<char>, p: Seq<char>|
                #[trigger] final(self).accepts(e, p) == old(self).accepts(e, p))),
            old(self).keeps_model() ==> (r is Ok ==> (forall|e: Seq<char>|
                e != user.email@ ==> #[trigger] final(self).account(e) == old(self).account(e))),
            old(self).keeps_model() ==> (r is Ok ==> (forall|e: Seq<char>, p: Seq<char>|
                e != user.email@ ==> #[trigger] final(self).accepts(e, p) == old(self).accepts(
                    e,
                    p,
                ))),
    ;

    /// The user registered under `email`: found exactly when one is
    /// registered, with that address, their stored password and their
    /// second-factor setting.
    fn get_user(&self, email: &Email) -> (r: Result<User, UserStoreError>)
        ensures
            self.keeps_model() ==> (r matches Ok(u) ==> self.account(email@) == Some(
                u.requires_2fa,
            )),
            self.keeps_model() ==> (r is Ok <==> self.account(email@) is Some),
            self.keeps_model() ==> (r matches Ok(u) ==> u.email@ == email@ && u.password@
                == self.password_of(email@)),
            self.keeps_model() ==> lookup_post(
                self.account(email@),
                self.password_of(email@),
                email@,
                r,
            ),
    ;

    /// Whether `password` is the password of the user registered under
    /// `email`: `Ok(true)` exactly when the store takes it as theirs.
    fn validate_credentials(&self, email: &Email, password: &Password) -> (r: Result<
        bool,
        UserStoreError,
    >)
        ensures
            self.keeps_model() ==> (r == Ok::<bool, UserStoreError>(true) <==> self.accepts(
                email@,
                password@,
            )),
    ;
}

/// A user registered in a store and then looked up under their address comes
/// back as registered: the same address, the same password and the same
/// second-factor setting.
pub proof fn law_registered_user_read_back<U: UserStore>(
    store: U,
    user: User,
    got: Result<User, UserStoreError>,
)
    requires
        store.keeps_model(),
        store.account(user.email@) == Some(user.requires_2fa),
        store.password_of(user.email@) == user.password@,
        lookup_post(
            store.account(user.email@),
            store.password_of(user.email@),
            user.email@,
            got,
        ),
    ensures
        got matches Ok(u) && u.email@ == user.email@ && u.password@ == user.password@
            && u.requires_2fa == user.requires_2fa,
{
}

} // verus!
