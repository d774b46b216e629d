//! The interface of a store of banned tokens.

use vstd::prelude::*;

verus! {

/// Why a banned-token store failed.
#[derive(Debug, Clone, Copy, PartialEq, Eq, Structural)]
pub enum BannedTokenStoreError {
    UnexpectedError,
}

/// What banning `token` does to the banned set: on success the token is in
/// it; a failure changes nothing.
pub open spec fn ban_token_post(
    before: Set<Seq<char>>,
    after: Set<Seq<char>>,
    token: Seq<char>,
    r: Result<(), BannedTokenStoreError>,
) -> bool {
    &&& r is Ok ==> after == before.insert(token)
    &&& r is Err ==> after == before
}

/// What asking whether `token` is banned answers: whether it is in the
/// banned set.
pub open spec fn is_token_banned_post(
    banned: Set<Seq<char>>,
    token: Seq<char>,
    r: Result<bool, BannedTokenStoreError>,
) -> bool {
    r == Ok::<bool, BannedTokenStoreError>(banned.contains(token))
}

/// A store of tokens that may no longer be used. A store that keeps a model
/// (`keeps_model()`) describes its contents by `banned()`, the set of banned
/// tokens, and holds them in memory: banning always succeeds. The contracts
/// speak of such stores. A store implemented outside
/// the library keeps none, and nothing is stated of it.
pub trait BannedTokenStore {
    closed spec fn keeps_model(&self) -> bool {
        false
    }

    closed spec fn banned(&self) -> Set<Seq<char>> {
        Set::empty()
    }

    /// Bans `token`.
    fn ban_token(&mut self, token: String) -> (r: Result<(), BannedTokenStoreError>)
        ensures
            final(self).keeps_model() == old(self).keeps_model(),
            old(self).keeps_model() ==> r is Ok,
            old(self).keeps_model() ==> ban_token_post(
                old(self).banned(),
                final(self).banned(),
                token@,
                r,
            ),
    ;

    /// Whether `token` is banned.
    fn is_token_banned(&self, token: &str) -> (r: Result<bool, BannedTokenStoreError>)
        ensures
            self.keeps_model() ==> is_token_banned_post(self.banned(), token@, r),
    ;
}

/// A token just banned is reported as banned.
pub proof fn law_banned_after_ban(
    before: Set<Seq<char>>,
    after: Set<Seq<char>>,
    token: Seq<char>,
    ban: Result<(), BannedTokenStoreError>,
    ask: Result<bool, BannedTokenStoreError>,
)
    requires
        ban_token_post(before, after, token, ban),
        ban is Ok,
        is_token_banned_post(after, token, ask),
    ensures
        ask == Ok::<bool, BannedTokenStoreError>(true),
{
}

/// Banning one token does not change what is said of another.
pub proof fn law_ban_keeps_others(
    before: Set<Seq<char>>,
    after: Set<Seq<char>>,
    token: Seq<char>,
    other: Seq<char>,
    ban: Result<(), BannedTokenStoreError>,
)
    requires
        ban_token_post(before, after, token, ban),
        other != token,
    ensures
        after.contains(other) == before.contains(other),
{
}

} // verus!
