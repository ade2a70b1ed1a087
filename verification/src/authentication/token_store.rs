//! The tokens that the client holds, one for each scope at most.

use crate::authentication::TokenResponse;
use crate::scope::TokenScope;
use crate::time::Timestamp;
use std::collections::HashMap;
use vstd::prelude::*;

verus! {

broadcast use vstd::std_specs::hash::group_hash_axioms;

/// The tokens obtained so far, by scope. A new token for a scope takes the
/// place of the one before it.
pub struct TokenStore {
    store: HashMap<u64, TokenResponse>,
}

impl View for TokenStore {
    type V = Map<TokenScope, TokenResponse>;

    /// The token held for each scope that has one.
    closed spec fn view(&self) -> Map<TokenScope, TokenResponse> {
        Map::new(
            |scope: TokenScope| self.store@.contains_key(scope.spec_code()),
            |scope: TokenScope| self.store@[scope.spec_code()],
        )
    }
}

/// Whether `token` can still be used at `now`: it expires strictly later.
pub open spec fn usable(token: TokenResponse, now: Timestamp) -> bool {
    token.expires_on@ > now@
}

impl Default for TokenStore {
    /// A store that holds no token.
    fn default() -> (store: TokenStore)
        ensures
            store@ == Map::<TokenScope, TokenResponse>::empty(),
    {
        let store = TokenStore { store: HashMap::new() };
        store
    }
}

impl TokenStore {
    /// The token that the store serves for `scope` at `now`: the one it
    /// holds, where it holds one that is still usable.
    pub open spec fn spec_token(&self, scope: TokenScope, now: Timestamp) -> Option<Seq<char>> {
        if self@.contains_key(scope) && usable(self@[scope], now) {
            Some(self@[scope].token@)
        } else {
            None
        }
    }

    /// The token for `scope`, where the store holds one that has not expired
    /// at `now`. An expired token is never handed out.
    pub fn token(&self, scope: TokenScope, now: &Timestamp) -> (r: Option<String>)
        ensures
            r is Some <==> self.spec_token(scope, *now) is Some,
            r matches Some(token) ==> Some(token@) == self.spec_token(scope, *now),
    {
        match self.store.get(&scope.code()) {
            Some(held) => {
                if held.expires_on.is_after(now) {
                    Some(held.token.clone())
                } else {
                    None
                }
            },
            None => None,
        }
    }

    /// What the store holds for `scope`, expired or not.
    pub fn token_response(&self, scope: TokenScope) -> (r: Option<TokenResponse>)
        ensures
            r is Some <==> self@.contains_key(scope),
            r matches Some(held) ==> held == self@[scope],
    {
        match self.store.get(&scope.code()) {
            Some(held) => Some(
                TokenResponse { token: held.token.clone(), expires_on: held.expires_on },
            ),
            None => None,
        }
    }

    /// Puts `token` in the store as the token for `scope`, in the place of
    /// the one that was held for it, which is handed back. The tokens of
    /// other scopes stay as they are.
    pub fn insert_token(&mut self, scope: TokenScope, token: TokenResponse) -> (r: Option<
        TokenResponse,
    >)
        ensures
            final(self)@ == old(self)@.insert(scope, token),
            r is Some <==> old(self)@.contains_key(scope),
            r matches Some(held) ==> held == old(self)@[scope],
    {
        let r = self.store.insert(scope.code(), token);
        proof {
            TokenScope::lemma_code_injective();
        }
        r
    }
}

} // verus!
