use vstd::prelude::*;

verus! {

/// The session token of the web client, as kept in its local storage.
#[derive(Clone, Debug)]
pub struct TokenStore {
    pub token: Option<String>,
}

impl TokenStore {
    /// The store as restored from local storage.
    pub fn new(stored: Option<String>) -> (store: TokenStore)
        ensures
            store.token == stored,
    {
        TokenStore { token: stored }
    }

    /// Replaces the token (or forgets it).
    pub fn set_token(&mut self, token: Option<String>)
        ensures
            final(self).token == token,
    {
        self.token = token;
    }

    /// The current token.
    pub fn get_token(&self) -> (token: Option<String>)
        ensures
            token == self.token,
    {
        self.token.clone()
    }

    /// Whether there is a token.
    pub fn have_token(&self) -> (have: bool)
        ensures
            have == self.token is Some,
    {
        self.get_token().is_some()
    }
}

/// Picks `a` for an authenticated visitor and `b` otherwise.
pub fn if_auth<'a, T: ?Sized>(authenticated: bool, a: &'a T, b: &'a T) -> (chosen: &'a T)
    ensures
        chosen == (if authenticated {
            a
        } else {
            b
        }),
{
    if authenticated {
        a
    } else {
        b
    }
}

} // verus!
