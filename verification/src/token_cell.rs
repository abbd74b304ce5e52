//! The single-slot cell through which a refresher publishes its latest
//! access token.
//!
//! A refresher owns its token exclusively and exposes it only through one of
//! these cells, updated by whole-value replace: a reader sees either the
//! previous token or the new one, never a partial value, and before the
//! first successful acquisition it sees an explicit absent state.

use vstd::prelude::*;

verus! {

/// Mathematical value of an [`AccessToken`].
pub ghost struct AccessTokenV {
    pub bearer: Seq<char>,
    pub expiry: int,
}

/// A bearer credential together with the absolute instant (seconds since
/// the Unix epoch) at which it expires.
#[derive(Debug, Clone)]
pub struct AccessToken {
    pub bearer: String,
    pub expiry: u64,
}

impl AccessToken {
    /// A field-by-field copy.
    pub fn duplicate(&self) -> (r: AccessToken)
        ensures
            r == *self,
    {
        AccessToken { bearer: self.bearer.clone(), expiry: self.expiry }
    }
}

impl View for AccessToken {
    type V = AccessTokenV;

    open spec fn view(&self) -> AccessTokenV {
        AccessTokenV { bearer: self.bearer@, expiry: self.expiry as int }
    }
}

/// Latest-value cell for an access token.  Constructed empty at process
/// start; each successful refresh replaces the whole value, and a failed
/// refresh leaves the previous value in place.
#[derive(Debug)]
pub struct TokenCell {
    current: Option<AccessToken>,
}

impl View for TokenCell {
    type V = Option<AccessTokenV>;

    closed spec fn view(&self) -> Option<AccessTokenV> {
        match self.current {
            Some(t) => Some(t@),
            None => None,
        }
    }
}

impl TokenCell {
    /// A cell holding no token yet.
    pub fn new() -> (c: TokenCell)
        ensures
            c@ is None,
    {
        TokenCell { current: None }
    }

    /// Replaces the published token wholesale.
    pub fn publish(&mut self, t: AccessToken)
        ensures
            final(self)@ == Some(t@),
    {
        self.current = Some(t);
    }

    /// A copy of the currently published token, or the explicit absent
    /// state before the first successful acquisition.
    pub fn read(&self) -> (r: Option<AccessToken>)
        ensures
            r is Some <==> self@ is Some,
            r matches Some(t) ==> self@ == Some(t@),
    {
        match &self.current {
            Some(t) => Some(t.duplicate()),
            None => None,
        }
    }
}

} // verus!
