use vstd::prelude::*;

verus! {

/// The mathematical value of a [`Token`]: its string fields as character
/// sequences and its expiry data as unbounded integers.
pub ghost struct TokenView {
    pub access_token: Seq<char>,
    pub refresh_token: Seq<char>,
    pub token_type: Seq<char>,
    pub expires_in_timestamp: Option<int>,
    pub expires_in: Option<int>,
}

/// A bearer credential together with its expiry information. Immutable once
/// built: a newer exchange for the same scope set supersedes the cached
/// value, it never mutates it in place.
#[derive(Debug)]
pub struct Token {
    /// The actual token handed to the remote service.
    pub access_token: String,
    /// Empty when the exchange that produced this token carries no refresh
    /// token, as the impersonation exchange does not.
    pub refresh_token: String,
    /// Empty when the exchange that produced this token does not name a
    /// scheme.
    pub token_type: String,
    /// Absolute expiry as seconds since the Unix epoch; `None` means the
    /// token never expires.
    pub expires_in_timestamp: Option<i64>,
    /// Seconds until expiry at the moment the token was built, clamped to be
    /// non-negative.
    pub expires_in: Option<i64>,
}

impl View for Token {
    type V = TokenView;

    open spec fn view(&self) -> TokenView {
        TokenView {
            access_token: self.access_token@,
            refresh_token: self.refresh_token@,
            token_type: self.token_type@,
            expires_in_timestamp: match self.expires_in_timestamp {
                Some(t) => Some(t as int),
                None => None,
            },
            expires_in: match self.expires_in {
                Some(t) => Some(t as int),
                None => None,
            },
        }
    }
}

/// Whether a token is expired at time `now` (seconds since the Unix epoch).
/// A token without an expiry timestamp never expires.
pub open spec fn token_expired(t: TokenView, now: int) -> bool {
    match t.expires_in_timestamp {
        Some(e) => e <= now,
        None => false,
    }
}

impl Token {
    /// Whether this token is expired at time `now` (seconds since the Unix
    /// epoch). A token with no expiry information is never judged expired.
    pub fn has_expired_at(&self, now: i64) -> (r: bool)
        ensures
            r == token_expired(self@, now as int),
    {
        match self.expires_in_timestamp {
            Some(e) => e <= now,
            None => false,
        }
    }
}

impl Clone for Token {
    fn clone(&self) -> (r: Self)
        ensures
            r@ == self@,
    {
        Token {
            access_token: self.access_token.clone(),
            refresh_token: self.refresh_token.clone(),
            token_type: self.token_type.clone(),
            expires_in_timestamp: self.expires_in_timestamp,
            expires_in: self.expires_in,
        }
    }
}

/// Why a token exchange must go over the network.
#[derive(Debug)]
pub enum RequestReason {
    /// A token for this scope set is cached but expired.
    Expired,
    /// No token for this scope set has been seen before.
    ScopesChanged,
}

} // verus!
