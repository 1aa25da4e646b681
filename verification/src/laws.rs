use vstd::prelude::*;

use vstd::utf8::encode_utf8;

use crate::errors::Error;
use crate::fingerprint::fingerprint_of;
use crate::impersonate::bearer_chars;
use crate::impersonate::exchange_request;
use crate::impersonate::get_token_outcome;
use crate::impersonate::TokenOrRequest;
use crate::token::token_expired;
use crate::token::RequestReason;
use crate::token::TokenView;
use crate::transport::valid_header_value;

verus! {

/// A first request on a fresh provider always needs an exchange: the cache
/// is empty, so for every scope set the outcome is Needs-Exchange with
/// reason ScopesChanged, carrying the scope set's fingerprint and the fully
/// built exchange request (provided the held user token fits in a header
/// value).
pub proof fn lemma_fresh_provider_needs_exchange(
    email: Seq<char>,
    user_token: Seq<char>,
    scopes: Seq<Seq<char>>,
    now: int,
    r: Result<TokenOrRequest, Error>,
)
    requires
        valid_header_value(encode_utf8(bearer_chars(user_token))),
        get_token_outcome(Map::<u64, TokenView>::empty(), email, user_token, scopes, now, r),
    ensures
        r matches Ok(TokenOrRequest::Request { reason, request, scope_hash }) && reason
            == RequestReason::ScopesChanged && scope_hash == fingerprint_of(scopes) && request@
            == exchange_request(email, user_token, scopes),
{
}

/// After a successful parse installs token `t` under the fingerprint of a
/// scope set, a request for the same scope set made while `t` is not yet
/// expired is answered from the cache with exactly `t`, and no exchange
/// request is built.
pub proof fn lemma_request_after_parse_already_valid(
    cache: Map<u64, TokenView>,
    email: Seq<char>,
    user_token: Seq<char>,
    scopes: Seq<Seq<char>>,
    t: TokenView,
    now: int,
    r: Result<TokenOrRequest, Error>,
)
    requires
        !token_expired(t, now),
        get_token_outcome(
            cache.insert(fingerprint_of(scopes), t),
            email,
            user_token,
            scopes,
            now,
            r,
        ),
    ensures
        r matches Ok(TokenOrRequest::Token(tok)) && tok@ == t,
{
}

/// The last exchange wins: whatever token an earlier successful parse stored
/// under a fingerprint, the cache after a later successful parse for the
/// same fingerprint is exactly what it would be had the earlier one never
/// happened, and the fingerprint is bound to the later token. Token requests
/// never change the cache, so this holds regardless of how the two
/// request/parse pairs interleave their request halves.
pub proof fn lemma_last_exchange_wins(
    cache: Map<u64, TokenView>,
    hash: u64,
    first: TokenView,
    second: TokenView,
)
    ensures
        cache.insert(hash, first).insert(hash, second) == cache.insert(hash, second),
        cache.insert(hash, second)[hash] == second,
{
    assert(cache.insert(hash, first).insert(hash, second) =~= cache.insert(hash, second));
}

} // verus!
