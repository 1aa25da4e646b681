use vstd::prelude::*;

use vstd::string::StringExecFns;
use vstd::utf8::encode_utf8;

use crate::cache::TokenCache;
use crate::clock::now_epoch;
use crate::clock::parse_rfc3339_epoch;
use crate::clock::rfc3339_secs;
use crate::clock::EPOCH_MIN_SECS;
use crate::clock::RFC3339_MAX_SECS;
use crate::errors::AuthError;
use crate::errors::Error;
use crate::fingerprint::fingerprint;
use crate::fingerprint::fingerprint_of;
use crate::token::token_expired;
use crate::token::RequestReason;
use crate::token::Token;
use crate::token::TokenView;
use crate::transport::check_header_value;
use crate::transport::find_header;
use crate::transport::header_value;
use crate::transport::status_success;
use crate::transport::valid_header_value;
use crate::transport::HttpRequest;
use crate::transport::HttpResponse;
use crate::transport::RequestView;
use crate::transport::ResponseView;
use crate::wire::auth_fields_of;
use crate::wire::build_request_body;
use crate::wire::decode_auth_fields;
use crate::wire::decode_token_fields;
use crate::wire::request_body_bytes;
use crate::wire::token_fields_of;

verus! {

/// What a call for a token yields: either a still-valid cached token, or a
/// fully built exchange request the caller must execute and feed back.
pub enum TokenOrRequest {
    /// The cache held a non-expired token for the requested scope set.
    Token(Token),
    /// A network exchange is needed.
    Request {
        /// Why the exchange is needed.
        reason: RequestReason,
        /// The request to execute, unmodified, with any HTTP client.
        request: HttpRequest,
        /// The scope-set fingerprint; hand it back unchanged to
        /// `parse_token_response` together with the response.
        scope_hash: u64,
    },
}

/// The immutable configuration of one impersonation provider.
pub struct ImpersonatedAccountInfo {
    /// A token for the end user that will be impersonating the service
    /// account.
    pub user_token: Token,
    /// The email address of the service account to impersonate.
    ///
    /// For example, my-test-account@my-test-project.iam.gserviceaccount.com
    pub service_account_email: String,
}

/// A token provider that exchanges a held end-user token for a short-lived
/// token scoped to a target service identity. It performs no I/O: it hands
/// out request descriptions and parses responses the caller obtained.
pub struct ImpersonatedAccountProvider {
    info: ImpersonatedAccountInfo,
    cache: TokenCache,
}

/// The URI path of the exchange endpoint for a service account email.
pub open spec fn uri_chars(email: Seq<char>) -> Seq<char> {
    "https://iamcredentials.googleapis.com/v1/projects/-/serviceAccounts/"@ + email
        + ":generateAccessToken"@
}

/// The exchange endpoint for a service account email.
pub fn uri(email: &str) -> (r: String)
    ensures
        r@ == uri_chars(email@),
{
    let mut s = String::from_str(
        "https://iamcredentials.googleapis.com/v1/projects/-/serviceAccounts/",
    );
    s.append(email);
    s.append(":generateAccessToken");
    s
}

/// The authorization header value spent to authenticate the exchange.
pub open spec fn bearer_chars(user_token: Seq<char>) -> Seq<char> {
    "Bearer "@ + user_token
}

/// The headers of an exchange request.
pub open spec fn request_headers(user_token: Seq<char>) -> Seq<(Seq<char>, Seq<char>)> {
    seq![
        ("content-type"@, "application/json; charset=utf-8"@),
        ("authorization"@, bearer_chars(user_token)),
    ]
}

/// The exchange request built for a scope set: a POST to the exchange
/// endpoint, authorized by the held user token, asking for the scopes with a
/// fixed 3600-second lifetime.
pub open spec fn exchange_request(
    email: Seq<char>,
    user_token: Seq<char>,
    scopes: Seq<Seq<char>>,
) -> RequestView {
    RequestView {
        method: "POST"@,
        uri: uri_chars(email),
        headers: request_headers(user_token),
        body: request_body_bytes(scopes),
    }
}

/// Whether the headers declare the structured-JSON error content type.
pub open spec fn json_content_type(headers: Seq<(Seq<char>, Seq<char>)>) -> bool {
    find_header(headers, encode_utf8("content-type"@)) matches Some(v) && v
        == "application/json; charset=utf-8"@
}

/// Everything a token request decides, as a function of the cache contents,
/// the provider configuration, the requested scopes and the current time.
pub open spec fn get_token_outcome(
    cache: Map<u64, TokenView>,
    email: Seq<char>,
    user_token: Seq<char>,
    scopes: Seq<Seq<char>>,
    now: int,
    r: Result<TokenOrRequest, Error>,
) -> bool {
    let h = fingerprint_of(scopes);
    if cache.contains_key(h) && !token_expired(cache[h], now) {
        r matches Ok(TokenOrRequest::Token(t)) && t@ == cache[h]
    } else if valid_header_value(encode_utf8(bearer_chars(user_token))) {
        r matches Ok(TokenOrRequest::Request { reason, request, scope_hash })
            && scope_hash == h && request@ == exchange_request(email, user_token, scopes) && reason
            == (if cache.contains_key(h) {
            RequestReason::Expired
        } else {
            RequestReason::ScopesChanged
        })
    } else {
        r == Err::<TokenOrRequest, Error>(Error::InvalidHeaderValue)
    }
}

/// Everything a response parse decides, as a function of the cache contents
/// before the call, the fingerprint, the response and the current time:
/// which error a failed exchange surfaces, what token a successful one
/// yields, and how the cache changes (only on success, and then by exactly
/// one insert-or-replace).
pub open spec fn parse_outcome(
    cache0: Map<u64, TokenView>,
    cache1: Map<u64, TokenView>,
    hash: u64,
    resp: ResponseView,
    now: int,
    r: Result<Token, Error>,
) -> bool {
    if !status_success(resp.status) {
        &&& cache1 == cache0
        &&& if json_content_type(resp.headers) {
            match auth_fields_of(resp.body) {
                Some(f) => r matches Err(Error::Auth(a)) && a.error@ == f.0
                    && a.error_description@ == f.1,
                None => r == Err::<Token, Error>(Error::HttpStatus(resp.status)),
            }
        } else {
            r == Err::<Token, Error>(Error::HttpStatus(resp.status))
        }
    } else {
        match token_fields_of(resp.body) {
            None => cache1 == cache0 && r == Err::<Token, Error>(Error::Json),
            Some(f) => match rfc3339_secs(f.1) {
                None => cache1 == cache0 && r == Err::<Token, Error>(Error::Json),
                Some(exp) => {
                    let secs: int = if exp > now {
                        exp - now
                    } else {
                        0
                    };
                    &&& r matches Ok(t)
                    &&& t@.access_token == f.0
                    &&& t@.refresh_token == Seq::<char>::empty()
                    &&& t@.token_type == Seq::<char>::empty()
                    &&& t@.expires_in_timestamp == Some(exp as int)
                    &&& t@.expires_in == Some(secs)
                    &&& cache1 == cache0.insert(hash, t@)
                },
            },
        }
    }
}

impl ImpersonatedAccountProvider {
    /// The service account email this provider impersonates.
    pub closed spec fn email(&self) -> Seq<char> {
        self.info.service_account_email@
    }

    /// The held end-user token spent to authenticate exchanges.
    pub closed spec fn user_token(&self) -> TokenView {
        self.info.user_token@
    }

    /// The cache contents: fingerprint to most recent token.
    pub closed spec fn cache_view(&self) -> Map<u64, TokenView> {
        self.cache@
    }

    /// Validity of the provider: the cache is well-formed.
    pub closed spec fn wf(&self) -> bool {
        self.cache.wf()
    }

    /// A provider for the given configuration, with an empty cache.
    pub fn new(info: ImpersonatedAccountInfo) -> (r: Self)
        ensures
            r.wf(),
            r.cache_view() == Map::<u64, TokenView>::empty(),
            r.email() == info.service_account_email@,
            r.user_token() == info.user_token@,
    {
        ImpersonatedAccountProvider { info, cache: TokenCache::new() }
    }

    /// Decide a token request at the given time: a cached non-expired token
    /// is returned as Already-Valid; otherwise a fully built exchange
    /// request, with the reason (expired entry, or scope set never seen) and
    /// the fingerprint to correlate the response. The cache is not touched.
    ///
    /// The subject parameter exists for providers supporting delegated
    /// subjects; this provider accepts and ignores it, since the
    /// impersonation identity is fixed at construction.
    pub fn get_token_with_subject_at(
        &self,
        _subject: Option<String>,
        scopes: &Vec<String>,
        now: i64,
    ) -> (r: Result<TokenOrRequest, Error>)
        requires
            self.wf(),
        ensures
            get_token_outcome(
                self.cache_view(),
                self.email(),
                self.user_token().access_token,
                scopes.deep_view(),
                now as int,
                r,
            ),
    {
        let h = fingerprint(scopes);
        let mut cached = false;
        match self.cache.lookup(h) {
            Some(t) => {
                if !t.has_expired_at(now) {
                    return Ok(TokenOrRequest::Token(t.clone()));
                }
                cached = true;
            },
            None => {},
        }
        let mut auth = String::from_str("Bearer ");
        auth.append(self.info.user_token.access_token.as_str());
        if !check_header_value(auth.as_str()) {
            return Err(Error::InvalidHeaderValue);
        }
        let reason = if cached {
            RequestReason::Expired
        } else {
            RequestReason::ScopesChanged
        };
        let endpoint = uri(self.info.service_account_email.as_str());
        let body = build_request_body(scopes);
        let mut headers: Vec<(String, String)> = Vec::new();
        headers.push(
            (String::from_str("content-type"), String::from_str("application/json; charset=utf-8")),
        );
        headers.push((String::from_str("authorization"), auth));
        let request = HttpRequest {
            method: String::from_str("POST"),
            uri: endpoint,
            headers,
            body,
        };
        proof {
            assert(request@.headers =~= request_headers(self.user_token().access_token));
            assert(request@ == exchange_request(
                self.email(),
                self.user_token().access_token,
                scopes.deep_view(),
            ));
        }
        Ok(TokenOrRequest::Request { reason, request, scope_hash: h })
    }

    /// As [`Self::get_token_with_subject_at`], at the machine clock's time.
    pub fn get_token_with_subject(&self, subject: Option<String>, scopes: &Vec<String>) -> (r:
        Result<TokenOrRequest, Error>)
        requires
            self.wf(),
        ensures
            exists|now: int|
                get_token_outcome(
                    self.cache_view(),
                    self.email(),
                    self.user_token().access_token,
                    scopes.deep_view(),
                    now,
                    r,
                ),
    {
        let now = now_epoch();
        let r = self.get_token_with_subject_at(subject, scopes, now);
        proof {
            assert(get_token_outcome(
                self.cache_view(),
                self.email(),
                self.user_token().access_token,
                scopes.deep_view(),
                now as int,
                r,
            ));
        }
        r
    }

    /// As [`Self::get_token_with_subject`], with no delegated subject.
    pub fn get_token(&self, scopes: &Vec<String>) -> (r: Result<TokenOrRequest, Error>)
        requires
            self.wf(),
        ensures
            exists|now: int|
                get_token_outcome(
                    self.cache_view(),
                    self.email(),
                    self.user_token().access_token,
                    scopes.deep_view(),
                    now,
                    r,
                ),
    {
        self.get_token_with_subject(None, scopes)
    }

    /// Parse a response to an exchange request previously handed out for
    /// `hash`, at the given time. On a non-success status the structured
    /// auth error is surfaced where the body declares and carries one, the
    /// raw status otherwise, and the cache is untouched. On success the body
    /// must carry the access token and an RFC 3339 expiry; the resulting
    /// token's remaining seconds are clamped to be non-negative, and the
    /// cache binds the fingerprint to the new token, last exchange winning.
    pub fn parse_token_response_at(&mut self, hash: u64, response: HttpResponse, now: i64) -> (r:
        Result<Token, Error>)
        requires
            old(self).wf(),
            EPOCH_MIN_SECS <= now <= RFC3339_MAX_SECS,
        ensures
            final(self).wf(),
            final(self).email() == old(self).email(),
            final(self).user_token() == old(self).user_token(),
            parse_outcome(
                old(self).cache_view(),
                final(self).cache_view(),
                hash,
                response@,
                now as int,
                r,
            ),
            r matches Ok(t) ==> (t@.expires_in matches Some(s) && s >= 0),
    {
        if !(200 <= response.status && response.status < 300) {
            let mut is_json = false;
            match header_value(&response.headers, "content-type") {
                Some(v) => {
                    let ct = String::from_str("application/json; charset=utf-8");
                    if *v == ct {
                        is_json = true;
                    }
                },
                None => {},
            }
            if is_json {
                match decode_auth_fields(response.body.as_slice()) {
                    Some(p) => {
                        return Err(Error::Auth(AuthError { error: p.0, error_description: p.1 }));
                    },
                    None => {},
                }
            }
            return Err(Error::HttpStatus(response.status));
        }
        match decode_token_fields(response.body.as_slice()) {
            None => Err(Error::Json),
            Some(p) => {
                match parse_rfc3339_epoch(p.1.as_str()) {
                    None => Err(Error::Json),
                    Some(exp) => {
                        let expires_in: i64 = if exp > now {
                            exp - now
                        } else {
                            0
                        };
                        let token = Token {
                            access_token: p.0,
                            refresh_token: String::new(),
                            token_type: String::new(),
                            expires_in_timestamp: Some(exp),
                            expires_in: Some(expires_in),
                        };
                        self.cache.insert_or_replace(hash, token.clone());
                        Ok(token)
                    },
                }
            },
        }
    }

    /// As [`Self::parse_token_response_at`], at the machine clock's time.
    pub fn parse_token_response(&mut self, hash: u64, response: HttpResponse) -> (r: Result<
        Token,
        Error,
    >)
        requires
            old(self).wf(),
        ensures
            final(self).wf(),
            final(self).email() == old(self).email(),
            final(self).user_token() == old(self).user_token(),
            exists|now: int|
                parse_outcome(
                    old(self).cache_view(),
                    final(self).cache_view(),
                    hash,
                    response@,
                    now,
                    r,
                ),
            r matches Ok(t) ==> (t@.expires_in matches Some(s) && s >= 0),
    {
        let now = now_epoch();
        let ghost resp = response@;
        let ghost pre = old(self).cache_view();
        let r = self.parse_token_response_at(hash, response, now);
        proof {
            assert(parse_outcome(pre, self.cache_view(), hash, resp, now as int, r));
        }
        r
    }
}

} // verus!
