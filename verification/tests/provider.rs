use std::hash::Hasher;

use tame_oauth::Error;
use tame_oauth::HttpResponse;
use tame_oauth::ImpersonatedAccountInfo;
use tame_oauth::ImpersonatedAccountProvider;
use tame_oauth::RequestReason;
use tame_oauth::Token;
use tame_oauth::TokenCache;
use tame_oauth::TokenOrRequest;

fn tok(access: &str) -> Token {
    Token {
        access_token: access.to_string(),
        refresh_token: String::new(),
        token_type: String::new(),
        expires_in_timestamp: None,
        expires_in: None,
    }
}

fn provider(user: &str) -> ImpersonatedAccountProvider {
    ImpersonatedAccountProvider::new(ImpersonatedAccountInfo {
        user_token: tok(user),
        service_account_email: "svc@proj.iam.gserviceaccount.com".to_string(),
    })
}

fn cloud_scopes() -> Vec<String> {
    vec!["https://www.googleapis.com/auth/cloud-platform".to_string()]
}

fn success_response(body: &[u8]) -> HttpResponse {
    HttpResponse {
        status: 200,
        headers: vec![],
        body: body.to_vec(),
    }
}

const NOW: i64 = 1_700_000_000;

#[test]
fn request_layout() {
    let p = provider("U");
    match p.get_token(&cloud_scopes()).unwrap() {
        TokenOrRequest::Request { reason, request, .. } => {
            assert!(matches!(reason, RequestReason::ScopesChanged));
            assert_eq!(request.method, "POST");
            assert_eq!(
                request.uri,
                "https://iamcredentials.googleapis.com/v1/projects/-/serviceAccounts/svc@proj.iam.gserviceaccount.com:generateAccessToken"
            );
            assert_eq!(
                request.body,
                b"{\"scope\":[\"https://www.googleapis.com/auth/cloud-platform\"],\"lifetime\":\"3600s\"}".to_vec()
            );
            let mut auth = None;
            let mut ct = None;
            for (name, value) in &request.headers {
                if name == "authorization" {
                    auth = Some(value.clone());
                }
                if name == "content-type" {
                    ct = Some(value.clone());
                }
            }
            assert_eq!(auth.unwrap(), "Bearer U");
            assert_eq!(ct.unwrap(), "application/json; charset=utf-8");
        }
        TokenOrRequest::Token(_) => unreachable!(),
    }
}

#[test]
fn uri_layout() {
    assert_eq!(
        tame_oauth::impersonate::uri("x@y"),
        "https://iamcredentials.googleapis.com/v1/projects/-/serviceAccounts/x@y:generateAccessToken"
    );
}

#[test]
fn fresh_then_cached() {
    let mut p = provider("U");
    let scopes = cloud_scopes();
    let hash = match p.get_token_with_subject_at(None, &scopes, NOW).unwrap() {
        TokenOrRequest::Request { reason, scope_hash, .. } => {
            assert!(matches!(reason, RequestReason::ScopesChanged));
            scope_hash
        }
        TokenOrRequest::Token(_) => unreachable!(),
    };
    let body = b"{\"accessToken\":\"T\",\"expireTime\":\"2099-01-01T00:00:00Z\"}";
    let t = p.parse_token_response_at(hash, success_response(body), NOW).unwrap();
    assert_eq!(t.access_token, "T");
    assert_eq!(t.refresh_token, "");
    assert_eq!(t.token_type, "");
    assert_eq!(t.expires_in_timestamp, Some(4070908800));
    assert_eq!(t.expires_in, Some(4070908800 - NOW));
    assert!(t.expires_in.unwrap() > 0);
    match p.get_token_with_subject_at(None, &scopes, NOW).unwrap() {
        TokenOrRequest::Token(cached) => {
            assert_eq!(cached.access_token, "T");
            assert_eq!(cached.expires_in_timestamp, Some(4070908800));
        }
        TokenOrRequest::Request { .. } => unreachable!(),
    }
}

#[test]
fn expired_token_clamped_and_reexchanged() {
    let mut p = provider("U");
    let scopes = cloud_scopes();
    let hash = match p.get_token_with_subject_at(None, &scopes, NOW).unwrap() {
        TokenOrRequest::Request { scope_hash, .. } => scope_hash,
        TokenOrRequest::Token(_) => unreachable!(),
    };
    let body = b"{\"accessToken\":\"OLD\",\"expireTime\":\"2000-01-01T00:00:00Z\"}";
    let t = p.parse_token_response_at(hash, success_response(body), NOW).unwrap();
    // The decoded expiry lies in the past: remaining seconds clamp to zero,
    // never negative.
    assert_eq!(t.expires_in_timestamp, Some(946684800));
    assert_eq!(t.expires_in, Some(0));
    match p.get_token_with_subject_at(None, &scopes, NOW).unwrap() {
        TokenOrRequest::Request { reason, scope_hash, .. } => {
            assert!(matches!(reason, RequestReason::Expired));
            assert_eq!(scope_hash, hash);
        }
        TokenOrRequest::Token(_) => unreachable!(),
    }
}

#[test]
fn fingerprint_deterministic() {
    let scopes = vec!["a".to_string(), "b".to_string()];
    let h1 = tame_oauth::fingerprint::fingerprint(&scopes);
    let h2 = tame_oauth::fingerprint::fingerprint(&scopes);
    assert_eq!(h1, h2);
    // The fingerprint is the xxHash of the scope bytes in caller order.
    let mut hasher = twox_hash::XxHash64::default();
    hasher.write(b"a");
    hasher.write(b"b");
    assert_eq!(h1, hasher.finish());
}

#[test]
fn fingerprint_order_sensitive() {
    let ab = vec!["a".to_string(), "b".to_string()];
    let ba = vec!["b".to_string(), "a".to_string()];
    assert_ne!(
        tame_oauth::fingerprint::fingerprint(&ab),
        tame_oauth::fingerprint::fingerprint(&ba)
    );
}

#[test]
fn cache_insertion_keeps_order() {
    let mut c = TokenCache::new();
    let keys: [u64; 20] = [13, 2, 98, 55, 1, 77, 40, 13, 0, 99, 56, 3, 21, 88, 5, 67, 34, 90, 11, 45];
    for (i, k) in keys.iter().enumerate() {
        c.insert_or_replace(*k, tok(&format!("t{}", i)));
        let hs = c.hashes();
        for w in hs.windows(2) {
            assert!(w[0] < w[1]);
        }
    }
    for k in keys.iter() {
        assert!(c.lookup(*k).is_some());
    }
    // The duplicate key received the later token.
    assert_eq!(c.lookup(13).unwrap().access_token, "t7");
    assert!(c.lookup(1000).is_none());
}

#[test]
fn structured_auth_error() {
    let mut p = provider("U");
    let scopes = cloud_scopes();
    let resp = HttpResponse {
        status: 400,
        headers: vec![(
            "Content-Type".to_string(),
            "application/json; charset=utf-8".to_string(),
        )],
        body: b"{\"error\":\"invalid_grant\",\"error_description\":\"user token expired\"}".to_vec(),
    };
    match p.parse_token_response_at(7, resp, NOW) {
        Err(Error::Auth(a)) => {
            assert_eq!(a.error, "invalid_grant");
            assert_eq!(a.error_description, "user token expired");
        }
        _ => unreachable!(),
    }
    // The cache is untouched on the error path.
    match p.get_token_with_subject_at(None, &scopes, NOW).unwrap() {
        TokenOrRequest::Request { reason, .. } => {
            assert!(matches!(reason, RequestReason::ScopesChanged))
        }
        TokenOrRequest::Token(_) => unreachable!(),
    }
}

#[test]
fn status_error_fallbacks() {
    let mut p = provider("U");
    let json_ct = (
        "content-type".to_string(),
        "application/json; charset=utf-8".to_string(),
    );
    // No content type at all.
    let resp = HttpResponse { status: 400, headers: vec![], body: b"{\"error\":\"x\",\"error_description\":\"y\"}".to_vec() };
    assert!(matches!(p.parse_token_response_at(1, resp, NOW), Err(Error::HttpStatus(400))));
    // A non-JSON content type.
    let resp = HttpResponse {
        status: 400,
        headers: vec![("content-type".to_string(), "text/plain".to_string())],
        body: b"{\"error\":\"x\",\"error_description\":\"y\"}".to_vec(),
    };
    assert!(matches!(p.parse_token_response_at(1, resp, NOW), Err(Error::HttpStatus(400))));
    // The exact content type but a body that is not JSON.
    let resp = HttpResponse { status: 400, headers: vec![json_ct.clone()], body: b"gateway exploded".to_vec() };
    assert!(matches!(p.parse_token_response_at(1, resp, NOW), Err(Error::HttpStatus(400))));
    // JSON, but not the structured-auth-error schema.
    let resp = HttpResponse { status: 400, headers: vec![json_ct.clone()], body: b"{\"code\":5}".to_vec() };
    assert!(matches!(p.parse_token_response_at(1, resp, NOW), Err(Error::HttpStatus(400))));
    // JSON with only half the schema.
    let resp = HttpResponse { status: 503, headers: vec![json_ct.clone()], body: b"{\"error\":\"x\"}".to_vec() };
    assert!(matches!(p.parse_token_response_at(1, resp, NOW), Err(Error::HttpStatus(503))));
    // A content type that differs from the declared one only in parameters
    // still falls back to the raw status, as the exact comparison demands.
    let resp = HttpResponse {
        status: 400,
        headers: vec![("content-type".to_string(), "application/json".to_string())],
        body: b"{\"error\":\"x\",\"error_description\":\"y\"}".to_vec(),
    };
    assert!(matches!(p.parse_token_response_at(1, resp, NOW), Err(Error::HttpStatus(400))));
}

#[test]
fn malformed_success_body() {
    let mut p = provider("U");
    let scopes = cloud_scopes();
    assert!(matches!(
        p.parse_token_response_at(1, success_response(b"not json"), NOW),
        Err(Error::Json)
    ));
    assert!(matches!(
        p.parse_token_response_at(1, success_response(b"{\"accessToken\":\"T\"}"), NOW),
        Err(Error::Json)
    ));
    assert!(matches!(
        p.parse_token_response_at(
            1,
            success_response(b"{\"accessToken\":\"T\",\"expireTime\":\"tomorrow\"}"),
            NOW
        ),
        Err(Error::Json)
    ));
    // The cache is untouched on the error path.
    match p.get_token_with_subject_at(None, &scopes, NOW).unwrap() {
        TokenOrRequest::Request { reason, .. } => {
            assert!(matches!(reason, RequestReason::ScopesChanged))
        }
        TokenOrRequest::Token(_) => unreachable!(),
    }
}

#[test]
fn invalid_user_token_header() {
    let p = provider("bad\ntoken");
    assert!(matches!(
        p.get_token_with_subject_at(None, &cloud_scopes(), NOW),
        Err(Error::InvalidHeaderValue)
    ));
}

#[test]
fn last_exchange_wins() {
    let mut p = provider("U");
    let scopes = cloud_scopes();
    let hash = match p.get_token_with_subject_at(None, &scopes, NOW).unwrap() {
        TokenOrRequest::Request { scope_hash, .. } => scope_hash,
        TokenOrRequest::Token(_) => unreachable!(),
    };
    // A second request before any parse still needs the exchange.
    assert!(matches!(
        p.get_token_with_subject_at(None, &scopes, NOW).unwrap(),
        TokenOrRequest::Request { .. }
    ));
    let first = b"{\"accessToken\":\"FIRST\",\"expireTime\":\"2098-01-01T00:00:00Z\"}";
    let second = b"{\"accessToken\":\"SECOND\",\"expireTime\":\"2099-01-01T00:00:00Z\"}";
    p.parse_token_response_at(hash, success_response(first), NOW).unwrap();
    p.parse_token_response_at(hash, success_response(second), NOW).unwrap();
    match p.get_token_with_subject_at(None, &scopes, NOW).unwrap() {
        TokenOrRequest::Token(t) => assert_eq!(t.access_token, "SECOND"),
        TokenOrRequest::Request { .. } => unreachable!(),
    }
}

#[test]
fn body_escaping_matches_json() {
    let scope = "a\"b\\c\nd\u{1}e".to_string();
    let p = provider("U");
    let request = match p.get_token_with_subject_at(None, &vec![scope.clone()], NOW).unwrap() {
        TokenOrRequest::Request { request, .. } => request,
        TokenOrRequest::Token(_) => unreachable!(),
    };
    let escaped = serde_json::to_string(&serde_json::Value::String(scope)).unwrap();
    let expected = format!("{{\"scope\":[{}],\"lifetime\":\"3600s\"}}", escaped);
    assert_eq!(request.body, expected.into_bytes());
}

#[test]
fn empty_scope_set_body() {
    let p = provider("U");
    let request = match p.get_token_with_subject_at(None, &vec![], NOW).unwrap() {
        TokenOrRequest::Request { request, .. } => request,
        TokenOrRequest::Token(_) => unreachable!(),
    };
    assert_eq!(request.body, b"{\"scope\":[],\"lifetime\":\"3600s\"}".to_vec());
}

#[test]
fn delegated_subject_ignored() {
    let p = provider("U");
    let scopes = cloud_scopes();
    let with_subject = p
        .get_token_with_subject_at(Some("someone@example.com".to_string()), &scopes, NOW)
        .unwrap();
    let without = p.get_token_with_subject_at(None, &scopes, NOW).unwrap();
    match (with_subject, without) {
        (
            TokenOrRequest::Request { request: a, scope_hash: ha, .. },
            TokenOrRequest::Request { request: b, scope_hash: hb, .. },
        ) => {
            assert_eq!(ha, hb);
            assert_eq!(a.uri, b.uri);
            assert_eq!(a.body, b.body);
        }
        _ => unreachable!(),
    }
}

#[test]
fn token_without_expiry_never_expires() {
    let t = tok("U");
    assert!(!t.has_expired_at(i64::MAX));
    let t2 = Token {
        expires_in_timestamp: Some(10),
        ..tok("U")
    };
    assert!(!t2.has_expired_at(9));
    assert!(t2.has_expired_at(10));
    assert!(t2.has_expired_at(11));
}

#[test]
fn parse_with_machine_clock() {
    let mut p = provider("U");
    let scopes = cloud_scopes();
    let hash = match p.get_token(&scopes).unwrap() {
        TokenOrRequest::Request { scope_hash, .. } => scope_hash,
        TokenOrRequest::Token(_) => unreachable!(),
    };
    let body = b"{\"accessToken\":\"T\",\"expireTime\":\"2099-01-01T00:00:00Z\"}";
    let t = p.parse_token_response(hash, success_response(body)).unwrap();
    assert_eq!(t.access_token, "T");
    assert!(t.expires_in.unwrap() > 0);
    match p.get_token(&scopes).unwrap() {
        TokenOrRequest::Token(cached) => assert_eq!(cached.access_token, "T"),
        TokenOrRequest::Request { .. } => unreachable!(),
    }
}
