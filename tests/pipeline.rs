use api_client::auth::{resolve_auth, AuthConstraint, Credential, DelegatedToken, Resolved};
use api_client::cache::ResponseCache;
use api_client::error::ApiError;
use api_client::executor::{Client, Incoming, MediaType, Method, Outgoing, Reply, Step};
use api_client::payload::{decode, payload_from, Payload};
use api_client::rate::{classify_failure, read_rate_state, RateState};

const HOST: &str = "https://api.example.com";

fn client(credential: Option<Credential>, cache: ResponseCache) -> Client {
    Client::custom(HOST.to_string(), "pipeline-tests".to_string(), credential, cache)
}

fn header<'a>(out: &'a Outgoing, name: &str) -> Option<&'a str> {
    out.headers.iter().find(|(n, _)| n == name).map(|(_, v)| v.as_str())
}

fn send(step: Result<Step, ApiError>) -> Outgoing {
    match step {
        Ok(Step::Send(out)) => out,
        other => panic!("expected a request to send, got {:?}", other),
    }
}

fn response(status: u16, body: &[u8]) -> Incoming {
    Incoming {
        status,
        link: None,
        validator: None,
        remaining: None,
        reset: None,
        body: body.to_vec(),
    }
}

#[test]
fn first_get_is_decoded_and_cached() {
    let mut c = client(None, ResponseCache::in_memory());
    let uri = c.url_for("/items");
    let out = send(c.prepare(Method::Get, &uri, None, &MediaType::Json, AuthConstraint::Unconstrained));
    assert_eq!(out.url, "https://api.example.com/items");
    assert_eq!(header(&out, "If-None-Match"), None);
    assert_eq!(header(&out, "User-Agent"), Some("pipeline-tests"));
    assert_eq!(header(&out, "Accept"), Some("application/json"));
    assert_eq!(header(&out, "Authorization"), None);

    let mut resp = response(200, b"[{\"id\":1}]");
    resp.validator = Some("\"abc\"".to_string());
    resp.link = Some("</items?page=2>; rel=\"next\"".to_string());
    let reply = c.finish(Method::Get, &uri, resp, 1_000).unwrap();
    assert_eq!(
        reply,
        Reply {
            continuation: Some("/items?page=2".to_string()),
            payload: Payload::Json(b"[{\"id\":1}]".to_vec()),
        }
    );
    assert_eq!(c.cache.lookup_body(&uri), Some(b"[{\"id\":1}]".to_vec()));
    assert_eq!(c.cache.lookup_validator(&uri), Some("\"abc\"".to_string()));
    assert_eq!(c.cache.lookup_continuation(&uri), Some("/items?page=2".to_string()));
}

#[test]
fn cache_entry_is_keyed_by_the_request_uri() {
    let mut c = client(None, ResponseCache::in_memory());
    let mut resp = response(200, b"[{\"id\":1}]");
    resp.validator = Some("\"abc\"".to_string());
    resp.link = Some("</items?page=2>; rel=\"next\"".to_string());
    c.finish(Method::Get, "/items", resp, 0).unwrap();
    assert_eq!(c.cache.lookup_validator("/items"), Some("\"abc\"".to_string()));
    assert_eq!(c.cache.lookup_body("/items"), Some(b"[{\"id\":1}]".to_vec()));
    assert_eq!(c.cache.lookup_continuation("/items"), Some("/items?page=2".to_string()));
    assert_eq!(c.cache.lookup_validator("/other"), None);
}

#[test]
fn not_modified_returns_the_cached_value() {
    let mut c = client(None, ResponseCache::in_memory());
    let uri = c.url_for("/items");
    let mut first = response(200, b"[{\"id\":1}]");
    first.validator = Some("\"abc\"".to_string());
    first.link = Some("</items?page=2>; rel=\"next\"".to_string());
    let first_reply = c.finish(Method::Get, &uri, first, 10).unwrap();

    let out = send(c.prepare(Method::Get, &uri, None, &MediaType::Json, AuthConstraint::Unconstrained));
    assert_eq!(header(&out, "If-None-Match"), Some("\"abc\""));
    let second_reply = c.finish(Method::Get, &uri, response(304, b""), 20).unwrap();
    assert_eq!(second_reply, first_reply);
    assert_eq!(second_reply.payload, Payload::Json(b"[{\"id\":1}]".to_vec()));
    assert_eq!(second_reply.continuation, Some("/items?page=2".to_string()));
}

#[test]
fn not_modified_prefers_a_fresh_link_header() {
    let mut c = client(None, ResponseCache::in_memory());
    let mut first = response(200, b"[1]");
    first.validator = Some("v1".to_string());
    first.link = Some("</page-b>; rel=\"next\"".to_string());
    c.finish(Method::Get, "/list", first, 0).unwrap();
    let mut second = response(304, b"");
    second.link = Some("</page-c>; rel=\"next\"".to_string());
    let reply = c.finish(Method::Get, "/list", second, 0).unwrap();
    assert_eq!(reply.continuation, Some("/page-c".to_string()));
    assert_eq!(reply.payload, Payload::Json(b"[1]".to_vec()));
}

#[test]
fn validator_is_replaced_by_a_later_response() {
    let mut c = client(None, ResponseCache::in_memory());
    let mut first = response(200, b"[1]");
    first.validator = Some("v1".to_string());
    c.finish(Method::Get, "/list", first, 0).unwrap();
    let mut second = response(200, b"[2]");
    second.validator = Some("v2".to_string());
    c.finish(Method::Get, "/list", second, 0).unwrap();
    assert_eq!(c.cache.lookup_validator("/list"), Some("v2".to_string()));
    assert_eq!(c.cache.lookup_body("/list"), Some(b"[2]".to_vec()));
    assert_eq!(c.cache.lookup_continuation("/list"), None);
}

#[test]
fn non_get_responses_are_not_cached() {
    let mut c = client(None, ResponseCache::in_memory());
    let mut resp = response(201, b"{}");
    resp.validator = Some("v".to_string());
    c.finish(Method::Post, "/items", resp, 0).unwrap();
    assert_eq!(c.cache.lookup_validator("/items"), None);
    let out = send(c.prepare(
        Method::Get,
        "https://api.example.com/items",
        None,
        &MediaType::Json,
        AuthConstraint::Unconstrained,
    ));
    assert_eq!(header(&out, "If-None-Match"), None);
}

#[test]
fn disabled_cache_behaves_as_uncached() {
    let mut c = client(None, ResponseCache::disabled());
    let mut resp = response(200, b"[1]");
    resp.validator = Some("v".to_string());
    c.finish(Method::Get, "https://api.example.com/items", resp, 0).unwrap();
    let out = send(c.prepare(
        Method::Get,
        "https://api.example.com/items",
        None,
        &MediaType::Json,
        AuthConstraint::Unconstrained,
    ));
    assert_eq!(header(&out, "If-None-Match"), None);
    assert_eq!(
        c.finish(Method::Get, "https://api.example.com/items", response(304, b""), 0),
        Err(ApiError::CacheUnreachable)
    );
}

#[test]
fn not_modified_without_entry_is_cache_unreachable() {
    let mut c = client(None, ResponseCache::in_memory());
    assert_eq!(c.finish(Method::Get, "/x", response(304, b""), 0), Err(ApiError::CacheUnreachable));
}

#[test]
fn delegated_token_is_refreshed_then_used() {
    let cred = Credential::DelegatedAccessToken(DelegatedToken {
        installation_id: 42,
        assertion: "signed.jwt".to_string(),
        token: None,
    });
    let mut c = client(Some(cred), ResponseCache::disabled());
    let uri = c.url_for("/items");
    let refresh = match c.prepare(Method::Get, &uri, None, &MediaType::Json, AuthConstraint::Unconstrained) {
        Ok(Step::Refresh(out)) => out,
        other => panic!("expected a token request, got {:?}", other),
    };
    assert_eq!(refresh.method, Method::Post);
    assert_eq!(refresh.url, "https://api.example.com/app/installations/42/access_tokens");
    assert_eq!(header(&refresh, "Authorization"), Some("Bearer signed.jwt"));
    assert_eq!(
        refresh.body,
        Some(b"{\"permissions\":{},\"repositories\":[],\"repository_ids\":[]}".to_vec())
    );

    assert_eq!(c.complete_refresh(201, Some("new-value".to_string())), Ok(()));
    let out = send(c.prepare(Method::Get, &uri, None, &MediaType::Json, AuthConstraint::Unconstrained));
    assert_eq!(header(&out, "Authorization"), Some("token new-value"));
    match &c.credential {
        Some(Credential::DelegatedAccessToken(d)) => assert_eq!(d.token, Some("new-value".to_string())),
        other => panic!("credential changed kind: {:?}", other),
    }
}

#[test]
fn assertion_only_call_with_delegated_token_refreshes() {
    let cred = Credential::DelegatedAccessToken(DelegatedToken {
        installation_id: 42,
        assertion: "signed.jwt".to_string(),
        token: None,
    });
    let mut c = client(Some(cred), ResponseCache::disabled());
    let uri = c.url_for("/users/<id>");
    let refresh = match c.prepare(Method::Get, &uri, None, &MediaType::Json, AuthConstraint::AssertionOnly) {
        Ok(Step::Refresh(out)) => out,
        other => panic!("expected a token request, got {:?}", other),
    };
    assert_eq!(refresh.url, "https://api.example.com/app/installations/42/access_tokens");
    assert_eq!(header(&refresh, "Authorization"), Some("Bearer signed.jwt"));
    assert_eq!(
        refresh.body,
        Some(b"{\"permissions\":{},\"repositories\":[],\"repository_ids\":[]}".to_vec())
    );
    assert_eq!(c.complete_refresh(200, Some("new-value".to_string())), Ok(()));
    let out = send(c.prepare(Method::Get, &uri, None, &MediaType::Json, AuthConstraint::AssertionOnly));
    assert_eq!(out.url, "https://api.example.com/users/%3Cid%3E");
    assert_eq!(header(&out, "Authorization"), Some("token new-value"));
    match &c.credential {
        Some(Credential::DelegatedAccessToken(d)) => {
            assert_eq!(d.installation_id, 42);
            assert_eq!(d.assertion, "signed.jwt");
            assert_eq!(d.token, Some("new-value".to_string()));
        }
        other => panic!("credential changed kind: {:?}", other),
    }
}

#[test]
fn failed_refresh_is_reported_and_changes_nothing() {
    let cred = Credential::DelegatedAccessToken(DelegatedToken {
        installation_id: 1,
        assertion: "a".to_string(),
        token: None,
    });
    let mut c = client(Some(cred.clone()), ResponseCache::disabled());
    assert_eq!(c.complete_refresh(500, Some("x".to_string())), Err(ApiError::TokenRefreshFailed));
    assert_eq!(c.complete_refresh(200, None), Err(ApiError::TokenRefreshFailed));
    assert_eq!(c.credential, Some(cred));
}

#[test]
fn rate_limited_reports_seconds_until_reset() {
    let mut c = client(None, ResponseCache::in_memory());
    let now = 1_700_000_000u64;
    let mut resp = response(403, b"{\"message\":\"API rate limit exceeded\"}");
    resp.remaining = Some("0".to_string());
    resp.reset = Some((now + 120).to_string());
    let err = c.finish(Method::Get, "https://api.example.com/items", resp, now).unwrap_err();
    assert_eq!(err, ApiError::RateLimited { reset_in: 120 });
    assert_eq!(err.message(), "rate limit exceeded, will reset in 120 seconds");
}

#[test]
fn rate_limit_reset_in_the_past_gives_zero() {
    let rate = RateState { remaining: Some(0), reset: Some(100) };
    assert_eq!(classify_failure(429, rate, Vec::new(), 160), ApiError::RateLimited { reset_in: 0 });
}

#[test]
fn rate_headers_are_read_as_numbers() {
    let rate = read_rate_state(&Some("0".to_string()), &Some("+1700000120".to_string()));
    assert_eq!(rate, RateState { remaining: Some(0), reset: Some(1_700_000_120) });
    let rate = read_rate_state(&Some("many".to_string()), &None);
    assert_eq!(rate, RateState { remaining: None, reset: None });
}

#[test]
fn other_failures_carry_status_and_body() {
    let mut c = client(None, ResponseCache::in_memory());
    let mut resp = response(404, b"missing");
    resp.remaining = Some("12".to_string());
    resp.reset = Some("99".to_string());
    let err = c.finish(Method::Get, "/x", resp, 0).unwrap_err();
    assert_eq!(err, ApiError::RequestFailed { status: 404, body: b"missing".to_vec() });
    assert_eq!(err.message(), "code: 404, error: \"missing\"");
    let err = c.finish(Method::Delete, "/x", response(500, b""), 0).unwrap_err();
    assert_eq!(err.message(), "code: 500, empty response");
}

#[test]
fn zero_remaining_without_reset_is_a_plain_failure() {
    let mut c = client(None, ResponseCache::in_memory());
    let mut resp = response(400, b"bad");
    resp.remaining = Some("0".to_string());
    let err = c.finish(Method::Get, "/x", resp, 0).unwrap_err();
    assert_eq!(err, ApiError::RequestFailed { status: 400, body: b"bad".to_vec() });
}

#[test]
fn no_content_decodes_to_absent() {
    let mut c = client(None, ResponseCache::in_memory());
    let reply = c.finish(Method::Delete, "/x", response(204, b"not json at all"), 0).unwrap();
    assert_eq!(reply.payload, Payload::Absent);
    assert_eq!(decode(204, b"{".to_vec()), Ok(Payload::Absent));
    assert_eq!(payload_from(204, b"{".to_vec(), false), Ok(Payload::Absent));
}

#[test]
fn malformed_body_is_a_decode_failure() {
    let mut c = client(None, ResponseCache::in_memory());
    assert_eq!(c.finish(Method::Get, "/x", response(200, b"{\"id\":"), 0), Err(ApiError::DecodeFailed));
    assert_eq!(decode(200, b"".to_vec()), Err(ApiError::DecodeFailed));
    assert_eq!(decode(200, b"null".to_vec()), Ok(Payload::Json(b"null".to_vec())));
    assert_eq!(payload_from(200, b"x".to_vec(), false), Err(ApiError::DecodeFailed));
    assert_eq!(payload_from(200, b"x".to_vec(), true), Ok(Payload::Json(b"x".to_vec())));
}

#[test]
fn invalid_address_is_rejected() {
    let c = client(None, ResponseCache::in_memory());
    assert_eq!(
        c.prepare(Method::Get, "not a url", None, &MediaType::Json, AuthConstraint::Unconstrained),
        Err(ApiError::InvalidUrl)
    );
}

#[test]
fn address_is_normalized_by_the_parser() {
    let c = client(None, ResponseCache::in_memory());
    let out = send(c.prepare(
        Method::Get,
        "HTTPS://API.example.com",
        None,
        &MediaType::Json,
        AuthConstraint::Unconstrained,
    ));
    assert_eq!(out.url, "https://api.example.com/");
}

#[test]
fn key_pair_goes_into_the_query() {
    let cred = Credential::BasicKeyPair { client_id: "id".to_string(), client_secret: "secret".to_string() };
    let c = client(Some(cred), ResponseCache::in_memory());
    let out = send(c.prepare(
        Method::Post,
        "https://api.example.com/things",
        Some(b"{\"a\":1}".to_vec()),
        &MediaType::Custom("application/vnd.example+json".to_string()),
        AuthConstraint::Unconstrained,
    ));
    assert_eq!(
        out.query,
        vec![
            ("client_id".to_string(), "id".to_string()),
            ("client_secret".to_string(), "secret".to_string())
        ]
    );
    assert_eq!(header(&out, "Authorization"), None);
    assert_eq!(header(&out, "Accept"), Some("application/vnd.example+json"));
    assert_eq!(out.body, Some(b"{\"a\":1}".to_vec()));
}

#[test]
fn token_and_assertion_headers() {
    let c = client(Some(Credential::BearerToken("t0k".to_string())), ResponseCache::in_memory());
    let out = send(c.prepare(Method::Get, HOST, None, &MediaType::Json, AuthConstraint::Unconstrained));
    assert_eq!(header(&out, "Authorization"), Some("token t0k"));
    let c = client(Some(Credential::SignedAssertion("jwt".to_string())), ResponseCache::in_memory());
    let out = send(c.prepare(Method::Get, HOST, None, &MediaType::Json, AuthConstraint::AssertionOnly));
    assert_eq!(header(&out, "Authorization"), Some("Bearer jwt"));
}

#[test]
fn assertion_only_refuses_other_credentials() {
    let c = client(Some(Credential::BearerToken("t".to_string())), ResponseCache::in_memory());
    assert_eq!(
        c.prepare(Method::Get, HOST, None, &MediaType::Json, AuthConstraint::AssertionOnly),
        Err(ApiError::AuthUnavailable)
    );
    let pair = Some(Credential::BasicKeyPair { client_id: "i".to_string(), client_secret: "s".to_string() });
    assert_eq!(resolve_auth(AuthConstraint::AssertionOnly, &pair), Err(ApiError::AuthUnavailable));
    assert_eq!(resolve_auth(AuthConstraint::AssertionOnly, &None), Ok(Resolved::Anonymous));
}

#[test]
fn credentials_can_be_replaced() {
    let mut c = client(None, ResponseCache::in_memory());
    c.set_credentials(Some(Credential::BearerToken("later".to_string())));
    let out = send(c.prepare(Method::Get, HOST, None, &MediaType::Json, AuthConstraint::Unconstrained));
    assert_eq!(header(&out, "Authorization"), Some("token later"));
}

#[test]
fn request_is_assembled_from_resolved_auth() {
    let mut c = client(None, ResponseCache::in_memory());
    let mut resp = response(200, b"{}");
    resp.validator = Some("W/\"1\"".to_string());
    c.finish(Method::Get, "/thing", resp, 0).unwrap();
    let out = c.request_to(
        Method::Get,
        "/thing",
        "https://api.example.com/thing".to_string(),
        Resolved::Header("token z".to_string()),
        None,
        &MediaType::Json,
    );
    assert_eq!(
        out.headers,
        vec![
            ("If-None-Match".to_string(), "W/\"1\"".to_string()),
            ("User-Agent".to_string(), "pipeline-tests".to_string()),
            ("Accept".to_string(), "application/json".to_string()),
            ("Authorization".to_string(), "token z".to_string()),
        ]
    );
    assert!(out.query.is_empty());
    let put = c.request_to(
        Method::Put,
        "/thing",
        "https://api.example.com/thing".to_string(),
        Resolved::Anonymous,
        Some(b"[]".to_vec()),
        &MediaType::Json,
    );
    assert_eq!(put.headers.len(), 2);
    assert_eq!(put.body, Some(b"[]".to_vec()));
}

#[test]
fn failure_message_quotes_the_body() {
    let err = ApiError::RequestFailed { status: 422, body: b"bad \"x\"\n\xff".to_vec() };
    assert_eq!(err.message(), "code: 422, error: \"bad \\\"x\\\"\\n\u{fffd}\"");
}

#[test]
fn no_content_with_validator_round_trips_as_absent() {
    let mut c = client(None, ResponseCache::in_memory());
    let mut first = response(204, b"");
    first.validator = Some("v".to_string());
    let first_reply = c.finish(Method::Get, "/empty", first, 0).unwrap();
    assert_eq!(first_reply.payload, Payload::Absent);
    let second_reply = c.finish(Method::Get, "/empty", response(304, b""), 0).unwrap();
    assert_eq!(second_reply, first_reply);
    assert_eq!(c.cache.lookup_body("/empty"), Some(Vec::new()));
}

#[test]
fn empty_body_without_no_content_fails_to_decode() {
    assert_eq!(decode(200, Vec::new()), Err(ApiError::DecodeFailed));
    assert_eq!(payload_from(200, Vec::new(), true), Err(ApiError::DecodeFailed));
    assert_eq!(api_client::payload::decode_cached(Vec::new()), Ok(Payload::Absent));
    assert_eq!(api_client::payload::decode_cached(b"[1]".to_vec()), Ok(Payload::Json(b"[1]".to_vec())));
    assert_eq!(api_client::payload::decode_cached(b"[1".to_vec()), Err(ApiError::DecodeFailed));
}
