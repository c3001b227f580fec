//! Tests for the token cache: acquisition, caching and refresh.

use paypal_rs::client::{Client, PaypalEnv};
use paypal_rs::errors::ResponseError;
use paypal_rs::json::Json;

fn token_body(expires_in: i64) -> Json {
    Json::Obj(vec![
        ("scope".to_string(), Json::Str("https://uri.paypal.com/services/invoicing".to_string())),
        ("access_token".to_string(), Json::Str("A21AAFEpH4PsADK7qSS7pSRsgz".to_string())),
        ("token_type".to_string(), Json::Str("Bearer".to_string())),
        ("app_id".to_string(), Json::Str("APP-80W284485P519543T".to_string())),
        ("expires_in".to_string(), Json::Int(expires_in)),
        ("nonce".to_string(), Json::Str("2020-04-03T15:35:36ZaYZlGvEkV4yVSz8g6bAKFoGSEzuy3CQcz3ljhibkOHg".to_string())),
    ])
}

fn make_client() -> Client {
    Client::new(
        "clientid".to_string(),
        "secret".to_string(),
        PaypalEnv::Mock("http://127.0.0.1:1".to_string()),
    )
}

#[test]
fn acquire_plan_requests_once_then_caches() {
    let mut client = make_client();

    // Nothing cached: a request must be made.
    let plan = client.acquire_plan(0).unwrap();
    assert_eq!(plan.url, "http://127.0.0.1:1/v1/oauth2/token");
    assert_eq!(plan.basic_auth_user, "clientid");
    assert_eq!(plan.basic_auth_pass, "secret");
    assert_eq!(plan.content_type, "application/x-www-form-urlencoded");
    assert_eq!(plan.accept, "application/json");
    assert_eq!(plan.body, "grant_type=client_credentials");

    // A successful response with expires_in = 100 is stored.
    let r = client.apply_token_response(0, 200, &token_body(100));
    assert!(r.is_ok());
    let token = client.auth.access_token.clone().unwrap();
    assert_eq!(token.access_token, "A21AAFEpH4PsADK7qSS7pSRsgz");
    assert_eq!(token.expires_in, 100);

    // Before the validity elapses, no network call is planned and the cached
    // token is unchanged.
    assert!(client.acquire_plan(99).is_none());
    assert!(!client.access_token_expired(99));
    assert_eq!(client.auth.access_token.clone().unwrap(), token);
}

#[test]
fn acquire_plan_refreshes_after_expiry() {
    let mut client = make_client();
    client.apply_token_response(0, 200, &token_body(1)).unwrap();
    assert!(!client.access_token_expired(0));

    // Past one second the token is expired: exactly one new request is
    // planned, and a successful response replaces the cached token.
    assert!(client.access_token_expired(1));
    let plan = client.acquire_plan(1);
    assert!(plan.is_some());
    let older = client.auth.access_token.clone().unwrap();
    let fresh = Json::Obj(vec![
        ("scope".to_string(), Json::Str("scope-b".to_string())),
        ("access_token".to_string(), Json::Str("SECOND-TOKEN".to_string())),
        ("token_type".to_string(), Json::Str("Bearer".to_string())),
        ("app_id".to_string(), Json::Str("APP".to_string())),
        ("expires_in".to_string(), Json::Int(3600)),
        ("nonce".to_string(), Json::Str("n2".to_string())),
    ]);
    client.apply_token_response(1, 200, &fresh).unwrap();
    let replaced = client.auth.access_token.clone().unwrap();
    assert_ne!(replaced, older);
    assert_eq!(replaced.access_token, "SECOND-TOKEN");
    assert_eq!(client.auth.expires, Some((1, 3600)));
}

#[test]
fn token_failure_status_yields_api_error() {
    let mut client = make_client();
    let body = Json::Obj(vec![
        ("name".to_string(), Json::Str("UNAUTHORIZED".to_string())),
        ("message".to_string(), Json::Str("bad credentials".to_string())),
        ("details".to_string(), Json::Arr(vec![])),
        ("links".to_string(), Json::Arr(vec![])),
    ]);
    let r = client.apply_token_response(0, 401, &body);
    match r {
        Err(ResponseError::ApiError(e)) => {
            assert_eq!(e.name, "UNAUTHORIZED");
            assert_eq!(e.message.as_deref(), Some("bad credentials"));
        },
        other => panic!("expected an api error, got {:?}", other),
    }
    assert!(client.auth.access_token.is_none());
}

#[test]
fn token_malformed_success_body_yields_decode_error() {
    let mut client = make_client();
    // expires_in is negative: not a valid token body.
    let r = client.apply_token_response(0, 200, &token_body(-5));
    assert!(matches!(r, Err(ResponseError::DecodeError(_))));
    assert!(client.auth.access_token.is_none());

    let not_an_object = Json::Str("hello".to_string());
    let r = client.apply_token_response(0, 200, &not_an_object);
    assert!(matches!(r, Err(ResponseError::DecodeError(_))));
}

#[test]
fn token_malformed_error_body_yields_decode_error() {
    let mut client = make_client();
    let body = Json::Obj(vec![("message".to_string(), Json::Str("no name field".to_string()))]);
    let r = client.apply_token_response(0, 500, &body);
    assert!(matches!(r, Err(ResponseError::DecodeError(_))));
}
