//! Tests for header construction, the auth-assertion header, and query
//! serialization.

use paypal_rs::client::{Client, PaypalEnv};
use paypal_rs::json::Json;
use paypal_rs::request::{auth_assertion_value, setup_headers};
use paypal_rs::{HeaderParams, Query};

fn client_with_token() -> Client {
    let mut client = Client::new(
        "clientid".to_string(),
        "secret".to_string(),
        PaypalEnv::Mock("http://127.0.0.1:1".to_string()),
    );
    let body = Json::Obj(vec![
        ("scope".to_string(), Json::Str("s".to_string())),
        ("access_token".to_string(), Json::Str("TESTBEARERTOKEN".to_string())),
        ("token_type".to_string(), Json::Str("Bearer".to_string())),
        ("app_id".to_string(), Json::Str("APP".to_string())),
        ("expires_in".to_string(), Json::Int(3600)),
        ("nonce".to_string(), Json::Str("n".to_string())),
    ]);
    client.apply_token_response(0, 200, &body).unwrap();
    client
}

#[test]
fn default_headers_have_accept_bearer_and_no_assertion() {
    let client = client_with_token();
    let headers = setup_headers(&client, &HeaderParams::default(), false);
    assert_eq!(
        headers,
        vec![
            ("Accept".to_string(), "application/json".to_string()),
            ("Authorization".to_string(), "Bearer TESTBEARERTOKEN".to_string()),
        ]
    );
    assert!(!headers.iter().any(|(k, _)| k == "PayPal-Auth-Assertion"));
    assert!(!headers.iter().any(|(k, _)| k == "Prefer"));
}

#[test]
fn prefer_header_is_attached_only_when_requested() {
    let client = client_with_token();
    let mut params = HeaderParams::default();
    params.prefer = Some("return=representation".to_string());
    let headers = setup_headers(&client, &params, false);
    assert!(headers.iter().any(|(k, v)| k == "Prefer" && v == "return=representation"));

    let mut params = HeaderParams::default();
    params.prefer = Some("return=minimal".to_string());
    let headers = setup_headers(&client, &params, false);
    assert!(headers.iter().any(|(k, v)| k == "Prefer" && v == "return=minimal"));
}

#[test]
fn headers_without_token_have_no_authorization() {
    let client = Client::new(
        "clientid".to_string(),
        "secret".to_string(),
        PaypalEnv::Sandbox,
    );
    let headers = setup_headers(&client, &HeaderParams::default(), false);
    assert!(!headers.iter().any(|(k, _)| k == "Authorization"));
    assert!(headers.iter().any(|(k, v)| k == "Accept" && v == "application/json"));
}

#[test]
fn body_sets_json_content_type_unless_overridden() {
    let client = client_with_token();
    let headers = setup_headers(&client, &HeaderParams::default(), true);
    assert!(headers.iter().any(|(k, v)| k == "Content-Type" && v == "application/json"));

    let mut params = HeaderParams::default();
    params.content_type = Some("text/plain".to_string());
    let headers = setup_headers(&client, &params, true);
    assert!(headers.iter().any(|(k, v)| k == "Content-Type" && v == "text/plain"));

    let headers = setup_headers(&client, &HeaderParams::default(), false);
    assert!(!headers.iter().any(|(k, _)| k == "Content-Type"));
}

#[test]
fn optional_headers_pass_through() {
    let client = client_with_token();
    let mut params = HeaderParams::default();
    params.client_metadata_id = Some("cmid".to_string());
    params.partner_attribution_id = Some("bn-code".to_string());
    params.request_id = Some("idem-1".to_string());
    let headers = setup_headers(&client, &params, false);
    assert!(headers.iter().any(|(k, v)| k == "PayPal-Client-Metadata-Id" && v == "cmid"));
    assert!(headers.iter().any(|(k, v)| k == "PayPal-Partner-Attribution-Id" && v == "bn-code"));
    assert!(headers.iter().any(|(k, v)| k == "PayPal-Request-Id" && v == "idem-1"));
}

#[test]
fn auth_assertion_is_base64_of_a_signed_token_with_the_claims() {
    let client = client_with_token();
    let mut params = HeaderParams::default();
    params.merchant_payer_id = Some("MERCHANT123".to_string());
    let headers = setup_headers(&client, &params, false);
    let assertion = headers
        .iter()
        .find(|(k, _)| k == "PayPal-Auth-Assertion")
        .map(|(_, v)| v.clone())
        .expect("the auth-assertion header must be present");

    // The header value is base64; inside is a compact token signed with the
    // client secret, whose claims carry the issuer and the payer id.
    let jwt_bytes = base64::decode(&assertion).expect("the header must be base64-decodable");
    let jwt = String::from_utf8(jwt_bytes).unwrap();
    let mut validation = jsonwebtoken::Validation::new(jsonwebtoken::Algorithm::HS256);
    validation.set_required_spec_claims::<&str>(&[]);
    validation.validate_exp = false;
    let decoded = jsonwebtoken::decode::<serde_json::Value>(
        &jwt,
        &jsonwebtoken::DecodingKey::from_secret(b"secret"),
        &validation,
    )
    .expect("the token must verify under the client secret");
    assert_eq!(decoded.claims["iss"], "clientid");
    assert_eq!(decoded.claims["payer_id"], "MERCHANT123");
}

#[test]
fn auth_assertion_value_is_deterministic() {
    let a = auth_assertion_value("iss", "payer", "secret");
    let b = auth_assertion_value("iss", "payer", "secret");
    assert_eq!(a, b);
    assert!(!a.is_empty());
}

#[test]
fn empty_query_serializes_to_empty_string() {
    let q = Query::default();
    assert_eq!(q.to_query_string(), "");
}

#[test]
fn query_fields_serialize_in_order_and_skip_unset() {
    let mut q = Query::default();
    q.count = Some(40);
    q.page = Some(2);
    q.total_count_required = Some(true);
    assert_eq!(q.to_query_string(), "count=40&page=2&total_required=true");

    let mut q = Query::default();
    q.page_size = Some(-7);
    assert_eq!(q.to_query_string(), "page_size=-7");

    let mut q = Query::default();
    q.count = Some(i32::MIN);
    q.start_index = Some(0);
    assert_eq!(q.to_query_string(), "count=-2147483648&start_index=0");
}

#[test]
fn query_string_values_are_percent_encoded() {
    let mut q = Query::default();
    q.sort_by = Some("create time".to_string());
    q.start_id = Some("a+b/c".to_string());
    assert_eq!(q.to_query_string(), "sort_by=create%20time&start_id=a%2Bb%2Fc");
}

#[test]
fn query_time_bounds_pass_through_encoded() {
    let mut q = Query::default();
    q.start_time = Some("2020-01-01T00:00:00Z".to_string());
    assert_eq!(q.to_query_string(), "start_time=2020-01-01T00%3A00%3A00Z");
}
