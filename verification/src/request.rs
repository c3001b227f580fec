//! Request construction: success classification, the signed auth-assertion
//! header, and the standard header set attached to every dispatched call.

use vstd::prelude::*;

verus! {

use vstd::string::StringExecFns;
use vstd::string::StringSliceAdditionalSpecFns;
use vstd::utf8::encode_utf8;
use crate::client::{AccessToken, Client};
use crate::endpoint::{Endpoint, Method};
use crate::errors::{PaypalError, ResponseError};
use crate::json::{FromJson, Json};
use crate::opt_seg;
use crate::HeaderParams;

/// True for the HTTP success status range.
pub open spec fn spec_status_success(status: u16) -> bool {
    200 <= status < 300
}

/// Classifies an HTTP status as success (2xx) or not.
pub fn status_is_success(status: u16) -> (r: bool)
    ensures
        r == spec_status_success(status),
{
    200 <= status && status < 300
}

/// What `jsonwebtoken::encode` returns for an HS256 header and the claims
/// object `{"iss": iss, "payer_id": payer_id}` signed with `secret`: a
/// function of those three arguments alone.
pub uninterp spec fn auth_assertion_jwt(
    iss: Seq<char>,
    payer_id: Seq<char>,
    secret: Seq<char>,
) -> Seq<char>;

/// Relies on jsonwebtoken::encode with Algorithm::HS256 and
/// EncodingKey::from_secret: the key family always matches the algorithm,
/// serializing the fixed header and these string claims cannot fail, and HMAC
/// signing always returns a signature, so a token is always produced; it
/// depends on the issuer, payer id and secret alone.
#[verifier::external_body]
fn jwt_sign_auth_assertion(iss: &str, payer_id: &str, secret: &str) -> (r: Option<String>)
    ensures
        r is Some,
        r matches Some(s) ==> s@ == auth_assertion_jwt(iss@, payer_id@, secret@),
{
    let mut claims = serde_json::Map::new();
    claims.insert("iss".to_string(), serde_json::Value::String(iss.to_string()));
    claims.insert("payer_id".to_string(), serde_json::Value::String(payer_id.to_string()));
    let header = jsonwebtoken::Header::new(jsonwebtoken::Algorithm::HS256);
    let key = jsonwebtoken::EncodingKey::from_secret(secret.as_bytes());
    jsonwebtoken::encode(&header, &serde_json::Value::Object(claims), &key).ok()
}

/// What `base64::encode` returns: the standard-alphabet, padded base64
/// encoding of the input bytes, a function of the bytes alone.
pub uninterp spec fn base64_chars_of(bytes: Seq<u8>) -> Seq<char>;

/// Relies on base64::encode: standard alphabet with padding, depending on the
/// input bytes alone.
#[verifier::external_body]
fn base64_encode(s: &str) -> (r: String)
    ensures
        r@ == base64_chars_of(s.spec_bytes()),
{
    base64::encode(s)
}

/// The auth-assertion header value: the base64 encoding of the signed
/// compact token for the claims `{issuer, payer_id}`.
pub open spec fn spec_auth_assertion(
    iss: Seq<char>,
    payer_id: Seq<char>,
    secret: Seq<char>,
) -> Seq<char> {
    base64_chars_of(encode_utf8(auth_assertion_jwt(iss, payer_id, secret)))
}

/// Builds the signed auth-assertion header value for a merchant payer: a
/// fixed-algorithm compact token over `{issuer, payer_id}`, base64-encoded.
pub fn auth_assertion_value(iss: &str, payer_id: &str, secret: &str) -> (r: String)
    ensures
        r@ == spec_auth_assertion(iss@, payer_id@, secret@),
{
    match jwt_sign_auth_assertion(iss, payer_id, secret) {
        Some(token) => base64_encode(token.as_str()),
        None => {
            proof {
                assert(false);
            }
            String::new()
        },
    }
}

/// The views of a list of owned header pairs.
pub open spec fn spec_header_views(hs: Seq<(String, String)>) -> Seq<(Seq<char>, Seq<char>)> {
    Seq::new(hs.len(), |k: int| (hs[k].0@, hs[k].1@))
}

/// Taking views commutes with concatenation of header lists.
pub proof fn lemma_header_views_concat(a: Seq<(String, String)>, b: Seq<(String, String)>)
    ensures
        spec_header_views(a + b) == spec_header_views(a) + spec_header_views(b),
{
    assert(spec_header_views(a + b) =~= spec_header_views(a) + spec_header_views(b));
}

/// The Authorization segment: a bearer header when a token is cached.
pub open spec fn seg_authorization(c: Client) -> Seq<(Seq<char>, Seq<char>)> {
    match c.auth.access_token {
        Some(t) => seq![("Authorization"@, "Bearer "@ + t.access_token@)],
        None => Seq::empty(),
    }
}

/// The auth-assertion segment: present exactly when a merchant payer id is
/// supplied.
pub open spec fn seg_auth_assertion(c: Client, hp: HeaderParams) -> Seq<(Seq<char>, Seq<char>)> {
    match hp.merchant_payer_id {
        Some(p) => seq![
            (
                "PayPal-Auth-Assertion"@,
                spec_auth_assertion(c.auth.client_id@, p@, c.auth.secret@),
            ),
        ],
        None => Seq::empty(),
    }
}

/// The Content-Type segment: the override when given, otherwise
/// `application/json` exactly when the call carries a body.
pub open spec fn seg_content_type(hp: HeaderParams, has_body: bool) -> Seq<
    (Seq<char>, Seq<char>),
> {
    match hp.content_type {
        Some(ct) => seq![("Content-Type"@, ct@)],
        None => if has_body {
            seq![("Content-Type"@, "application/json"@)]
        } else {
            Seq::empty()
        },
    }
}

/// The view of one optional plain header.
pub open spec fn spec_opt_view(v: Option<String>) -> Option<Seq<char>> {
    match v {
        Some(s) => Some(s@),
        None => None,
    }
}

/// The headers attached to a dispatched request, in order: Accept; the
/// bearer Authorization when a token is cached; then, as far as the header
/// parameters supply them, the auth assertion, client metadata id, partner
/// attribution id, request id and preferred representation; and the content
/// type when a body is carried or an override is given.
pub open spec fn spec_headers(c: Client, hp: HeaderParams, has_body: bool) -> Seq<
    (Seq<char>, Seq<char>),
> {
    seq![("Accept"@, "application/json"@)] + seg_authorization(c) + seg_auth_assertion(c, hp)
        + opt_seg("PayPal-Client-Metadata-Id"@, spec_opt_view(hp.client_metadata_id)) + opt_seg(
        "PayPal-Partner-Attribution-Id"@,
        spec_opt_view(hp.partner_attribution_id),
    ) + opt_seg("PayPal-Request-Id"@, spec_opt_view(hp.request_id)) + opt_seg(
        "Prefer"@,
        spec_opt_view(hp.prefer),
    ) + seg_content_type(hp, has_body)
}

/// The segment of one optional plain header.
fn seg_opt(key: &str, v: &Option<String>) -> (r: Vec<(String, String)>)
    ensures
        spec_header_views(r@) == opt_seg(key@, spec_opt_view(*v)),
{
    match v {
        Some(s) => {
            let mut r: Vec<(String, String)> = Vec::new();
            r.push((String::from_str(key), s.clone()));
            proof {
                assert(spec_header_views(r@) =~= seq![(key@, s@)]);
            }
            r
        },
        None => {
            let r: Vec<(String, String)> = Vec::new();
            proof {
                assert(spec_header_views(r@) =~= Seq::<(Seq<char>, Seq<char>)>::empty());
            }
            r
        },
    }
}

/// The segment of one constant header.
fn seg_const(key: &str, value: &str) -> (r: Vec<(String, String)>)
    ensures
        spec_header_views(r@) == seq![(key@, value@)],
{
    let mut r: Vec<(String, String)> = Vec::new();
    r.push((String::from_str(key), String::from_str(value)));
    proof {
        assert(spec_header_views(r@) =~= seq![(key@, value@)]);
    }
    r
}

/// Sets up the request headers, exactly as [`spec_headers`] says.
pub fn setup_headers(client: &Client, header_params: &HeaderParams, has_body: bool) -> (r: Vec<
    (String, String),
>)
    ensures
        spec_header_views(r@) == spec_headers(*client, *header_params, has_body),
{
    let mut hs = seg_const("Accept", "application/json");
    proof {
        assert(spec_header_views(hs@) == seq![("Accept"@, "application/json"@)]);
    }
    let ghost g1 = hs@;
    let mut s2: Vec<(String, String)> = match &client.auth.access_token {
        Some(t) => {
            let mut v: Vec<(String, String)> = Vec::new();
            let bearer = String::from_str("Bearer ").concat(t.access_token.as_str());
            v.push((String::from_str("Authorization"), bearer));
            proof {
                assert(spec_header_views(v@) =~= seg_authorization(*client));
            }
            v
        },
        None => {
            let v: Vec<(String, String)> = Vec::new();
            proof {
                assert(spec_header_views(v@) =~= seg_authorization(*client));
            }
            v
        },
    };
    let ghost h2 = s2@;
    hs.append(&mut s2);
    proof {
        lemma_header_views_concat(g1, h2);
        assert(spec_header_views(hs@) == seq![("Accept"@, "application/json"@)]
            + seg_authorization(*client));
    }
    let ghost g2 = hs@;
    let mut s3: Vec<(String, String)> = match &header_params.merchant_payer_id {
        Some(p) => {
            let mut v: Vec<(String, String)> = Vec::new();
            let assertion = auth_assertion_value(
                client.auth.client_id.as_str(),
                p.as_str(),
                client.auth.secret.as_str(),
            );
            v.push((String::from_str("PayPal-Auth-Assertion"), assertion));
            proof {
                assert(spec_header_views(v@) =~= seg_auth_assertion(*client, *header_params));
            }
            v
        },
        None => {
            let v: Vec<(String, String)> = Vec::new();
            proof {
                assert(spec_header_views(v@) =~= seg_auth_assertion(*client, *header_params));
            }
            v
        },
    };
    let ghost h3 = s3@;
    hs.append(&mut s3);
    proof {
        lemma_header_views_concat(g2, h3);
        assert(spec_header_views(hs@) == seq![("Accept"@, "application/json"@)]
            + seg_authorization(*client) + seg_auth_assertion(*client, *header_params));
    }
    let ghost g3 = hs@;
    let mut s4 = seg_opt("PayPal-Client-Metadata-Id", &header_params.client_metadata_id);
    let ghost h4 = s4@;
    hs.append(&mut s4);
    proof {
        lemma_header_views_concat(g3, h4);
    }
    let ghost g4 = hs@;
    let mut s5 = seg_opt("PayPal-Partner-Attribution-Id", &header_params.partner_attribution_id);
    let ghost h5 = s5@;
    hs.append(&mut s5);
    proof {
        lemma_header_views_concat(g4, h5);
    }
    let ghost g5 = hs@;
    let mut s6 = seg_opt("PayPal-Request-Id", &header_params.request_id);
    let ghost h6 = s6@;
    hs.append(&mut s6);
    proof {
        lemma_header_views_concat(g5, h6);
    }
    let ghost g6 = hs@;
    let mut s7 = seg_opt("Prefer", &header_params.prefer);
    let ghost h7 = s7@;
    hs.append(&mut s7);
    proof {
        lemma_header_views_concat(g6, h7);
    }
    let ghost g7 = hs@;
    let mut s8: Vec<(String, String)> = match &header_params.content_type {
        Some(ct) => {
            let mut v: Vec<(String, String)> = Vec::new();
            v.push((String::from_str("Content-Type"), ct.clone()));
            proof {
                assert(spec_header_views(v@) =~= seg_content_type(*header_params, has_body));
            }
            v
        },
        None => {
            if has_body {
                let v = seg_const("Content-Type", "application/json");
                proof {
                    assert(spec_header_views(v@) =~= seg_content_type(*header_params, has_body));
                }
                v
            } else {
                let v: Vec<(String, String)> = Vec::new();
                proof {
                    assert(spec_header_views(v@) =~= seg_content_type(*header_params, has_body));
                }
                v
            }
        },
    };
    let ghost h8 = s8@;
    hs.append(&mut s8);
    proof {
        lemma_header_views_concat(g7, h8);
        assert(spec_header_views(hs@) == spec_headers(*client, *header_params, has_body));
    }
    hs
}

/// One fully prepared HTTP request: what the transport must send.
#[derive(Debug, Clone)]
pub struct RequestSpec {
    /// The request method.
    pub method: Method,
    /// The absolute URL, query string included.
    pub url: String,
    /// The headers, in order.
    pub headers: Vec<(String, String)>,
}

/// The URL of an endpoint call: the environment base, the relative path, and
/// `?` plus the query string when one is present and non-empty. An empty
/// query string appends nothing.
pub open spec fn spec_request_url(
    base: Seq<char>,
    path: Seq<char>,
    q: Option<Seq<char>>,
) -> Seq<char> {
    match q {
        None => base + path,
        Some(qs) => if qs.len() > 0 {
            base + path + "?"@ + qs
        } else {
            base + path
        },
    }
}

/// Prepares the HTTP request for one endpoint call at instant `now`:
/// resolves the URL against the environment base, appends the query string,
/// and attaches the standard headers. A request is never prepared with a
/// known-expired or absent token — the caller refreshes first, so the bearer
/// Authorization header is always attached.
pub fn prepare_request<E: Endpoint>(
    client: &Client,
    endpoint: &E,
    header_params: &HeaderParams,
    now: u64,
) -> (r: RequestSpec)
    requires
        client.spec_wf(),
        !client.spec_expired_at(now),
    ensures
        r.method == endpoint.spec_method(),
        r.url@ == spec_request_url(
            client.env.spec_endpoint(),
            endpoint.spec_path(),
            endpoint.spec_query_string(),
        ),
        spec_header_views(r.headers@) == spec_headers(
            *client,
            *header_params,
            endpoint.spec_body() is Some,
        ),
        client.auth.access_token matches Some(t) && spec_header_views(r.headers@)[1] == (
            "Authorization"@,
            "Bearer "@ + t.access_token@,
        ),
{
    let path = endpoint.relative_path();
    let mut url = client.env.make_url(path.as_str());
    match endpoint.query_string() {
        Some(qs) => {
            if !qs.as_str().is_empty() {
                url.append("?");
                url.append(qs.as_str());
            }
        },
        None => {},
    }
    let has_body = match endpoint.body() {
        Some(_) => true,
        None => false,
    };
    let headers = setup_headers(client, header_params, has_body);
    RequestSpec { method: endpoint.method(), url, headers }
}

/// Interprets a received response. On a success status the body is decoded
/// into the typed response; on a failure status it is decoded as the
/// provider's structured error; either way a body that does not match the
/// expected shape surfaces as a decode error, and the state of the world is
/// otherwise untouched.
pub fn interpret_response<R: FromJson>(status: u16, body: &Json) -> (r: Result<R, ResponseError>)
    ensures
        spec_status_success(status) ==> (
        if R::spec_decodable(*body) {
            r matches Ok(out) && out.spec_matches(*body)
        } else {
            r matches Err(ResponseError::DecodeError(_))
        }),
        !spec_status_success(status) ==> (
        if PaypalError::spec_decodable(*body) {
            r matches Err(ResponseError::ApiError(e)) && e.spec_matches(*body)
        } else {
            r matches Err(ResponseError::DecodeError(_))
        }),
{
    if status_is_success(status) {
        match R::from_json(body) {
            Some(v) => Ok(v),
            None => Err(
                ResponseError::DecodeError(
                    String::from_str("response body does not match the expected schema"),
                ),
            ),
        }
    } else {
        match PaypalError::from_json(body) {
            Some(e) => Err(ResponseError::ApiError(e)),
            None => Err(
                ResponseError::DecodeError(
                    String::from_str("error body is not a provider error payload"),
                ),
            ),
        }
    }
}

/// Interprets the record-payment response: on a success status the response
/// object's `payment_id` string, on a failure status the provider's
/// structured error; a body without the expected shape surfaces as a decode
/// error either way.
pub fn interpret_payment_response(status: u16, body: &Json) -> (r: Result<String, ResponseError>)
    ensures
        spec_status_success(status) ==> (match body.spec_field_string("payment_id"@) {
            Some(s) => r == Ok::<String, ResponseError>(s),
            None => r matches Err(ResponseError::DecodeError(_)),
        }),
        !spec_status_success(status) ==> (
        if PaypalError::spec_decodable(*body) {
            r matches Err(ResponseError::ApiError(e)) && e.spec_matches(*body)
        } else {
            r matches Err(ResponseError::DecodeError(_))
        }),
{
    if status_is_success(status) {
        match body.get_str("payment_id") {
            Some(payment_id) => Ok(payment_id),
            None => Err(
                ResponseError::DecodeError(
                    String::from_str("the record-payment response holds no payment id"),
                ),
            ),
        }
    } else {
        match PaypalError::from_json(body) {
            Some(e) => Err(ResponseError::ApiError(e)),
            None => Err(
                ResponseError::DecodeError(
                    String::from_str("error body is not a provider error payload"),
                ),
            ),
        }
    }
}

/// Header construction with no overrides: the headers are exactly Accept and
/// the bearer Authorization for the cached token — in particular no
/// auth-assertion header and no Prefer header are attached.
pub proof fn lemma_default_headers(c: Client, hp: HeaderParams, t: AccessToken)
    requires
        hp.merchant_payer_id is None,
        hp.client_metadata_id is None,
        hp.partner_attribution_id is None,
        hp.request_id is None,
        hp.prefer is None,
        hp.content_type is None,
        c.auth.access_token == Some(t),
    ensures
        spec_headers(c, hp, false) =~= seq![
            ("Accept"@, "application/json"@),
            ("Authorization"@, "Bearer "@ + t.access_token@),
        ],
{
}

/// Auth-assertion: when a merchant payer id is supplied, the headers carry
/// the signed auth-assertion value for the configured client id as issuer and
/// that payer id, right after Accept and the optional Authorization.
pub proof fn lemma_assertion_header_present(
    c: Client,
    hp: HeaderParams,
    p: String,
    has_body: bool,
)
    requires
        hp.merchant_payer_id == Some(p),
    ensures
        spec_headers(c, hp, has_body)[if c.auth.access_token is Some {
            2int
        } else {
            1int
        }] == ("PayPal-Auth-Assertion"@, spec_auth_assertion(c.auth.client_id@, p@, c.auth.secret@)),
{
}

} // verus!
