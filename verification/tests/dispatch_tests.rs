//! Tests for the endpoint dispatcher: request preparation and typed
//! interpretation of responses.

use paypal_rs::api::invoice::{DeleteInvoice, GetInvoice, ListInvoices, UpdateInvoiceQuery};
use paypal_rs::api::orders::{CaptureOrder, CreateOrder, ShowOrderDetails};
use paypal_rs::client::{Client, PaypalEnv};
use paypal_rs::data::common::Currency;
use paypal_rs::data::orders::{
    Amount, Intent, InvoiceNumber, Order, OrderPayload, OrderStatus, PurchaseUnit,
};
use paypal_rs::endpoint::{Endpoint, Method};
use paypal_rs::errors::ResponseError;
use paypal_rs::invoice::QRCodeParams;
use paypal_rs::json::Json;
use paypal_rs::request::{interpret_payment_response, interpret_response, prepare_request};
use paypal_rs::{HeaderParams, Query};

fn client_with_token() -> Client {
    let mut client = Client::new(
        "clientid".to_string(),
        "secret".to_string(),
        PaypalEnv::Mock("http://127.0.0.1:1".to_string()),
    );
    let body = Json::Obj(vec![
        ("scope".to_string(), Json::Str("s".to_string())),
        ("access_token".to_string(), Json::Str("TESTBEARERTOKEN".to_string())),
        ("token_type".to_string(), Json::Str("Bearer".to_string())),
        ("app_id".to_string(), Json::Str("APP".to_string())),
        ("expires_in".to_string(), Json::Int(3600)),
        ("nonce".to_string(), Json::Str("n".to_string())),
    ]);
    client.apply_token_response(0, 200, &body).unwrap();
    client
}

fn link(href: &str, rel: &str, method: &str) -> Json {
    Json::Obj(vec![
        ("href".to_string(), Json::Str(href.to_string())),
        ("rel".to_string(), Json::Str(rel.to_string())),
        ("method".to_string(), Json::Str(method.to_string())),
    ])
}

fn created_order_body() -> Json {
    Json::Obj(vec![
        ("id".to_string(), Json::Str("5O190127TN364715T".to_string())),
        ("status".to_string(), Json::Str("CREATED".to_string())),
        (
            "links".to_string(),
            Json::Arr(vec![
                link("https://api-m.paypal.com/v2/checkout/orders/5O190127TN364715T", "self", "GET"),
                link("https://www.paypal.com/checkoutnow?token=5O190127TN364715T", "approve", "GET"),
                link("https://api-m.paypal.com/v2/checkout/orders/5O190127TN364715T", "update", "PATCH"),
                link(
                    "https://api-m.paypal.com/v2/checkout/orders/5O190127TN364715T/capture",
                    "capture",
                    "POST",
                ),
            ]),
        ),
    ])
}

#[test]
fn relative_paths_of_descriptors() {
    assert_eq!(ShowOrderDetails::new("ABC").relative_path(), "/v2/checkout/orders/ABC");
    assert_eq!(CaptureOrder::new("ABC").relative_path(), "/v2/checkout/orders/ABC/capture");
    assert_eq!(GetInvoice::new("INV-1").relative_path(), "/v2/invoicing/invoices/INV-1");
    assert_eq!(DeleteInvoice::new("INV-1").relative_path(), "/v2/invoicing/invoices/INV-1");
    assert_eq!(ShowOrderDetails::new("ABC").method(), Method::Get);
}

#[test]
fn prepare_request_builds_url_method_and_headers() {
    let client = client_with_token();
    let order = OrderPayload::new(
        Intent::Authorize,
        vec![PurchaseUnit::new(Amount::new(Currency::EUR, "10.0"))],
    );
    let create = CreateOrder::new(order);
    let spec = prepare_request(&client, &create, &HeaderParams::default(), 1);
    assert_eq!(spec.method, Method::Post);
    assert_eq!(spec.url, "http://127.0.0.1:1/v2/checkout/orders");
    assert!(spec.headers.iter().any(|(k, v)| k == "Accept" && v == "application/json"));
    assert!(spec.headers.iter().any(|(k, v)| k == "Authorization" && v == "Bearer TESTBEARERTOKEN"));
    assert!(spec.headers.iter().any(|(k, v)| k == "Content-Type" && v == "application/json"));
    assert!(!spec.headers.iter().any(|(k, _)| k == "PayPal-Auth-Assertion"));
}

#[test]
fn prepare_request_appends_no_query_marker_for_empty_query() {
    let client = client_with_token();
    let list = ListInvoices::new(Query::default());
    let spec = prepare_request(&client, &list, &HeaderParams::default(), 1);
    assert_eq!(spec.url, "http://127.0.0.1:1/v2/invoicing/invoices");
}

#[test]
fn prepare_request_appends_query_string() {
    let client = client_with_token();
    let mut query = Query::default();
    query.page = Some(1);
    query.page_size = Some(10);
    query.total_count_required = Some(true);
    let list = ListInvoices::new(query);
    let spec = prepare_request(&client, &list, &HeaderParams::default(), 1);
    assert_eq!(
        spec.url,
        "http://127.0.0.1:1/v2/invoicing/invoices?page=1&page_size=10&total_required=true"
    );
}

#[test]
fn update_invoice_query_serializes_both_flags() {
    let q = UpdateInvoiceQuery { send_to_recipient: true, send_to_invoicer: false };
    assert_eq!(q.to_query_string(), "send_to_recipient=true&send_to_invoicer=false");
}

#[test]
fn success_response_decodes_into_typed_order() {
    let r: Result<Order, ResponseError> = interpret_response(201, &created_order_body());
    let order = r.expect("a 2xx with a valid body must decode");
    assert_eq!(order.id, "5O190127TN364715T");
    assert_eq!(order.status, OrderStatus::Created);
    assert_eq!(order.links.len(), 4);
    assert_eq!(order.links[1].rel.as_deref(), Some("approve"));
    assert!(order.intent.is_none());
    assert!(order.purchase_units.is_none());
}

#[test]
fn failure_response_yields_typed_api_error() {
    let body = Json::Obj(vec![
        ("name".to_string(), Json::Str("UNPROCESSABLE_ENTITY".to_string())),
        ("message".to_string(), Json::Str("The request is semantically incorrect.".to_string())),
        ("debug_id".to_string(), Json::Str("b6b9a374802ea".to_string())),
        (
            "details".to_string(),
            Json::Arr(vec![Json::Obj(vec![
                ("issue".to_string(), Json::Str("INVALID_CURRENCY_CODE".to_string())),
                ("description".to_string(), Json::Str("Currency code is not supported.".to_string())),
            ])]),
        ),
        ("links".to_string(), Json::Arr(vec![link("https://developer.paypal.com/docs", "information_link", "GET")])),
    ]);
    let r: Result<Order, ResponseError> = interpret_response(422, &body);
    match r {
        Err(ResponseError::ApiError(e)) => {
            assert_eq!(e.name, "UNPROCESSABLE_ENTITY");
            assert_eq!(e.debug_id.as_deref(), Some("b6b9a374802ea"));
            assert_eq!(e.details.len(), 1);
            assert_eq!(
                e.details[0],
                vec![
                    ("issue".to_string(), "INVALID_CURRENCY_CODE".to_string()),
                    ("description".to_string(), "Currency code is not supported.".to_string()),
                ]
            );
            assert_eq!(e.links.len(), 1);
        },
        other => panic!("expected an api error, got {:?}", other),
    }
}

#[test]
fn undecodable_bodies_yield_decode_errors() {
    // A success status whose body does not match the schema.
    let r: Result<Order, ResponseError> = interpret_response(200, &Json::Null);
    assert!(matches!(r, Err(ResponseError::DecodeError(_))));

    // A failure status whose body is not a provider error payload.
    let r: Result<Order, ResponseError> = interpret_response(500, &Json::Str("oops".to_string()));
    assert!(matches!(r, Err(ResponseError::DecodeError(_))));
}

#[test]
fn create_order_scenario_decodes_status_and_links() {
    // A client acquires a token that lasts an hour, then dispatches a create
    // order descriptor; the mocked response carries status CREATED and four
    // HATEOAS links.
    let mut client = Client::new(
        "clientid".to_string(),
        "secret".to_string(),
        PaypalEnv::Mock("http://127.0.0.1:1".to_string()),
    );
    let token = Json::Obj(vec![
        ("scope".to_string(), Json::Str("s".to_string())),
        ("access_token".to_string(), Json::Str("TESTBEARERTOKEN".to_string())),
        ("token_type".to_string(), Json::Str("Bearer".to_string())),
        ("app_id".to_string(), Json::Str("APP".to_string())),
        ("expires_in".to_string(), Json::Int(3600)),
        ("nonce".to_string(), Json::Str("n".to_string())),
    ]);
    assert!(client.acquire_plan(5).is_some());
    client.apply_token_response(5, 200, &token).unwrap();
    assert!(client.acquire_plan(6).is_none());

    let order = OrderPayload::new(
        Intent::Authorize,
        vec![PurchaseUnit::new(Amount::new(Currency::EUR, "10.0"))],
    );
    let create = CreateOrder::new(order);
    let spec = prepare_request(&client, &create, &HeaderParams::default(), 6);
    assert_eq!(spec.method, Method::Post);
    assert!(spec.headers.iter().any(|(k, v)| k == "Authorization" && v == "Bearer TESTBEARERTOKEN"));

    let decoded: Result<Order, ResponseError> = interpret_response(201, &created_order_body());
    let decoded = decoded.unwrap();
    assert_eq!(decoded.status, OrderStatus::Created);
    assert_eq!(decoded.links.len(), 4);
}

#[test]
fn unit_and_invoice_number_responses_decode() {
    // Endpoints without response data accept any body on success.
    let r: Result<(), ResponseError> = interpret_response(204, &Json::Null);
    assert!(r.is_ok());

    let j = Json::Obj(vec![("invoice_number".to_string(), Json::Str("INVOICE-1235".to_string()))]);
    let r: Result<InvoiceNumber, ResponseError> = interpret_response(200, &j);
    assert_eq!(r.unwrap().invoice_number, "INVOICE-1235");
}

#[test]
fn payment_response_yields_payment_id_or_errors() {
    let body = Json::Obj(vec![("payment_id".to_string(), Json::Str("PAY-1".to_string()))]);
    assert_eq!(interpret_payment_response(200, &body).unwrap(), "PAY-1");

    let empty = Json::Obj(vec![]);
    assert!(matches!(interpret_payment_response(200, &empty), Err(ResponseError::DecodeError(_))));

    let err_body = Json::Obj(vec![
        ("name".to_string(), Json::Str("INVALID_REQUEST".to_string())),
        ("details".to_string(), Json::Arr(vec![])),
        ("links".to_string(), Json::Arr(vec![])),
    ]);
    match interpret_payment_response(422, &err_body) {
        Err(ResponseError::ApiError(e)) => assert_eq!(e.name, "INVALID_REQUEST"),
        other => panic!("expected an api error, got {:?}", other),
    }
}

#[test]
fn qr_code_params_serialize_to_json() {
    let p = QRCodeParams { width: 200, height: 300, action: Some("pay".to_string()) };
    let j = p.to_json();
    assert_eq!(j.get_i64("width"), Some(200));
    assert_eq!(j.get_i64("height"), Some(300));
    assert_eq!(j.get_str("action").as_deref(), Some("pay"));

    let p = QRCodeParams { width: 150, height: 150, action: None };
    let j = p.to_json();
    assert_eq!(j.get_i64("width"), Some(150));
    assert!(j.get("action").is_none());
}
