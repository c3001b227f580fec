//! Tests for the typed JSON decoders and URL construction.

use paypal_rs::client::PaypalEnv;
use paypal_rs::data::orders::{CaptureStatus, Order, OrderStatus};
use paypal_rs::data::payment::{AuthorizedPaymentDetails, PaymentStatus};
use paypal_rs::data::common::{Currency, LinkMethod, Money};
use paypal_rs::invoice::{Invoice, InvoiceList, Status};
use paypal_rs::json::{FromJson, Json};
use paypal_rs::{LIVE_ENDPOINT, SANDBOX_ENDPOINT};

#[test]
fn environment_endpoints() {
    assert_eq!(PaypalEnv::Live.endpoint(), LIVE_ENDPOINT);
    assert_eq!(PaypalEnv::Sandbox.endpoint(), SANDBOX_ENDPOINT);
    assert_eq!(PaypalEnv::Mock("http://x".to_string()).endpoint(), "http://x");
}

#[test]
fn make_url_concatenates_base_and_target() {
    let url = PaypalEnv::Sandbox.make_url("/v1/oauth2/token");
    assert_eq!(url, "https://api-m.sandbox.paypal.com/v1/oauth2/token");
    let url = PaypalEnv::Mock("http://127.0.0.1:9000".to_string()).make_url("/v2/checkout/orders");
    assert_eq!(url, "http://127.0.0.1:9000/v2/checkout/orders");
}

#[test]
fn money_decodes_currency_and_value() {
    let j = Json::Obj(vec![
        ("currency_code".to_string(), Json::Str("USD".to_string())),
        ("value".to_string(), Json::Str("100.00".to_string())),
    ]);
    let m = Money::from_json(&j).unwrap();
    assert_eq!(m.currency_code, Currency::USD);
    assert_eq!(m.value, "100.00");

    let bad = Json::Obj(vec![
        ("currency_code".to_string(), Json::Str("NOPE".to_string())),
        ("value".to_string(), Json::Str("1".to_string())),
    ]);
    assert!(Money::from_json(&bad).is_none());
}

#[test]
fn link_method_decodes_from_wire_names() {
    assert_eq!(LinkMethod::from_code("GET"), Some(LinkMethod::Get));
    assert_eq!(LinkMethod::from_code("PATCH"), Some(LinkMethod::Patch));
    assert_eq!(LinkMethod::from_code("get"), None);
    assert_eq!(LinkMethod::Post.to_string(), "POST");
}

#[test]
fn invoice_decodes_with_detail_and_status() {
    let detail = Json::Obj(vec![
        ("currency_code".to_string(), Json::Str("EUR".to_string())),
        ("invoice_number".to_string(), Json::Str("INVOICE-1234".to_string())),
    ]);
    let amount = Json::Obj(vec![
        ("currency_code".to_string(), Json::Str("EUR".to_string())),
        ("value".to_string(), Json::Str("10.00".to_string())),
    ]);
    let j = Json::Obj(vec![
        ("id".to_string(), Json::Str("INV2-Z56S-5LLA-Q52L-CPZ5".to_string())),
        ("status".to_string(), Json::Str("DRAFT".to_string())),
        ("detail".to_string(), detail),
        ("amount".to_string(), amount),
    ]);
    let inv = Invoice::from_json(&j).unwrap();
    assert_eq!(inv.id, "INV2-Z56S-5LLA-Q52L-CPZ5");
    assert_eq!(inv.status, Status::Draft);
    assert_eq!(inv.detail.currency_code, Currency::EUR);
    assert_eq!(inv.detail.invoice_number.as_deref(), Some("INVOICE-1234"));
    assert_eq!(inv.amount.value, "10.00");
    assert!(inv.links.is_none());
}

#[test]
fn invoice_list_requires_counts_and_items() {
    let j = Json::Obj(vec![
        ("total_items".to_string(), Json::Int(0)),
        ("total_pages".to_string(), Json::Int(0)),
        ("items".to_string(), Json::Arr(vec![])),
        ("links".to_string(), Json::Arr(vec![])),
    ]);
    let list = InvoiceList::from_json(&j).unwrap();
    assert_eq!(list.total_items, 0);
    assert_eq!(list.items.len(), 0);

    let missing = Json::Obj(vec![("total_items".to_string(), Json::Int(3))]);
    assert!(InvoiceList::from_json(&missing).is_none());
}

#[test]
fn order_decodes_nested_purchase_units_and_payments() {
    let money = |v: &str| {
        Json::Obj(vec![
            ("currency_code".to_string(), Json::Str("USD".to_string())),
            ("value".to_string(), Json::Str(v.to_string())),
        ])
    };
    let item = Json::Obj(vec![
        ("name".to_string(), Json::Str("Widget".to_string())),
        ("unit_amount".to_string(), money("2.50")),
        ("quantity".to_string(), Json::Str("4".to_string())),
        ("category".to_string(), Json::Str("PHYSICAL".to_string())),
    ]);
    let capture = Json::Obj(vec![("status".to_string(), Json::Str("COMPLETED".to_string()))]);
    let payments = Json::Obj(vec![("captures".to_string(), Json::Arr(vec![capture]))]);
    let unit = Json::Obj(vec![
        ("reference_id".to_string(), Json::Str("ref-1".to_string())),
        (
            "amount".to_string(),
            Json::Obj(vec![
                ("currency_code".to_string(), Json::Str("USD".to_string())),
                ("value".to_string(), Json::Str("10.00".to_string())),
                (
                    "breakdown".to_string(),
                    Json::Obj(vec![("item_total".to_string(), money("10.00"))]),
                ),
            ]),
        ),
        ("items".to_string(), Json::Arr(vec![item])),
        ("payments".to_string(), payments),
    ]);
    let j = Json::Obj(vec![
        ("id".to_string(), Json::Str("ORDER-1".to_string())),
        ("intent".to_string(), Json::Str("CAPTURE".to_string())),
        ("status".to_string(), Json::Str("COMPLETED".to_string())),
        ("purchase_units".to_string(), Json::Arr(vec![unit])),
        ("links".to_string(), Json::Arr(vec![])),
    ]);
    let order = Order::from_json(&j).unwrap();
    assert_eq!(order.status, OrderStatus::Completed);
    let units = order.purchase_units.unwrap();
    assert_eq!(units.len(), 1);
    assert_eq!(units[0].reference_id.as_deref(), Some("ref-1"));
    assert_eq!(units[0].amount.value, "10.00");
    let breakdown = units[0].amount.breakdown.as_ref().unwrap();
    assert_eq!(breakdown.item_total.as_ref().unwrap().value, "10.00");
    let items = units[0].items.as_ref().unwrap();
    assert_eq!(items[0].name, "Widget");
    let payments = units[0].payments.as_ref().unwrap();
    // The authorizations and refunds arrays were absent: they default empty.
    assert!(payments.authorizations.is_empty());
    assert!(payments.refunds.is_empty());
    assert_eq!(payments.captures.len(), 1);
    assert_eq!(payments.captures[0].status, CaptureStatus::Completed);
}

#[test]
fn order_with_wrong_field_shape_is_undecodable() {
    // The status names no known order status.
    let j = Json::Obj(vec![
        ("id".to_string(), Json::Str("ORDER-1".to_string())),
        ("status".to_string(), Json::Str("NOT_A_STATUS".to_string())),
        ("links".to_string(), Json::Arr(vec![])),
    ]);
    assert!(Order::from_json(&j).is_none());
    // A links entry without an href.
    let j = Json::Obj(vec![
        ("id".to_string(), Json::Str("ORDER-1".to_string())),
        ("status".to_string(), Json::Str("CREATED".to_string())),
        (
            "links".to_string(),
            Json::Arr(vec![Json::Obj(vec![("rel".to_string(), Json::Str("self".to_string()))])]),
        ),
    ]);
    assert!(Order::from_json(&j).is_none());
}

#[test]
fn authorized_payment_details_decode() {
    let j = Json::Obj(vec![
        ("status".to_string(), Json::Str("CREATED".to_string())),
        (
            "status_details".to_string(),
            Json::Obj(vec![("reason".to_string(), Json::Str("PENDING_REVIEW".to_string()))]),
        ),
        ("id".to_string(), Json::Str("0VF52814937998046".to_string())),
        (
            "amount".to_string(),
            Json::Obj(vec![
                ("currency_code".to_string(), Json::Str("USD".to_string())),
                ("value".to_string(), Json::Str("10.99".to_string())),
            ]),
        ),
        ("invoice_id".to_string(), Json::Str("INVOICE-123".to_string())),
        ("custom_id".to_string(), Json::Str("CUSTOM-123".to_string())),
        (
            "seller_protection".to_string(),
            Json::Obj(vec![
                ("status".to_string(), Json::Str("ELIGIBLE".to_string())),
                (
                    "dispute_categories".to_string(),
                    Json::Arr(vec![Json::Str("ITEM_NOT_RECEIVED".to_string())]),
                ),
            ]),
        ),
        ("expiration_time".to_string(), Json::Str("2017-10-10T23:23:45Z".to_string())),
        ("links".to_string(), Json::Arr(vec![])),
        ("create_time".to_string(), Json::Str("2017-09-11T23:23:45Z".to_string())),
        ("update_time".to_string(), Json::Str("2017-09-11T23:23:45Z".to_string())),
    ]);
    let d = AuthorizedPaymentDetails::from_json(&j).unwrap();
    assert_eq!(d.status, PaymentStatus::Created);
    assert_eq!(d.id, "0VF52814937998046");
    assert_eq!(d.amount.value, "10.99");
    assert_eq!(d.seller_protection.dispute_categories.len(), 1);
}
