//! An order represents a payment between two or more parties. Use the Orders
//! API to create, update, retrieve, authorize, and capture orders.
//!
//! Reference: <https://developer.paypal.com/docs/api/orders/v2/>

use vstd::prelude::*;

verus! {

use vstd::string::StringExecFns;
use crate::data::orders::{Order, OrderPayload};
use crate::endpoint::{Endpoint, Method};
use crate::strutil::{path_join, path_join3};

/// Creates an order.
#[derive(Debug, Clone)]
pub struct CreateOrder {
    /// The order payload.
    pub order: OrderPayload,
}

impl CreateOrder {
    /// New constructor.
    pub fn new(order: OrderPayload) -> (r: Self)
        ensures
            r.order == order,
    {
        Self { order }
    }
}


impl Endpoint for CreateOrder {
    type Query = ();

    type Body = OrderPayload;

    type Response = Order;

    open spec fn spec_path(&self) -> Seq<char> {
        "/v2/checkout/orders"@
    }

    open spec fn spec_method(&self) -> Method {
        Method::Post
    }

    open spec fn spec_query_string(&self) -> Option<Seq<char>> {
        None
    }

    open spec fn spec_query(&self) -> Option<()> {
        None
    }

    open spec fn spec_body(&self) -> Option<OrderPayload> {
        Some(self.order)
    }

    fn relative_path(&self) -> (r: String) {
        proof {
            reveal_strlit("/v2/checkout/orders");
        }
        String::from_str("/v2/checkout/orders")
    }

    fn method(&self) -> (r: Method) {
        Method::Post
    }

    fn query_string(&self) -> (r: Option<String>) {
        None
    }

    fn query<'a>(&'a self) -> (r: Option<&'a ()>) {
        None
    }

    fn body<'a>(&'a self) -> (r: Option<&'a OrderPayload>) {
        Some(&self.order)
    }
}

/// Query an order by id.
#[derive(Debug, Clone)]
pub struct ShowOrderDetails {
    /// The order id.
    pub order_id: String,
}

impl ShowOrderDetails {
    /// New constructor.
    pub fn new(order_id: &str) -> (r: Self)
        ensures
            r.order_id@ == order_id@,
    {
        Self { order_id: order_id.to_owned() }
    }
}


impl Endpoint for ShowOrderDetails {
    type Query = ();

    type Body = ();

    type Response = Order;

    open spec fn spec_path(&self) -> Seq<char> {
        "/v2/checkout/orders/"@ + self.order_id@
    }

    open spec fn spec_method(&self) -> Method {
        Method::Get
    }

    open spec fn spec_query_string(&self) -> Option<Seq<char>> {
        None
    }

    open spec fn spec_query(&self) -> Option<()> {
        None
    }

    open spec fn spec_body(&self) -> Option<()> {
        None
    }

    fn relative_path(&self) -> (r: String) {
        proof {
            reveal_strlit("/v2/checkout/orders/");
        }
        path_join("/v2/checkout/orders/", self.order_id.as_str())
    }

    fn method(&self) -> (r: Method) {
        Method::Get
    }

    fn query_string(&self) -> (r: Option<String>) {
        None
    }

    fn query<'a>(&'a self) -> (r: Option<&'a ()>) {
        None
    }

    fn body<'a>(&'a self) -> (r: Option<&'a ()>) {
        None
    }
}

/// The payment source used to fund the payment.
#[derive(Debug, Clone)]
pub struct PaymentSourceToken {
    /// The PayPal-generated ID for the token.
    pub id: String,
    /// The tokenization method that generated the ID; its wire name is
    /// `type`. Can only be BILLING_AGREEMENT.
    pub token_type: String,
}

/// Payment source used in the capture order endpoint.
#[derive(Debug, Clone)]
pub struct PaymentSource {
    /// The tokenized payment source to fund a payment.
    pub token: PaymentSourceToken,
}

/// The capture order endpoint body.
#[derive(Debug, Clone)]
pub struct PaymentSourceBody {
    /// The payment source definition.
    pub payment_source: Option<PaymentSource>,
}

impl Default for PaymentSourceBody {
    /// A body without a payment source.
    fn default() -> (r: Self)
        ensures
            r.payment_source is None,
    {
        PaymentSourceBody { payment_source: None }
    }
}

/// Captures payment for an order. To successfully capture payment for an
/// order, the buyer must first approve the order or a valid payment_source
/// must be provided in the request.
#[derive(Debug, Clone)]
pub struct CaptureOrder {
    /// The id of the order.
    pub order_id: String,
    /// The endpoint body.
    pub body: PaymentSourceBody,
}

impl CaptureOrder {
    /// New constructor.
    pub fn new(order_id: &str) -> (r: Self)
        ensures
            r.order_id@ == order_id@,
            r.body.payment_source is None,
    {
        Self { order_id: order_id.to_owned(), body: PaymentSourceBody::default() }
    }
}


impl Endpoint for CaptureOrder {
    type Query = ();

    type Body = PaymentSourceBody;

    type Response = Order;

    open spec fn spec_path(&self) -> Seq<char> {
        "/v2/checkout/orders/"@ + self.order_id@ + "/capture"@
    }

    open spec fn spec_method(&self) -> Method {
        Method::Post
    }

    open spec fn spec_query_string(&self) -> Option<Seq<char>> {
        None
    }

    open spec fn spec_query(&self) -> Option<()> {
        None
    }

    open spec fn spec_body(&self) -> Option<PaymentSourceBody> {
        Some(self.body)
    }

    fn relative_path(&self) -> (r: String) {
        proof {
            reveal_strlit("/v2/checkout/orders/");
        }
        path_join3("/v2/checkout/orders/", self.order_id.as_str(), "/capture")
    }

    fn method(&self) -> (r: Method) {
        Method::Post
    }

    fn query_string(&self) -> (r: Option<String>) {
        None
    }

    fn query<'a>(&'a self) -> (r: Option<&'a ()>) {
        None
    }

    fn body<'a>(&'a self) -> (r: Option<&'a PaymentSourceBody>) {
        Some(&self.body)
    }
}

/// Authorizes payment for an order. To successfully authorize payment for an
/// order, the buyer must first approve the order or a valid payment_source
/// must be provided in the request.
#[derive(Debug, Clone)]
pub struct AuthorizeOrder {
    /// The order id.
    pub order_id: String,
    /// The endpoint body.
    pub body: PaymentSourceBody,
}

impl AuthorizeOrder {
    /// New constructor.
    pub fn new(order_id: &str) -> (r: Self)
        ensures
            r.order_id@ == order_id@,
            r.body.payment_source is None,
    {
        Self { order_id: order_id.to_owned(), body: PaymentSourceBody::default() }
    }
}


impl Endpoint for AuthorizeOrder {
    type Query = ();

    type Body = PaymentSourceBody;

    type Response = Order;

    open spec fn spec_path(&self) -> Seq<char> {
        "/v2/checkout/orders/"@ + self.order_id@ + "/authorize"@
    }

    open spec fn spec_method(&self) -> Method {
        Method::Post
    }

    open spec fn spec_query_string(&self) -> Option<Seq<char>> {
        None
    }

    open spec fn spec_query(&self) -> Option<()> {
        None
    }

    open spec fn spec_body(&self) -> Option<PaymentSourceBody> {
        Some(self.body)
    }

    fn relative_path(&self) -> (r: String) {
        proof {
            reveal_strlit("/v2/checkout/orders/");
        }
        path_join3("/v2/checkout/orders/", self.order_id.as_str(), "/authorize")
    }

    fn method(&self) -> (r: Method) {
        Method::Post
    }

    fn query_string(&self) -> (r: Option<String>) {
        None
    }

    fn query<'a>(&'a self) -> (r: Option<&'a ()>) {
        None
    }

    fn body<'a>(&'a self) -> (r: Option<&'a PaymentSourceBody>) {
        Some(&self.body)
    }
}

} // verus!
