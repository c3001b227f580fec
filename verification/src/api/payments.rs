//! Call the Payments API to authorize payments, capture authorized payments,
//! refund payments that have already been captured, and show payment
//! information.
//!
//! Reference: <https://developer.paypal.com/docs/api/payments/v2/>

use vstd::prelude::*;

verus! {

use vstd::string::StringExecFns;
use crate::data::payment::AuthorizedPaymentDetails;
use crate::endpoint::{Endpoint, Method};
use crate::strutil::path_join;

/// Shows details for an authorized payment, by ID.
#[derive(Debug, Clone)]
pub struct GetAuthorizedPayment {
    /// The ID of the authorized payment for which to show details.
    pub authorization_id: String,
}

impl GetAuthorizedPayment {
    /// New constructor.
    pub fn new(authorization_id: &str) -> (r: Self)
        ensures
            r.authorization_id@ == authorization_id@,
    {
        Self { authorization_id: authorization_id.to_owned() }
    }
}


impl Endpoint for GetAuthorizedPayment {
    type Query = ();

    type Body = ();

    type Response = AuthorizedPaymentDetails;

    open spec fn spec_path(&self) -> Seq<char> {
        "/v2/payments/authorizations/"@ + self.authorization_id@
    }

    open spec fn spec_method(&self) -> Method {
        Method::Get
    }

    open spec fn spec_query_string(&self) -> Option<Seq<char>> {
        None
    }

    open spec fn spec_query(&self) -> Option<()> {
        None
    }

    open spec fn spec_body(&self) -> Option<()> {
        None
    }

    fn relative_path(&self) -> (r: String) {
        proof {
            reveal_strlit("/v2/payments/authorizations/");
        }
        path_join("/v2/payments/authorizations/", self.authorization_id.as_str())
    }

    fn method(&self) -> (r: Method) {
        Method::Get
    }

    fn query_string(&self) -> (r: Option<String>) {
        None
    }

    fn query<'a>(&'a self) -> (r: Option<&'a ()>) {
        None
    }

    fn body<'a>(&'a self) -> (r: Option<&'a ()>) {
        None
    }
}

} // verus!
