//! PayPal object definitions used by the payments API.

use vstd::prelude::*;

verus! {

use vstd::string::StringExecFns;
use crate::data::common::{AuthorizationStatusDetails, LinkDescription, Money, SellerProtection};
use crate::json::{
    get_arr_of, get_obj, spec_arr_decodable, spec_arr_matches, spec_obj_decodable,
    spec_obj_matches, FromJson, Json,
};
use crate::strutil::str_eq;

/// Payment status.
#[derive(Debug, Clone, Copy, PartialEq, Eq)]
pub enum PaymentStatus {
    /// The authorized payment is created. No captured payments have been made for this authorized payment.
    Created,
    /// The authorized payment has one or more captures against it.
    Captured,
    /// PayPal cannot authorize funds for this authorized payment.
    Denied,
    /// The authorized payment has expired.
    Expired,
    /// A captured payment was made for the authorized payment for an amount that is less than the original amount.
    PartiallyCaptured,
    /// The payment which was authorized for an amount that is less than the originally requested amount.
    PartiallyCreated,
    /// The authorized payment was voided. No more captured payments can be made against it.
    Voided,
    /// The created authorization is in pending state.
    Pending,
}

impl PaymentStatus {
    /// The wire name of this value.
    pub open spec fn spec_code(self) -> Seq<char> {
        match self {
            PaymentStatus::Created => "CREATED"@,
            PaymentStatus::Captured => "CAPTURED"@,
            PaymentStatus::Denied => "DENIED"@,
            PaymentStatus::Expired => "EXPIRED"@,
            PaymentStatus::PartiallyCaptured => "PARTIALLY_CAPTURED"@,
            PaymentStatus::PartiallyCreated => "PARTIALLY_CREATED"@,
            PaymentStatus::Voided => "VOIDED"@,
            PaymentStatus::Pending => "PENDING"@,
        }
    }

    /// The value a wire name names, if any.
    pub open spec fn spec_from_code(s: Seq<char>) -> Option<PaymentStatus> {
        if s == "CREATED"@ {
            Some(PaymentStatus::Created)
        } else if s == "CAPTURED"@ {
            Some(PaymentStatus::Captured)
        } else if s == "DENIED"@ {
            Some(PaymentStatus::Denied)
        } else if s == "EXPIRED"@ {
            Some(PaymentStatus::Expired)
        } else if s == "PARTIALLY_CAPTURED"@ {
            Some(PaymentStatus::PartiallyCaptured)
        } else if s == "PARTIALLY_CREATED"@ {
            Some(PaymentStatus::PartiallyCreated)
        } else if s == "VOIDED"@ {
            Some(PaymentStatus::Voided)
        } else if s == "PENDING"@ {
            Some(PaymentStatus::Pending)
        } else {
            None
        }
    }

    /// Renders the wire name of this value.
    pub fn to_string(&self) -> (r: String)
        ensures
            r@ == self.spec_code(),
    {
        match self {
            PaymentStatus::Created => String::from_str("CREATED"),
            PaymentStatus::Captured => String::from_str("CAPTURED"),
            PaymentStatus::Denied => String::from_str("DENIED"),
            PaymentStatus::Expired => String::from_str("EXPIRED"),
            PaymentStatus::PartiallyCaptured => String::from_str("PARTIALLY_CAPTURED"),
            PaymentStatus::PartiallyCreated => String::from_str("PARTIALLY_CREATED"),
            PaymentStatus::Voided => String::from_str("VOIDED"),
            PaymentStatus::Pending => String::from_str("PENDING"),
        }
    }

    /// Parses a wire name.
    pub fn from_code(s: &str) -> (r: Option<PaymentStatus>)
        ensures
            r == Self::spec_from_code(s@),
    {
        if str_eq(s, "CREATED") {
            Some(PaymentStatus::Created)
        } else if str_eq(s, "CAPTURED") {
            Some(PaymentStatus::Captured)
        } else if str_eq(s, "DENIED") {
            Some(PaymentStatus::Denied)
        } else if str_eq(s, "EXPIRED") {
            Some(PaymentStatus::Expired)
        } else if str_eq(s, "PARTIALLY_CAPTURED") {
            Some(PaymentStatus::PartiallyCaptured)
        } else if str_eq(s, "PARTIALLY_CREATED") {
            Some(PaymentStatus::PartiallyCreated)
        } else if str_eq(s, "VOIDED") {
            Some(PaymentStatus::Voided)
        } else if str_eq(s, "PENDING") {
            Some(PaymentStatus::Pending)
        } else {
            None
        }
    }
}

impl FromJson for PaymentStatus {
    /// A string naming one of the values.
    open spec fn spec_decodable(j: Json) -> bool {
        match j {
            Json::Str(s) => Self::spec_from_code(s@) is Some,
            _ => false,
        }
    }

    open spec fn spec_matches(self, j: Json) -> bool {
        match j {
            Json::Str(s) => Self::spec_from_code(s@) == Some(self),
            _ => false,
        }
    }

    fn from_json(j: &Json) -> (r: Option<PaymentStatus>)
        ensures
            match r {
                Some(v) => Self::spec_decodable(*j) && v.spec_matches(*j),
                None => !Self::spec_decodable(*j),
            },
    {
        match j {
            Json::Str(s) => PaymentStatus::from_code(s.as_str()),
            _ => None,
        }
    }
}

/// The authorized payment details.
#[derive(Debug, Clone)]
pub struct AuthorizedPaymentDetails {
    /// The status for the authorized payment.
    pub status: PaymentStatus,
    /// The details of the authorized order pending status.
    pub status_details: AuthorizationStatusDetails,
    /// The PayPal-generated ID for the authorized payment.
    pub id: String,
    /// The amount for this authorized payment.
    pub amount: Money,
    /// The API caller-provided external invoice number for this order.
    pub invoice_id: String,
    /// The API caller-provided external ID.
    pub custom_id: String,
    /// The level of protection offered as defined by PayPal Seller Protection for Merchants.
    pub seller_protection: SellerProtection,
    /// The date and time when the authorized payment expires, as RFC 3339 text.
    pub expiration_time: String,
    /// An array of related HATEOAS links.
    pub links: Vec<LinkDescription>,
    /// The date and time when the transaction occurred, as RFC 3339 text.
    pub create_time: String,
    /// The date and time when the transaction was last updated, as RFC 3339 text.
    pub update_time: String,
}

impl FromJson for AuthorizedPaymentDetails {
    /// The authorized payment details.
    open spec fn spec_decodable(j: Json) -> bool {
        &&& spec_obj_decodable::<PaymentStatus>(j, "status"@)
        &&& spec_obj_decodable::<AuthorizationStatusDetails>(j, "status_details"@)
        &&& j.spec_field_string("id"@) is Some
        &&& spec_obj_decodable::<Money>(j, "amount"@)
        &&& j.spec_field_string("invoice_id"@) is Some
        &&& j.spec_field_string("custom_id"@) is Some
        &&& spec_obj_decodable::<SellerProtection>(j, "seller_protection"@)
        &&& j.spec_field_string("expiration_time"@) is Some
        &&& spec_arr_decodable::<LinkDescription>(j, "links"@)
        &&& j.spec_field_string("create_time"@) is Some
        &&& j.spec_field_string("update_time"@) is Some
    }

    open spec fn spec_matches(self, j: Json) -> bool {
        &&& spec_obj_matches(self.status, j, "status"@)
        &&& spec_obj_matches(self.status_details, j, "status_details"@)
        &&& Some(self.id) == j.spec_field_string("id"@)
        &&& spec_obj_matches(self.amount, j, "amount"@)
        &&& Some(self.invoice_id) == j.spec_field_string("invoice_id"@)
        &&& Some(self.custom_id) == j.spec_field_string("custom_id"@)
        &&& spec_obj_matches(self.seller_protection, j, "seller_protection"@)
        &&& Some(self.expiration_time) == j.spec_field_string("expiration_time"@)
        &&& spec_arr_matches(self.links@, j, "links"@)
        &&& Some(self.create_time) == j.spec_field_string("create_time"@)
        &&& Some(self.update_time) == j.spec_field_string("update_time"@)
    }

    fn from_json(j: &Json) -> (r: Option<AuthorizedPaymentDetails>)
        ensures
            match r {
                Some(v) => Self::spec_decodable(*j) && v.spec_matches(*j),
                None => !Self::spec_decodable(*j),
            },
    {
        let status = match get_obj::<PaymentStatus>(j, "status") {
            Some(v) => v,
            None => {
                return None;
            },
        };
        let status_details = match get_obj::<AuthorizationStatusDetails>(j, "status_details") {
            Some(v) => v,
            None => {
                return None;
            },
        };
        let id = match j.get_str("id") {
            Some(v) => v,
            None => {
                return None;
            },
        };
        let amount = match get_obj::<Money>(j, "amount") {
            Some(v) => v,
            None => {
                return None;
            },
        };
        let invoice_id = match j.get_str("invoice_id") {
            Some(v) => v,
            None => {
                return None;
            },
        };
        let custom_id = match j.get_str("custom_id") {
            Some(v) => v,
            None => {
                return None;
            },
        };
        let seller_protection = match get_obj::<SellerProtection>(j, "seller_protection") {
            Some(v) => v,
            None => {
                return None;
            },
        };
        let expiration_time = match j.get_str("expiration_time") {
            Some(v) => v,
            None => {
                return None;
            },
        };
        let links = match get_arr_of::<LinkDescription>(j, "links") {
            Some(v) => v,
            None => {
                return None;
            },
        };
        let create_time = match j.get_str("create_time") {
            Some(v) => v,
            None => {
                return None;
            },
        };
        let update_time = match j.get_str("update_time") {
            Some(v) => v,
            None => {
                return None;
            },
        };
        Some(AuthorizedPaymentDetails { status, status_details, id, amount, invoice_id, custom_id, seller_protection, expiration_time, links, create_time, update_time })
    }
}

} // verus!
