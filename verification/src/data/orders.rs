//! PayPal object definitions used by the orders API.

use vstd::prelude::*;

verus! {

use vstd::string::StringExecFns;
use crate::data::common::{
    Address, AuthorizationStatusDetails, Currency, LinkDescription, Money,
    PhoneType,
};
use crate::json::{
    array_from_json, get_arr_of, get_obj, get_opt_arr_of, get_opt_obj, spec_arr_decodable,
    spec_arr_matches, spec_elems_decodable, spec_elems_match, spec_obj_decodable,
    spec_obj_matches, spec_opt_arr_decodable, spec_opt_arr_matches, spec_opt_obj_decodable,
    spec_opt_obj_matches, FromJson, Json,
};
use crate::strutil::str_eq;

/// The intent to either capture payment immediately or authorize a payment for an order after order creation.
#[derive(Debug, Clone, Copy, PartialEq, Eq)]
pub enum Intent {
    /// The merchant intends to capture payment immediately after the customer makes a payment.
    Capture,
    /// The merchant intends to authorize a payment and place funds on hold after the customer makes a payment.
    Authorize,
}

impl Intent {
    /// The wire name of this value.
    pub open spec fn spec_code(self) -> Seq<char> {
        match self {
            Intent::Capture => "CAPTURE"@,
            Intent::Authorize => "AUTHORIZE"@,
        }
    }

    /// The value a wire name names, if any.
    pub open spec fn spec_from_code(s: Seq<char>) -> Option<Intent> {
        if s == "CAPTURE"@ {
            Some(Intent::Capture)
        } else if s == "AUTHORIZE"@ {
            Some(Intent::Authorize)
        } else {
            None
        }
    }

    /// Renders the wire name of this value.
    pub fn to_string(&self) -> (r: String)
        ensures
            r@ == self.spec_code(),
    {
        match self {
            Intent::Capture => String::from_str("CAPTURE"),
            Intent::Authorize => String::from_str("AUTHORIZE"),
        }
    }

    /// Parses a wire name.
    pub fn from_code(s: &str) -> (r: Option<Intent>)
        ensures
            r == Self::spec_from_code(s@),
    {
        if str_eq(s, "CAPTURE") {
            Some(Intent::Capture)
        } else if str_eq(s, "AUTHORIZE") {
            Some(Intent::Authorize)
        } else {
            None
        }
    }
}

impl FromJson for Intent {
    /// A string naming one of the values.
    open spec fn spec_decodable(j: Json) -> bool {
        match j {
            Json::Str(s) => Self::spec_from_code(s@) is Some,
            _ => false,
        }
    }

    open spec fn spec_matches(self, j: Json) -> bool {
        match j {
            Json::Str(s) => Self::spec_from_code(s@) == Some(self),
            _ => false,
        }
    }

    fn from_json(j: &Json) -> (r: Option<Intent>)
        ensures
            match r {
                Some(v) => Self::spec_decodable(*j) && v.spec_matches(*j),
                None => !Self::spec_decodable(*j),
            },
    {
        match j {
            Json::Str(s) => Intent::from_code(s.as_str()),
            _ => None,
        }
    }
}

impl Default for Intent {
    /// The default value.
    fn default() -> (r: Self)
        ensures
            r == Intent::Capture,
    {
        Intent::Capture
    }
}

/// Represents a payer name.
#[derive(Debug, Clone)]
pub struct PayerName {
    /// When the party is a person, the party's given, or first, name.
    pub given_name: String,
    /// When the party is a person, the party's surname or family name.
    pub surname: String,
}

impl FromJson for PayerName {
    /// Represents a payer name.
    open spec fn spec_decodable(j: Json) -> bool {
        &&& j.spec_field_string("given_name"@) is Some
        &&& j.spec_field_string("surname"@) is Some
    }

    open spec fn spec_matches(self, j: Json) -> bool {
        &&& Some(self.given_name) == j.spec_field_string("given_name"@)
        &&& Some(self.surname) == j.spec_field_string("surname"@)
    }

    fn from_json(j: &Json) -> (r: Option<PayerName>)
        ensures
            match r {
                Some(v) => Self::spec_decodable(*j) && v.spec_matches(*j),
                None => !Self::spec_decodable(*j),
            },
    {
        let given_name = match j.get_str("given_name") {
            Some(v) => v,
            None => {
                return None;
            },
        };
        let surname = match j.get_str("surname") {
            Some(v) => v,
            None => {
                return None;
            },
        };
        Some(PayerName { given_name, surname })
    }
}

/// The phone number, in its canonical international E.164 numbering plan format.
#[derive(Debug, Clone)]
pub struct PhoneNumber {
    /// The national number, in its canonical international E.164 numbering plan format.
    pub national_number: String,
}

impl FromJson for PhoneNumber {
    /// The phone number, in its canonical international E.164 numbering plan format.
    open spec fn spec_decodable(j: Json) -> bool {
        &&& j.spec_field_string("national_number"@) is Some
    }

    open spec fn spec_matches(self, j: Json) -> bool {
        &&& Some(self.national_number) == j.spec_field_string("national_number"@)
    }

    fn from_json(j: &Json) -> (r: Option<PhoneNumber>)
        ensures
            match r {
                Some(v) => Self::spec_decodable(*j) && v.spec_matches(*j),
                None => !Self::spec_decodable(*j),
            },
    {
        let national_number = match j.get_str("national_number") {
            Some(v) => v,
            None => {
                return None;
            },
        };
        Some(PhoneNumber { national_number })
    }
}

/// The phone number of the customer.
#[derive(Debug, Clone)]
pub struct Phone {
    /// The phone type.
    pub phone_type: Option<PhoneType>,
    /// The phone number.
    pub phone_number: PhoneNumber,
}

impl FromJson for Phone {
    /// The phone number of the customer.
    open spec fn spec_decodable(j: Json) -> bool {
        &&& spec_opt_obj_decodable::<PhoneType>(j, "phone_type"@)
        &&& spec_obj_decodable::<PhoneNumber>(j, "phone_number"@)
    }

    open spec fn spec_matches(self, j: Json) -> bool {
        &&& spec_opt_obj_matches(self.phone_type, j, "phone_type"@)
        &&& spec_obj_matches(self.phone_number, j, "phone_number"@)
    }

    fn from_json(j: &Json) -> (r: Option<Phone>)
        ensures
            match r {
                Some(v) => Self::spec_decodable(*j) && v.spec_matches(*j),
                None => !Self::spec_decodable(*j),
            },
    {
        let phone_type = match get_opt_obj::<PhoneType>(j, "phone_type") {
            Some(v) => v,
            None => {
                return None;
            },
        };
        let phone_number = match get_obj::<PhoneNumber>(j, "phone_number") {
            Some(v) => v,
            None => {
                return None;
            },
        };
        Some(Phone { phone_type, phone_number })
    }
}

/// The customer's tax ID type. Supported for the PayPal payment method only.
#[derive(Debug, Clone, Copy, PartialEq, Eq)]
pub enum TaxIdType {
    /// The individual tax ID type.
    BR_CPF,
    /// The business tax ID type.
    BR_CNPJ,
}

impl TaxIdType {
    /// The wire name of this value.
    pub open spec fn spec_code(self) -> Seq<char> {
        match self {
            TaxIdType::BR_CPF => "BR_CPF"@,
            TaxIdType::BR_CNPJ => "BR_CNPJ"@,
        }
    }

    /// The value a wire name names, if any.
    pub open spec fn spec_from_code(s: Seq<char>) -> Option<TaxIdType> {
        if s == "BR_CPF"@ {
            Some(TaxIdType::BR_CPF)
        } else if s == "BR_CNPJ"@ {
            Some(TaxIdType::BR_CNPJ)
        } else {
            None
        }
    }

    /// Renders the wire name of this value.
    pub fn to_string(&self) -> (r: String)
        ensures
            r@ == self.spec_code(),
    {
        match self {
            TaxIdType::BR_CPF => String::from_str("BR_CPF"),
            TaxIdType::BR_CNPJ => String::from_str("BR_CNPJ"),
        }
    }

    /// Parses a wire name.
    pub fn from_code(s: &str) -> (r: Option<TaxIdType>)
        ensures
            r == Self::spec_from_code(s@),
    {
        if str_eq(s, "BR_CPF") {
            Some(TaxIdType::BR_CPF)
        } else if str_eq(s, "BR_CNPJ") {
            Some(TaxIdType::BR_CNPJ)
        } else {
            None
        }
    }
}

impl FromJson for TaxIdType {
    /// A string naming one of the values.
    open spec fn spec_decodable(j: Json) -> bool {
        match j {
            Json::Str(s) => Self::spec_from_code(s@) is Some,
            _ => false,
        }
    }

    open spec fn spec_matches(self, j: Json) -> bool {
        match j {
            Json::Str(s) => Self::spec_from_code(s@) == Some(self),
            _ => false,
        }
    }

    fn from_json(j: &Json) -> (r: Option<TaxIdType>)
        ensures
            match r {
                Some(v) => Self::spec_decodable(*j) && v.spec_matches(*j),
                None => !Self::spec_decodable(*j),
            },
    {
        match j {
            Json::Str(s) => TaxIdType::from_code(s.as_str()),
            _ => None,
        }
    }
}

/// The tax information of the payer.
#[derive(Debug, Clone)]
pub struct TaxInfo {
    /// The customer's tax ID. Supported for the PayPal payment method only.
    pub tax_id: String,
    /// The customer's tax ID type.
    pub tax_id_type: TaxIdType,
}

impl FromJson for TaxInfo {
    /// The tax information of the payer.
    open spec fn spec_decodable(j: Json) -> bool {
        &&& j.spec_field_string("tax_id"@) is Some
        &&& spec_obj_decodable::<TaxIdType>(j, "tax_id_type"@)
    }

    open spec fn spec_matches(self, j: Json) -> bool {
        &&& Some(self.tax_id) == j.spec_field_string("tax_id"@)
        &&& spec_obj_matches(self.tax_id_type, j, "tax_id_type"@)
    }

    fn from_json(j: &Json) -> (r: Option<TaxInfo>)
        ensures
            match r {
                Some(v) => Self::spec_decodable(*j) && v.spec_matches(*j),
                None => !Self::spec_decodable(*j),
            },
    {
        let tax_id = match j.get_str("tax_id") {
            Some(v) => v,
            None => {
                return None;
            },
        };
        let tax_id_type = match get_obj::<TaxIdType>(j, "tax_id_type") {
            Some(v) => v,
            None => {
                return None;
            },
        };
        Some(TaxInfo { tax_id, tax_id_type })
    }
}

/// The customer who approves and pays for the order. The customer is also known as the payer.
#[derive(Debug, Clone)]
pub struct Payer {
    /// The name of the payer.
    pub name: Option<PayerName>,
    /// The email address of the payer.
    pub email_address: Option<String>,
    /// The PayPal-assigned ID for the payer.
    pub payer_id: Option<String>,
    /// The phone number of the customer.
    pub phone: Option<Phone>,
    /// The birth date of the payer in YYYY-MM-DD format.
    pub birth_date: Option<String>,
    /// The tax information of the payer. Required only for Brazilian payers.
    pub tax_info: Option<TaxInfo>,
    /// The address of the payer.
    pub address: Option<Address>,
}

impl FromJson for Payer {
    /// The customer who approves and pays for the order. The customer is also known as the payer.
    open spec fn spec_decodable(j: Json) -> bool {
        &&& spec_opt_obj_decodable::<PayerName>(j, "name"@)
        &&& j.spec_field_opt_string("email_address"@) is Some
        &&& j.spec_field_opt_string("payer_id"@) is Some
        &&& spec_opt_obj_decodable::<Phone>(j, "phone"@)
        &&& j.spec_field_opt_string("birth_date"@) is Some
        &&& spec_opt_obj_decodable::<TaxInfo>(j, "tax_info"@)
        &&& spec_opt_obj_decodable::<Address>(j, "address"@)
    }

    open spec fn spec_matches(self, j: Json) -> bool {
        &&& spec_opt_obj_matches(self.name, j, "name"@)
        &&& Some(self.email_address) == j.spec_field_opt_string("email_address"@)
        &&& Some(self.payer_id) == j.spec_field_opt_string("payer_id"@)
        &&& spec_opt_obj_matches(self.phone, j, "phone"@)
        &&& Some(self.birth_date) == j.spec_field_opt_string("birth_date"@)
        &&& spec_opt_obj_matches(self.tax_info, j, "tax_info"@)
        &&& spec_opt_obj_matches(self.address, j, "address"@)
    }

    fn from_json(j: &Json) -> (r: Option<Payer>)
        ensures
            match r {
                Some(v) => Self::spec_decodable(*j) && v.spec_matches(*j),
                None => !Self::spec_decodable(*j),
            },
    {
        let name = match get_opt_obj::<PayerName>(j, "name") {
            Some(v) => v,
            None => {
                return None;
            },
        };
        let email_address = match j.get_opt_str("email_address") {
            Some(v) => v,
            None => {
                return None;
            },
        };
        let payer_id = match j.get_opt_str("payer_id") {
            Some(v) => v,
            None => {
                return None;
            },
        };
        let phone = match get_opt_obj::<Phone>(j, "phone") {
            Some(v) => v,
            None => {
                return None;
            },
        };
        let birth_date = match j.get_opt_str("birth_date") {
            Some(v) => v,
            None => {
                return None;
            },
        };
        let tax_info = match get_opt_obj::<TaxInfo>(j, "tax_info") {
            Some(v) => v,
            None => {
                return None;
            },
        };
        let address = match get_opt_obj::<Address>(j, "address") {
            Some(v) => v,
            None => {
                return None;
            },
        };
        Some(Payer { name, email_address, payer_id, phone, birth_date, tax_info, address })
    }
}

/// Breakdown provides details such as total item amount, total tax amount, shipping, handling, insurance, and discounts, if any.
#[derive(Debug, Clone)]
pub struct Breakdown {
    /// The subtotal for all items.
    pub item_total: Option<Money>,
    /// The shipping fee for all items within a given purchase unit.
    pub shipping: Option<Money>,
    /// The handling fee for all items within a given purchase unit.
    pub handling: Option<Money>,
    /// The total tax for all items.
    pub tax_total: Option<Money>,
    /// The insurance fee for all items within a given purchase unit.
    pub insurance: Option<Money>,
    /// The shipping discount for all items within a given purchase unit.
    pub shipping_discount: Option<Money>,
    /// The discount for all items within a given purchase unit.
    pub discount: Option<Money>,
}

impl FromJson for Breakdown {
    /// Breakdown provides details such as total item amount, total tax amount, shipping, handling, insurance, and discounts, if any.
    open spec fn spec_decodable(j: Json) -> bool {
        &&& spec_opt_obj_decodable::<Money>(j, "item_total"@)
        &&& spec_opt_obj_decodable::<Money>(j, "shipping"@)
        &&& spec_opt_obj_decodable::<Money>(j, "handling"@)
        &&& spec_opt_obj_decodable::<Money>(j, "tax_total"@)
        &&& spec_opt_obj_decodable::<Money>(j, "insurance"@)
        &&& spec_opt_obj_decodable::<Money>(j, "shipping_discount"@)
        &&& spec_opt_obj_decodable::<Money>(j, "discount"@)
    }

    open spec fn spec_matches(self, j: Json) -> bool {
        &&& spec_opt_obj_matches(self.item_total, j, "item_total"@)
        &&& spec_opt_obj_matches(self.shipping, j, "shipping"@)
        &&& spec_opt_obj_matches(self.handling, j, "handling"@)
        &&& spec_opt_obj_matches(self.tax_total, j, "tax_total"@)
        &&& spec_opt_obj_matches(self.insurance, j, "insurance"@)
        &&& spec_opt_obj_matches(self.shipping_discount, j, "shipping_discount"@)
        &&& spec_opt_obj_matches(self.discount, j, "discount"@)
    }

    fn from_json(j: &Json) -> (r: Option<Breakdown>)
        ensures
            match r {
                Some(v) => Self::spec_decodable(*j) && v.spec_matches(*j),
                None => !Self::spec_decodable(*j),
            },
    {
        let item_total = match get_opt_obj::<Money>(j, "item_total") {
            Some(v) => v,
            None => {
                return None;
            },
        };
        let shipping = match get_opt_obj::<Money>(j, "shipping") {
            Some(v) => v,
            None => {
                return None;
            },
        };
        let handling = match get_opt_obj::<Money>(j, "handling") {
            Some(v) => v,
            None => {
                return None;
            },
        };
        let tax_total = match get_opt_obj::<Money>(j, "tax_total") {
            Some(v) => v,
            None => {
                return None;
            },
        };
        let insurance = match get_opt_obj::<Money>(j, "insurance") {
            Some(v) => v,
            None => {
                return None;
            },
        };
        let shipping_discount = match get_opt_obj::<Money>(j, "shipping_discount") {
            Some(v) => v,
            None => {
                return None;
            },
        };
        let discount = match get_opt_obj::<Money>(j, "discount") {
            Some(v) => v,
            None => {
                return None;
            },
        };
        Some(Breakdown { item_total, shipping, handling, tax_total, insurance, shipping_discount, discount })
    }
}

/// Represents an amount of money.
#[derive(Debug, Clone)]
pub struct Amount {
    /// The three-character ISO-4217 currency code that identifies the currency.
    pub currency_code: Currency,
    /// The value: an integer for currencies that are not typically fractional, a decimal fraction otherwise.
    pub value: String,
    /// The breakdown of the amount.
    pub breakdown: Option<Breakdown>,
}

impl FromJson for Amount {
    /// Represents an amount of money.
    open spec fn spec_decodable(j: Json) -> bool {
        &&& spec_obj_decodable::<Currency>(j, "currency_code"@)
        &&& j.spec_field_string("value"@) is Some
        &&& spec_opt_obj_decodable::<Breakdown>(j, "breakdown"@)
    }

    open spec fn spec_matches(self, j: Json) -> bool {
        &&& spec_obj_matches(self.currency_code, j, "currency_code"@)
        &&& Some(self.value) == j.spec_field_string("value"@)
        &&& spec_opt_obj_matches(self.breakdown, j, "breakdown"@)
    }

    fn from_json(j: &Json) -> (r: Option<Amount>)
        ensures
            match r {
                Some(v) => Self::spec_decodable(*j) && v.spec_matches(*j),
                None => !Self::spec_decodable(*j),
            },
    {
        let currency_code = match get_obj::<Currency>(j, "currency_code") {
            Some(v) => v,
            None => {
                return None;
            },
        };
        let value = match j.get_str("value") {
            Some(v) => v,
            None => {
                return None;
            },
        };
        let breakdown = match get_opt_obj::<Breakdown>(j, "breakdown") {
            Some(v) => v,
            None => {
                return None;
            },
        };
        Some(Amount { currency_code, value, breakdown })
    }
}

impl Amount {
    /// Creates a new amount with the required values.
    pub fn new(currency: Currency, value: &str) -> (r: Self)
        ensures
            r.currency_code == currency,
            r.value@ == value@,
            r.breakdown is None,
    {
        Amount { currency_code: currency, value: value.to_owned(), breakdown: None }
    }
}

/// The merchant who receives payment for this transaction.
#[derive(Debug, Clone)]
pub struct Payee {
    /// The email address of merchant.
    pub email_address: Option<String>,
    /// The encrypted PayPal account ID of the merchant.
    pub merchant_id: Option<String>,
}

impl FromJson for Payee {
    /// The merchant who receives payment for this transaction.
    open spec fn spec_decodable(j: Json) -> bool {
        &&& j.spec_field_opt_string("email_address"@) is Some
        &&& j.spec_field_opt_string("merchant_id"@) is Some
    }

    open spec fn spec_matches(self, j: Json) -> bool {
        &&& Some(self.email_address) == j.spec_field_opt_string("email_address"@)
        &&& Some(self.merchant_id) == j.spec_field_opt_string("merchant_id"@)
    }

    fn from_json(j: &Json) -> (r: Option<Payee>)
        ensures
            match r {
                Some(v) => Self::spec_decodable(*j) && v.spec_matches(*j),
                None => !Self::spec_decodable(*j),
            },
    {
        let email_address = match j.get_opt_str("email_address") {
            Some(v) => v,
            None => {
                return None;
            },
        };
        let merchant_id = match j.get_opt_str("merchant_id") {
            Some(v) => v,
            None => {
                return None;
            },
        };
        Some(Payee { email_address, merchant_id })
    }
}

/// Fees, commissions, tips, or donations.
#[derive(Debug, Clone)]
pub struct PlatformFee {
    /// The fee for this transaction.
    pub amount: Money,
    /// The merchant who receives payment for this transaction.
    pub payee: Option<Payee>,
}

impl FromJson for PlatformFee {
    /// Fees, commissions, tips, or donations.
    open spec fn spec_decodable(j: Json) -> bool {
        &&& spec_obj_decodable::<Money>(j, "amount"@)
        &&& spec_opt_obj_decodable::<Payee>(j, "payee"@)
    }

    open spec fn spec_matches(self, j: Json) -> bool {
        &&& spec_obj_matches(self.amount, j, "amount"@)
        &&& spec_opt_obj_matches(self.payee, j, "payee"@)
    }

    fn from_json(j: &Json) -> (r: Option<PlatformFee>)
        ensures
            match r {
                Some(v) => Self::spec_decodable(*j) && v.spec_matches(*j),
                None => !Self::spec_decodable(*j),
            },
    {
        let amount = match get_obj::<Money>(j, "amount") {
            Some(v) => v,
            None => {
                return None;
            },
        };
        let payee = match get_opt_obj::<Payee>(j, "payee") {
            Some(v) => v,
            None => {
                return None;
            },
        };
        Some(PlatformFee { amount, payee })
    }
}

/// The funds that are held on behalf of the merchant.
#[derive(Debug, Clone, Copy, PartialEq, Eq)]
pub enum DisbursementMode {
    /// The funds are released to the merchant immediately.
    Instant,
    /// The funds are held for a finite number of days before disbursement.
    Delayed,
}

impl DisbursementMode {
    /// The wire name of this value.
    pub open spec fn spec_code(self) -> Seq<char> {
        match self {
            DisbursementMode::Instant => "INSTANT"@,
            DisbursementMode::Delayed => "DELAYED"@,
        }
    }

    /// The value a wire name names, if any.
    pub open spec fn spec_from_code(s: Seq<char>) -> Option<DisbursementMode> {
        if s == "INSTANT"@ {
            Some(DisbursementMode::Instant)
        } else if s == "DELAYED"@ {
            Some(DisbursementMode::Delayed)
        } else {
            None
        }
    }

    /// Renders the wire name of this value.
    pub fn to_string(&self) -> (r: String)
        ensures
            r@ == self.spec_code(),
    {
        match self {
            DisbursementMode::Instant => String::from_str("INSTANT"),
            DisbursementMode::Delayed => String::from_str("DELAYED"),
        }
    }

    /// Parses a wire name.
    pub fn from_code(s: &str) -> (r: Option<DisbursementMode>)
        ensures
            r == Self::spec_from_code(s@),
    {
        if str_eq(s, "INSTANT") {
            Some(DisbursementMode::Instant)
        } else if str_eq(s, "DELAYED") {
            Some(DisbursementMode::Delayed)
        } else {
            None
        }
    }
}

impl FromJson for DisbursementMode {
    /// A string naming one of the values.
    open spec fn spec_decodable(j: Json) -> bool {
        match j {
            Json::Str(s) => Self::spec_from_code(s@) is Some,
            _ => false,
        }
    }

    open spec fn spec_matches(self, j: Json) -> bool {
        match j {
            Json::Str(s) => Self::spec_from_code(s@) == Some(self),
            _ => false,
        }
    }

    fn from_json(j: &Json) -> (r: Option<DisbursementMode>)
        ensures
            match r {
                Some(v) => Self::spec_decodable(*j) && v.spec_matches(*j),
                None => !Self::spec_decodable(*j),
            },
    {
        match j {
            Json::Str(s) => DisbursementMode::from_code(s.as_str()),
            _ => None,
        }
    }
}

impl Default for DisbursementMode {
    /// The default value.
    fn default() -> (r: Self)
        ensures
            r == DisbursementMode::Instant,
    {
        DisbursementMode::Instant
    }
}

/// Any additional payment instructions for PayPal Commerce Platform customers.
#[derive(Debug, Clone)]
pub struct PaymentInstruction {
    /// An array of various fees, commissions, tips, or donations.
    pub platform_fees: Option<Vec<PlatformFee>>,
    /// The funds that are held on behalf of the merchant.
    pub disbursement_mode: Option<DisbursementMode>,
}

impl FromJson for PaymentInstruction {
    /// Any additional payment instructions for PayPal Commerce Platform customers.
    open spec fn spec_decodable(j: Json) -> bool {
        &&& spec_opt_arr_decodable::<PlatformFee>(j, "platform_fees"@)
        &&& spec_opt_obj_decodable::<DisbursementMode>(j, "disbursement_mode"@)
    }

    open spec fn spec_matches(self, j: Json) -> bool {
        &&& spec_opt_arr_matches(
            match self.platform_fees {
                Some(v) => Some(v@),
                None => None,
            },
            j,
            "platform_fees"@,
        )
        &&& spec_opt_obj_matches(self.disbursement_mode, j, "disbursement_mode"@)
    }

    fn from_json(j: &Json) -> (r: Option<PaymentInstruction>)
        ensures
            match r {
                Some(v) => Self::spec_decodable(*j) && v.spec_matches(*j),
                None => !Self::spec_decodable(*j),
            },
    {
        let platform_fees = match get_opt_arr_of::<PlatformFee>(j, "platform_fees") {
            Some(v) => v,
            None => {
                return None;
            },
        };
        let disbursement_mode = match get_opt_obj::<DisbursementMode>(j, "disbursement_mode") {
            Some(v) => v,
            None => {
                return None;
            },
        };
        Some(PaymentInstruction { platform_fees, disbursement_mode })
    }
}

/// The item category type.
#[derive(Debug, Clone, Copy, PartialEq, Eq)]
pub enum ItemCategoryType {
    /// Goods that are stored, delivered, and used in their electronic format.
    Digital,
    /// A tangible item that can be shipped with proof of delivery.
    Physical,
}

impl ItemCategoryType {
    /// The wire name of this value.
    pub open spec fn spec_code(self) -> Seq<char> {
        match self {
            ItemCategoryType::Digital => "DIGITAL"@,
            ItemCategoryType::Physical => "PHYSICAL"@,
        }
    }

    /// The value a wire name names, if any.
    pub open spec fn spec_from_code(s: Seq<char>) -> Option<ItemCategoryType> {
        if s == "DIGITAL"@ {
            Some(ItemCategoryType::Digital)
        } else if s == "PHYSICAL"@ {
            Some(ItemCategoryType::Physical)
        } else {
            None
        }
    }

    /// Renders the wire name of this value.
    pub fn to_string(&self) -> (r: String)
        ensures
            r@ == self.spec_code(),
    {
        match self {
            ItemCategoryType::Digital => String::from_str("DIGITAL"),
            ItemCategoryType::Physical => String::from_str("PHYSICAL"),
        }
    }

    /// Parses a wire name.
    pub fn from_code(s: &str) -> (r: Option<ItemCategoryType>)
        ensures
            r == Self::spec_from_code(s@),
    {
        if str_eq(s, "DIGITAL") {
            Some(ItemCategoryType::Digital)
        } else if str_eq(s, "PHYSICAL") {
            Some(ItemCategoryType::Physical)
        } else {
            None
        }
    }
}

impl FromJson for ItemCategoryType {
    /// A string naming one of the values.
    open spec fn spec_decodable(j: Json) -> bool {
        match j {
            Json::Str(s) => Self::spec_from_code(s@) is Some,
            _ => false,
        }
    }

    open spec fn spec_matches(self, j: Json) -> bool {
        match j {
            Json::Str(s) => Self::spec_from_code(s@) == Some(self),
            _ => false,
        }
    }

    fn from_json(j: &Json) -> (r: Option<ItemCategoryType>)
        ensures
            match r {
                Some(v) => Self::spec_decodable(*j) && v.spec_matches(*j),
                None => !Self::spec_decodable(*j),
            },
    {
        match j {
            Json::Str(s) => ItemCategoryType::from_code(s.as_str()),
            _ => None,
        }
    }
}

impl Default for ItemCategoryType {
    /// The default value.
    fn default() -> (r: Self)
        ensures
            r == ItemCategoryType::Digital,
    {
        ItemCategoryType::Digital
    }
}

/// The name of the person to whom to ship the items.
#[derive(Debug, Clone)]
pub struct ShippingDetailName {
    /// The name of the person to whom to ship the items. Supports only the full_name property.
    pub full_name: String,
}

impl FromJson for ShippingDetailName {
    /// The name of the person to whom to ship the items.
    open spec fn spec_decodable(j: Json) -> bool {
        &&& j.spec_field_string("full_name"@) is Some
    }

    open spec fn spec_matches(self, j: Json) -> bool {
        &&& Some(self.full_name) == j.spec_field_string("full_name"@)
    }

    fn from_json(j: &Json) -> (r: Option<ShippingDetailName>)
        ensures
            match r {
                Some(v) => Self::spec_decodable(*j) && v.spec_matches(*j),
                None => !Self::spec_decodable(*j),
            },
    {
        let full_name = match j.get_str("full_name") {
            Some(v) => v,
            None => {
                return None;
            },
        };
        Some(ShippingDetailName { full_name })
    }
}

/// The name and address of the person to whom to ship the items.
#[derive(Debug, Clone)]
pub struct ShippingDetail {
    /// The name of the person to whom to ship the items.
    pub name: Option<ShippingDetailName>,
    /// The address of the person to whom to ship the items.
    pub address: Option<Address>,
}

impl FromJson for ShippingDetail {
    /// The name and address of the person to whom to ship the items.
    open spec fn spec_decodable(j: Json) -> bool {
        &&& spec_opt_obj_decodable::<ShippingDetailName>(j, "name"@)
        &&& spec_opt_obj_decodable::<Address>(j, "address"@)
    }

    open spec fn spec_matches(self, j: Json) -> bool {
        &&& spec_opt_obj_matches(self.name, j, "name"@)
        &&& spec_opt_obj_matches(self.address, j, "address"@)
    }

    fn from_json(j: &Json) -> (r: Option<ShippingDetail>)
        ensures
            match r {
                Some(v) => Self::spec_decodable(*j) && v.spec_matches(*j),
                None => !Self::spec_decodable(*j),
            },
    {
        let name = match get_opt_obj::<ShippingDetailName>(j, "name") {
            Some(v) => v,
            None => {
                return None;
            },
        };
        let address = match get_opt_obj::<Address>(j, "address") {
            Some(v) => v,
            None => {
                return None;
            },
        };
        Some(ShippingDetail { name, address })
    }
}

/// Represents an item.
#[derive(Debug, Clone)]
pub struct Item {
    /// The item name or title.
    pub name: String,
    /// The item price or rate per unit.
    pub unit_amount: Money,
    /// The item tax for each unit.
    pub tax: Option<Money>,
    /// The item quantity. Must be a whole number.
    pub quantity: String,
    /// The detailed item description.
    pub description: Option<String>,
    /// The stock keeping unit (SKU) for the item.
    pub sku: Option<String>,
    /// The item category type.
    pub category: Option<ItemCategoryType>,
}

impl FromJson for Item {
    /// Represents an item.
    open spec fn spec_decodable(j: Json) -> bool {
        &&& j.spec_field_string("name"@) is Some
        &&& spec_obj_decodable::<Money>(j, "unit_amount"@)
        &&& spec_opt_obj_decodable::<Money>(j, "tax"@)
        &&& j.spec_field_string("quantity"@) is Some
        &&& j.spec_field_opt_string("description"@) is Some
        &&& j.spec_field_opt_string("sku"@) is Some
        &&& spec_opt_obj_decodable::<ItemCategoryType>(j, "category"@)
    }

    open spec fn spec_matches(self, j: Json) -> bool {
        &&& Some(self.name) == j.spec_field_string("name"@)
        &&& spec_obj_matches(self.unit_amount, j, "unit_amount"@)
        &&& spec_opt_obj_matches(self.tax, j, "tax"@)
        &&& Some(self.quantity) == j.spec_field_string("quantity"@)
        &&& Some(self.description) == j.spec_field_opt_string("description"@)
        &&& Some(self.sku) == j.spec_field_opt_string("sku"@)
        &&& spec_opt_obj_matches(self.category, j, "category"@)
    }

    fn from_json(j: &Json) -> (r: Option<Item>)
        ensures
            match r {
                Some(v) => Self::spec_decodable(*j) && v.spec_matches(*j),
                None => !Self::spec_decodable(*j),
            },
    {
        let name = match j.get_str("name") {
            Some(v) => v,
            None => {
                return None;
            },
        };
        let unit_amount = match get_obj::<Money>(j, "unit_amount") {
            Some(v) => v,
            None => {
                return None;
            },
        };
        let tax = match get_opt_obj::<Money>(j, "tax") {
            Some(v) => v,
            None => {
                return None;
            },
        };
        let quantity = match j.get_str("quantity") {
            Some(v) => v,
            None => {
                return None;
            },
        };
        let description = match j.get_opt_str("description") {
            Some(v) => v,
            None => {
                return None;
            },
        };
        let sku = match j.get_opt_str("sku") {
            Some(v) => v,
            None => {
                return None;
            },
        };
        let category = match get_opt_obj::<ItemCategoryType>(j, "category") {
            Some(v) => v,
            None => {
                return None;
            },
        };
        Some(Item { name, unit_amount, tax, quantity, description, sku, category })
    }
}

/// The status of the payment authorization.
#[derive(Debug, Clone, Copy, PartialEq, Eq)]
pub enum AuthorizationStatus {
    /// The authorized payment is created. No captured payments have been made for this authorized payment.
    Created,
    /// The authorized payment has one or more captures against it.
    Captured,
    /// PayPal cannot authorize funds for this authorized payment.
    Denied,
    /// The authorized payment has expired.
    Expired,
    /// A captured payment was made for the authorized payment for an amount that is less than the original amount.
    PartiallyExpired,
    /// The payment which was authorized for an amount that is less than the originally requested amount.
    PartiallyCaptured,
    /// The authorized payment was voided. No more captured payments can be made against it.
    Voided,
    /// The created authorization is in pending state.
    Pending,
}

impl AuthorizationStatus {
    /// The wire name of this value.
    pub open spec fn spec_code(self) -> Seq<char> {
        match self {
            AuthorizationStatus::Created => "CREATED"@,
            AuthorizationStatus::Captured => "CAPTURED"@,
            AuthorizationStatus::Denied => "DENIED"@,
            AuthorizationStatus::Expired => "EXPIRED"@,
            AuthorizationStatus::PartiallyExpired => "PARTIALLY_EXPIRED"@,
            AuthorizationStatus::PartiallyCaptured => "PARTIALLY_CAPTURED"@,
            AuthorizationStatus::Voided => "VOIDED"@,
            AuthorizationStatus::Pending => "PENDING"@,
        }
    }

    /// The value a wire name names, if any.
    pub open spec fn spec_from_code(s: Seq<char>) -> Option<AuthorizationStatus> {
        if s == "CREATED"@ {
            Some(AuthorizationStatus::Created)
        } else if s == "CAPTURED"@ {
            Some(AuthorizationStatus::Captured)
        } else if s == "DENIED"@ {
            Some(AuthorizationStatus::Denied)
        } else if s == "EXPIRED"@ {
            Some(AuthorizationStatus::Expired)
        } else if s == "PARTIALLY_EXPIRED"@ {
            Some(AuthorizationStatus::PartiallyExpired)
        } else if s == "PARTIALLY_CAPTURED"@ {
            Some(AuthorizationStatus::PartiallyCaptured)
        } else if s == "VOIDED"@ {
            Some(AuthorizationStatus::Voided)
        } else if s == "PENDING"@ {
            Some(AuthorizationStatus::Pending)
        } else {
            None
        }
    }

    /// Renders the wire name of this value.
    pub fn to_string(&self) -> (r: String)
        ensures
            r@ == self.spec_code(),
    {
        match self {
            AuthorizationStatus::Created => String::from_str("CREATED"),
            AuthorizationStatus::Captured => String::from_str("CAPTURED"),
            AuthorizationStatus::Denied => String::from_str("DENIED"),
            AuthorizationStatus::Expired => String::from_str("EXPIRED"),
            AuthorizationStatus::PartiallyExpired => String::from_str("PARTIALLY_EXPIRED"),
            AuthorizationStatus::PartiallyCaptured => String::from_str("PARTIALLY_CAPTURED"),
            AuthorizationStatus::Voided => String::from_str("VOIDED"),
            AuthorizationStatus::Pending => String::from_str("PENDING"),
        }
    }

    /// Parses a wire name.
    pub fn from_code(s: &str) -> (r: Option<AuthorizationStatus>)
        ensures
            r == Self::spec_from_code(s@),
    {
        if str_eq(s, "CREATED") {
            Some(AuthorizationStatus::Created)
        } else if str_eq(s, "CAPTURED") {
            Some(AuthorizationStatus::Captured)
        } else if str_eq(s, "DENIED") {
            Some(AuthorizationStatus::Denied)
        } else if str_eq(s, "EXPIRED") {
            Some(AuthorizationStatus::Expired)
        } else if str_eq(s, "PARTIALLY_EXPIRED") {
            Some(AuthorizationStatus::PartiallyExpired)
        } else if str_eq(s, "PARTIALLY_CAPTURED") {
            Some(AuthorizationStatus::PartiallyCaptured)
        } else if str_eq(s, "VOIDED") {
            Some(AuthorizationStatus::Voided)
        } else if str_eq(s, "PENDING") {
            Some(AuthorizationStatus::Pending)
        } else {
            None
        }
    }
}

impl FromJson for AuthorizationStatus {
    /// A string naming one of the values.
    open spec fn spec_decodable(j: Json) -> bool {
        match j {
            Json::Str(s) => Self::spec_from_code(s@) is Some,
            _ => false,
        }
    }

    open spec fn spec_matches(self, j: Json) -> bool {
        match j {
            Json::Str(s) => Self::spec_from_code(s@) == Some(self),
            _ => false,
        }
    }

    fn from_json(j: &Json) -> (r: Option<AuthorizationStatus>)
        ensures
            match r {
                Some(v) => Self::spec_decodable(*j) && v.spec_matches(*j),
                None => !Self::spec_decodable(*j),
            },
    {
        match j {
            Json::Str(s) => AuthorizationStatus::from_code(s.as_str()),
            _ => None,
        }
    }
}

/// A payment authorization.
#[derive(Debug, Clone)]
pub struct AuthorizationWithData {
    /// The status for the authorized payment.
    pub status: AuthorizationStatus,
    /// The details of the authorized order pending status.
    pub status_details: AuthorizationStatusDetails,
}

impl FromJson for AuthorizationWithData {
    /// A payment authorization.
    open spec fn spec_decodable(j: Json) -> bool {
        &&& spec_obj_decodable::<AuthorizationStatus>(j, "status"@)
        &&& spec_obj_decodable::<AuthorizationStatusDetails>(j, "status_details"@)
    }

    open spec fn spec_matches(self, j: Json) -> bool {
        &&& spec_obj_matches(self.status, j, "status"@)
        &&& spec_obj_matches(self.status_details, j, "status_details"@)
    }

    fn from_json(j: &Json) -> (r: Option<AuthorizationWithData>)
        ensures
            match r {
                Some(v) => Self::spec_decodable(*j) && v.spec_matches(*j),
                None => !Self::spec_decodable(*j),
            },
    {
        let status = match get_obj::<AuthorizationStatus>(j, "status") {
            Some(v) => v,
            None => {
                return None;
            },
        };
        let status_details = match get_obj::<AuthorizationStatusDetails>(j, "status_details") {
            Some(v) => v,
            None => {
                return None;
            },
        };
        Some(AuthorizationWithData { status, status_details })
    }
}

/// The capture status.
#[derive(Debug, Clone, Copy, PartialEq, Eq)]
pub enum CaptureStatus {
    /// The funds for this captured payment were credited to the payee's PayPal account.
    Completed,
    /// The funds could not be captured.
    Declined,
    /// An amount less than this captured payment's amount was partially refunded to the payer.
    PartiallyRefunded,
    /// The funds for this captured payment were not yet credited to the payee's PayPal account.
    Pending,
    /// An amount greater than or equal to this captured payment's amount was refunded to the payer.
    Refunded,
}

impl CaptureStatus {
    /// The wire name of this value.
    pub open spec fn spec_code(self) -> Seq<char> {
        match self {
            CaptureStatus::Completed => "COMPLETED"@,
            CaptureStatus::Declined => "DECLINED"@,
            CaptureStatus::PartiallyRefunded => "PARTIALLY_REFUNDED"@,
            CaptureStatus::Pending => "PENDING"@,
            CaptureStatus::Refunded => "REFUNDED"@,
        }
    }

    /// The value a wire name names, if any.
    pub open spec fn spec_from_code(s: Seq<char>) -> Option<CaptureStatus> {
        if s == "COMPLETED"@ {
            Some(CaptureStatus::Completed)
        } else if s == "DECLINED"@ {
            Some(CaptureStatus::Declined)
        } else if s == "PARTIALLY_REFUNDED"@ {
            Some(CaptureStatus::PartiallyRefunded)
        } else if s == "PENDING"@ {
            Some(CaptureStatus::Pending)
        } else if s == "REFUNDED"@ {
            Some(CaptureStatus::Refunded)
        } else {
            None
        }
    }

    /// Renders the wire name of this value.
    pub fn to_string(&self) -> (r: String)
        ensures
            r@ == self.spec_code(),
    {
        match self {
            CaptureStatus::Completed => String::from_str("COMPLETED"),
            CaptureStatus::Declined => String::from_str("DECLINED"),
            CaptureStatus::PartiallyRefunded => String::from_str("PARTIALLY_REFUNDED"),
            CaptureStatus::Pending => String::from_str("PENDING"),
            CaptureStatus::Refunded => String::from_str("REFUNDED"),
        }
    }

    /// Parses a wire name.
    pub fn from_code(s: &str) -> (r: Option<CaptureStatus>)
        ensures
            r == Self::spec_from_code(s@),
    {
        if str_eq(s, "COMPLETED") {
            Some(CaptureStatus::Completed)
        } else if str_eq(s, "DECLINED") {
            Some(CaptureStatus::Declined)
        } else if str_eq(s, "PARTIALLY_REFUNDED") {
            Some(CaptureStatus::PartiallyRefunded)
        } else if str_eq(s, "PENDING") {
            Some(CaptureStatus::Pending)
        } else if str_eq(s, "REFUNDED") {
            Some(CaptureStatus::Refunded)
        } else {
            None
        }
    }
}

impl FromJson for CaptureStatus {
    /// A string naming one of the values.
    open spec fn spec_decodable(j: Json) -> bool {
        match j {
            Json::Str(s) => Self::spec_from_code(s@) is Some,
            _ => false,
        }
    }

    open spec fn spec_matches(self, j: Json) -> bool {
        match j {
            Json::Str(s) => Self::spec_from_code(s@) == Some(self),
            _ => false,
        }
    }

    fn from_json(j: &Json) -> (r: Option<CaptureStatus>)
        ensures
            match r {
                Some(v) => Self::spec_decodable(*j) && v.spec_matches(*j),
                None => !Self::spec_decodable(*j),
            },
    {
        match j {
            Json::Str(s) => CaptureStatus::from_code(s.as_str()),
            _ => None,
        }
    }
}

/// Capture status reason.
#[derive(Debug, Clone, Copy, PartialEq, Eq)]
pub enum CaptureStatusDetailsReason {
    /// The payer initiated a dispute for this captured payment with PayPal.
    BuyerComplaint,
    /// The captured funds were reversed in response to the payer disputing this captured payment.
    Chargeback,
    /// The payer paid by an eCheck that has not yet cleared.
    Echeck,
    /// Visit your online account to accept or deny this payment.
    InternationalWithdrawal,
    /// No additional specific reason can be provided.
    Other,
    /// The captured payment is pending manual review.
    PendingReview,
    /// The payee has not yet set up appropriate receiving preferences for their account.
    ReceivingPreferenceMandatesManualAction,
    /// The captured funds were refunded.
    Refunded,
    /// The payer must send the funds for this captured payment.
    TransactionApprovedAwaitingFunding,
    /// The payee does not have a PayPal account.
    Unilateral,
    /// The payee's PayPal account is not verified.
    VerificationRequired,
}

impl CaptureStatusDetailsReason {
    /// The wire name of this value.
    pub open spec fn spec_code(self) -> Seq<char> {
        match self {
            CaptureStatusDetailsReason::BuyerComplaint => "BUYER_COMPLAINT"@,
            CaptureStatusDetailsReason::Chargeback => "CHARGEBACK"@,
            CaptureStatusDetailsReason::Echeck => "ECHECK"@,
            CaptureStatusDetailsReason::InternationalWithdrawal => "INTERNATIONAL_WITHDRAWAL"@,
            CaptureStatusDetailsReason::Other => "OTHER"@,
            CaptureStatusDetailsReason::PendingReview => "PENDING_REVIEW"@,
            CaptureStatusDetailsReason::ReceivingPreferenceMandatesManualAction => "RECEIVING_PREFERENCE_MANDATES_MANUAL_ACTION"@,
            CaptureStatusDetailsReason::Refunded => "REFUNDED"@,
            CaptureStatusDetailsReason::TransactionApprovedAwaitingFunding => "TRANSACTION_APPROVED_AWAITING_FUNDING"@,
            CaptureStatusDetailsReason::Unilateral => "UNILATERAL"@,
            CaptureStatusDetailsReason::VerificationRequired => "VERIFICATION_REQUIRED"@,
        }
    }

    /// The value a wire name names, if any.
    pub open spec fn spec_from_code(s: Seq<char>) -> Option<CaptureStatusDetailsReason> {
        if s == "BUYER_COMPLAINT"@ {
            Some(CaptureStatusDetailsReason::BuyerComplaint)
        } else if s == "CHARGEBACK"@ {
            Some(CaptureStatusDetailsReason::Chargeback)
        } else if s == "ECHECK"@ {
            Some(CaptureStatusDetailsReason::Echeck)
        } else if s == "INTERNATIONAL_WITHDRAWAL"@ {
            Some(CaptureStatusDetailsReason::InternationalWithdrawal)
        } else if s == "OTHER"@ {
            Some(CaptureStatusDetailsReason::Other)
        } else if s == "PENDING_REVIEW"@ {
            Some(CaptureStatusDetailsReason::PendingReview)
        } else if s == "RECEIVING_PREFERENCE_MANDATES_MANUAL_ACTION"@ {
            Some(CaptureStatusDetailsReason::ReceivingPreferenceMandatesManualAction)
        } else if s == "REFUNDED"@ {
            Some(CaptureStatusDetailsReason::Refunded)
        } else if s == "TRANSACTION_APPROVED_AWAITING_FUNDING"@ {
            Some(CaptureStatusDetailsReason::TransactionApprovedAwaitingFunding)
        } else if s == "UNILATERAL"@ {
            Some(CaptureStatusDetailsReason::Unilateral)
        } else if s == "VERIFICATION_REQUIRED"@ {
            Some(CaptureStatusDetailsReason::VerificationRequired)
        } else {
            None
        }
    }

    /// Renders the wire name of this value.
    pub fn to_string(&self) -> (r: String)
        ensures
            r@ == self.spec_code(),
    {
        match self {
            CaptureStatusDetailsReason::BuyerComplaint => String::from_str("BUYER_COMPLAINT"),
            CaptureStatusDetailsReason::Chargeback => String::from_str("CHARGEBACK"),
            CaptureStatusDetailsReason::Echeck => String::from_str("ECHECK"),
            CaptureStatusDetailsReason::InternationalWithdrawal => String::from_str("INTERNATIONAL_WITHDRAWAL"),
            CaptureStatusDetailsReason::Other => String::from_str("OTHER"),
            CaptureStatusDetailsReason::PendingReview => String::from_str("PENDING_REVIEW"),
            CaptureStatusDetailsReason::ReceivingPreferenceMandatesManualAction => String::from_str("RECEIVING_PREFERENCE_MANDATES_MANUAL_ACTION"),
            CaptureStatusDetailsReason::Refunded => String::from_str("REFUNDED"),
            CaptureStatusDetailsReason::TransactionApprovedAwaitingFunding => String::from_str("TRANSACTION_APPROVED_AWAITING_FUNDING"),
            CaptureStatusDetailsReason::Unilateral => String::from_str("UNILATERAL"),
            CaptureStatusDetailsReason::VerificationRequired => String::from_str("VERIFICATION_REQUIRED"),
        }
    }

    /// Parses a wire name.
    pub fn from_code(s: &str) -> (r: Option<CaptureStatusDetailsReason>)
        ensures
            r == Self::spec_from_code(s@),
    {
        if str_eq(s, "BUYER_COMPLAINT") {
            Some(CaptureStatusDetailsReason::BuyerComplaint)
        } else if str_eq(s, "CHARGEBACK") {
            Some(CaptureStatusDetailsReason::Chargeback)
        } else if str_eq(s, "ECHECK") {
            Some(CaptureStatusDetailsReason::Echeck)
        } else if str_eq(s, "INTERNATIONAL_WITHDRAWAL") {
            Some(CaptureStatusDetailsReason::InternationalWithdrawal)
        } else if str_eq(s, "OTHER") {
            Some(CaptureStatusDetailsReason::Other)
        } else if str_eq(s, "PENDING_REVIEW") {
            Some(CaptureStatusDetailsReason::PendingReview)
        } else if str_eq(s, "RECEIVING_PREFERENCE_MANDATES_MANUAL_ACTION") {
            Some(CaptureStatusDetailsReason::ReceivingPreferenceMandatesManualAction)
        } else if str_eq(s, "REFUNDED") {
            Some(CaptureStatusDetailsReason::Refunded)
        } else if str_eq(s, "TRANSACTION_APPROVED_AWAITING_FUNDING") {
            Some(CaptureStatusDetailsReason::TransactionApprovedAwaitingFunding)
        } else if str_eq(s, "UNILATERAL") {
            Some(CaptureStatusDetailsReason::Unilateral)
        } else if str_eq(s, "VERIFICATION_REQUIRED") {
            Some(CaptureStatusDetailsReason::VerificationRequired)
        } else {
            None
        }
    }
}

impl FromJson for CaptureStatusDetailsReason {
    /// A string naming one of the values.
    open spec fn spec_decodable(j: Json) -> bool {
        match j {
            Json::Str(s) => Self::spec_from_code(s@) is Some,
            _ => false,
        }
    }

    open spec fn spec_matches(self, j: Json) -> bool {
        match j {
            Json::Str(s) => Self::spec_from_code(s@) == Some(self),
            _ => false,
        }
    }

    fn from_json(j: &Json) -> (r: Option<CaptureStatusDetailsReason>)
        ensures
            match r {
                Some(v) => Self::spec_decodable(*j) && v.spec_matches(*j),
                None => !Self::spec_decodable(*j),
            },
    {
        match j {
            Json::Str(s) => CaptureStatusDetailsReason::from_code(s.as_str()),
            _ => None,
        }
    }
}

/// Details about the captured payment status.
#[derive(Debug, Clone)]
pub struct CaptureStatusDetails {
    /// The reason why the captured payment status is PENDING or DENIED.
    pub reason: CaptureStatusDetailsReason,
}

impl FromJson for CaptureStatusDetails {
    /// Details about the captured payment status.
    open spec fn spec_decodable(j: Json) -> bool {
        &&& spec_obj_decodable::<CaptureStatusDetailsReason>(j, "reason"@)
    }

    open spec fn spec_matches(self, j: Json) -> bool {
        &&& spec_obj_matches(self.reason, j, "reason"@)
    }

    fn from_json(j: &Json) -> (r: Option<CaptureStatusDetails>)
        ensures
            match r {
                Some(v) => Self::spec_decodable(*j) && v.spec_matches(*j),
                None => !Self::spec_decodable(*j),
            },
    {
        let reason = match get_obj::<CaptureStatusDetailsReason>(j, "reason") {
            Some(v) => v,
            None => {
                return None;
            },
        };
        Some(CaptureStatusDetails { reason })
    }
}

/// A captured payment.
#[derive(Debug, Clone)]
pub struct Capture {
    /// The status of the captured payment.
    pub status: CaptureStatus,
    /// The details of the captured payment status.
    pub status_details: Option<CaptureStatusDetails>,
}

impl FromJson for Capture {
    /// A captured payment.
    open spec fn spec_decodable(j: Json) -> bool {
        &&& spec_obj_decodable::<CaptureStatus>(j, "status"@)
        &&& spec_opt_obj_decodable::<CaptureStatusDetails>(j, "status_details"@)
    }

    open spec fn spec_matches(self, j: Json) -> bool {
        &&& spec_obj_matches(self.status, j, "status"@)
        &&& spec_opt_obj_matches(self.status_details, j, "status_details"@)
    }

    fn from_json(j: &Json) -> (r: Option<Capture>)
        ensures
            match r {
                Some(v) => Self::spec_decodable(*j) && v.spec_matches(*j),
                None => !Self::spec_decodable(*j),
            },
    {
        let status = match get_obj::<CaptureStatus>(j, "status") {
            Some(v) => v,
            None => {
                return None;
            },
        };
        let status_details = match get_opt_obj::<CaptureStatusDetails>(j, "status_details") {
            Some(v) => v,
            None => {
                return None;
            },
        };
        Some(Capture { status, status_details })
    }
}

/// The status of the refund.
#[derive(Debug, Clone, Copy, PartialEq, Eq)]
pub enum RefundStatus {
    /// The refund was cancelled.
    Cancelled,
    /// The refund is pending.
    Pending,
    /// The funds for this transaction were debited to the customer's account.
    Completed,
}

impl RefundStatus {
    /// The wire name of this value.
    pub open spec fn spec_code(self) -> Seq<char> {
        match self {
            RefundStatus::Cancelled => "CANCELLED"@,
            RefundStatus::Pending => "PENDING"@,
            RefundStatus::Completed => "COMPLETED"@,
        }
    }

    /// The value a wire name names, if any.
    pub open spec fn spec_from_code(s: Seq<char>) -> Option<RefundStatus> {
        if s == "CANCELLED"@ {
            Some(RefundStatus::Cancelled)
        } else if s == "PENDING"@ {
            Some(RefundStatus::Pending)
        } else if s == "COMPLETED"@ {
            Some(RefundStatus::Completed)
        } else {
            None
        }
    }

    /// Renders the wire name of this value.
    pub fn to_string(&self) -> (r: String)
        ensures
            r@ == self.spec_code(),
    {
        match self {
            RefundStatus::Cancelled => String::from_str("CANCELLED"),
            RefundStatus::Pending => String::from_str("PENDING"),
            RefundStatus::Completed => String::from_str("COMPLETED"),
        }
    }

    /// Parses a wire name.
    pub fn from_code(s: &str) -> (r: Option<RefundStatus>)
        ensures
            r == Self::spec_from_code(s@),
    {
        if str_eq(s, "CANCELLED") {
            Some(RefundStatus::Cancelled)
        } else if str_eq(s, "PENDING") {
            Some(RefundStatus::Pending)
        } else if str_eq(s, "COMPLETED") {
            Some(RefundStatus::Completed)
        } else {
            None
        }
    }
}

impl FromJson for RefundStatus {
    /// A string naming one of the values.
    open spec fn spec_decodable(j: Json) -> bool {
        match j {
            Json::Str(s) => Self::spec_from_code(s@) is Some,
            _ => false,
        }
    }

    open spec fn spec_matches(self, j: Json) -> bool {
        match j {
            Json::Str(s) => Self::spec_from_code(s@) == Some(self),
            _ => false,
        }
    }

    fn from_json(j: &Json) -> (r: Option<RefundStatus>)
        ensures
            match r {
                Some(v) => Self::spec_decodable(*j) && v.spec_matches(*j),
                None => !Self::spec_decodable(*j),
            },
    {
        match j {
            Json::Str(s) => RefundStatus::from_code(s.as_str()),
            _ => None,
        }
    }
}

/// Refund status reason.
#[derive(Debug, Clone, Copy, PartialEq, Eq)]
pub enum RefundStatusDetailsReason {
    /// The customer's account is funded through an eCheck, which has not yet cleared.
    Echeck,
}

impl RefundStatusDetailsReason {
    /// The wire name of this value.
    pub open spec fn spec_code(self) -> Seq<char> {
        match self {
            RefundStatusDetailsReason::Echeck => "ECHECK"@,
        }
    }

    /// The value a wire name names, if any.
    pub open spec fn spec_from_code(s: Seq<char>) -> Option<RefundStatusDetailsReason> {
        if s == "ECHECK"@ {
            Some(RefundStatusDetailsReason::Echeck)
        } else {
            None
        }
    }

    /// Renders the wire name of this value.
    pub fn to_string(&self) -> (r: String)
        ensures
            r@ == self.spec_code(),
    {
        match self {
            RefundStatusDetailsReason::Echeck => String::from_str("ECHECK"),
        }
    }

    /// Parses a wire name.
    pub fn from_code(s: &str) -> (r: Option<RefundStatusDetailsReason>)
        ensures
            r == Self::spec_from_code(s@),
    {
        if str_eq(s, "ECHECK") {
            Some(RefundStatusDetailsReason::Echeck)
        } else {
            None
        }
    }
}

impl FromJson for RefundStatusDetailsReason {
    /// A string naming one of the values.
    open spec fn spec_decodable(j: Json) -> bool {
        match j {
            Json::Str(s) => Self::spec_from_code(s@) is Some,
            _ => false,
        }
    }

    open spec fn spec_matches(self, j: Json) -> bool {
        match j {
            Json::Str(s) => Self::spec_from_code(s@) == Some(self),
            _ => false,
        }
    }

    fn from_json(j: &Json) -> (r: Option<RefundStatusDetailsReason>)
        ensures
            match r {
                Some(v) => Self::spec_decodable(*j) && v.spec_matches(*j),
                None => !Self::spec_decodable(*j),
            },
    {
        match j {
            Json::Str(s) => RefundStatusDetailsReason::from_code(s.as_str()),
            _ => None,
        }
    }
}

/// Details about the status of the refund.
#[derive(Debug, Clone)]
pub struct RefundStatusDetails {
    /// The reason why the refund has the PENDING or FAILED status.
    pub reason: RefundStatusDetailsReason,
}

impl FromJson for RefundStatusDetails {
    /// Details about the status of the refund.
    open spec fn spec_decodable(j: Json) -> bool {
        &&& spec_obj_decodable::<RefundStatusDetailsReason>(j, "reason"@)
    }

    open spec fn spec_matches(self, j: Json) -> bool {
        &&& spec_obj_matches(self.reason, j, "reason"@)
    }

    fn from_json(j: &Json) -> (r: Option<RefundStatusDetails>)
        ensures
            match r {
                Some(v) => Self::spec_decodable(*j) && v.spec_matches(*j),
                None => !Self::spec_decodable(*j),
            },
    {
        let reason = match get_obj::<RefundStatusDetailsReason>(j, "reason") {
            Some(v) => v,
            None => {
                return None;
            },
        };
        Some(RefundStatusDetails { reason })
    }
}

/// Exchange rate.
#[derive(Debug, Clone)]
pub struct ExchangeRate {
    /// The source currency from which to convert an amount.
    pub source_currency: Currency,
    /// The target currency to which to convert an amount.
    pub target_currency: Currency,
    /// The target currency amount. Equivalent to one unit of the source currency.
    pub value: String,
}

impl FromJson for ExchangeRate {
    /// Exchange rate.
    open spec fn spec_decodable(j: Json) -> bool {
        &&& spec_obj_decodable::<Currency>(j, "source_currency"@)
        &&& spec_obj_decodable::<Currency>(j, "target_currency"@)
        &&& j.spec_field_string("value"@) is Some
    }

    open spec fn spec_matches(self, j: Json) -> bool {
        &&& spec_obj_matches(self.source_currency, j, "source_currency"@)
        &&& spec_obj_matches(self.target_currency, j, "target_currency"@)
        &&& Some(self.value) == j.spec_field_string("value"@)
    }

    fn from_json(j: &Json) -> (r: Option<ExchangeRate>)
        ensures
            match r {
                Some(v) => Self::spec_decodable(*j) && v.spec_matches(*j),
                None => !Self::spec_decodable(*j),
            },
    {
        let source_currency = match get_obj::<Currency>(j, "source_currency") {
            Some(v) => v,
            None => {
                return None;
            },
        };
        let target_currency = match get_obj::<Currency>(j, "target_currency") {
            Some(v) => v,
            None => {
                return None;
            },
        };
        let value = match j.get_str("value") {
            Some(v) => v,
            None => {
                return None;
            },
        };
        Some(ExchangeRate { source_currency, target_currency, value })
    }
}

/// The net breakdown of the refund.
#[derive(Debug, Clone)]
pub struct NetAmountBreakdown {
    /// The converted payable amount.
    pub converted_amount: Money,
    /// The exchange rate that determines the amount debited from the merchant's PayPal account.
    pub exchange_rate: ExchangeRate,
    /// The net amount debited from the merchant's PayPal account.
    pub payable_amount: Money,
}

impl FromJson for NetAmountBreakdown {
    /// The net breakdown of the refund.
    open spec fn spec_decodable(j: Json) -> bool {
        &&& spec_obj_decodable::<Money>(j, "converted_amount"@)
        &&& spec_obj_decodable::<ExchangeRate>(j, "exchange_rate"@)
        &&& spec_obj_decodable::<Money>(j, "payable_amount"@)
    }

    open spec fn spec_matches(self, j: Json) -> bool {
        &&& spec_obj_matches(self.converted_amount, j, "converted_amount"@)
        &&& spec_obj_matches(self.exchange_rate, j, "exchange_rate"@)
        &&& spec_obj_matches(self.payable_amount, j, "payable_amount"@)
    }

    fn from_json(j: &Json) -> (r: Option<NetAmountBreakdown>)
        ensures
            match r {
                Some(v) => Self::spec_decodable(*j) && v.spec_matches(*j),
                None => !Self::spec_decodable(*j),
            },
    {
        let converted_amount = match get_obj::<Money>(j, "converted_amount") {
            Some(v) => v,
            None => {
                return None;
            },
        };
        let exchange_rate = match get_obj::<ExchangeRate>(j, "exchange_rate") {
            Some(v) => v,
            None => {
                return None;
            },
        };
        let payable_amount = match get_obj::<Money>(j, "payable_amount") {
            Some(v) => v,
            None => {
                return None;
            },
        };
        Some(NetAmountBreakdown { converted_amount, exchange_rate, payable_amount })
    }
}

/// The breakdown of the refund.
#[derive(Debug, Clone)]
pub struct SellerPayableBreakdown {
    /// The amount that the payee refunded to the payer.
    pub gross_amount: Money,
    /// The net amount that the payee's account is debited in the transaction currency.
    pub net_amount: Money,
    /// An array of breakdown values for the net amount.
    pub net_amount_breakdown: Option<Vec<NetAmountBreakdown>>,
    /// The net amount that the payee's account is debited in the receivable currency.
    pub net_amount_in_receivable_currency: Option<Money>,
    /// The PayPal fee that was refunded to the payer in the currency of the transaction.
    pub paypal_fee: Money,
    /// The PayPal fee that was refunded to the payer in the receivable currency.
    pub paypal_fee_in_receivable_currency: Option<Money>,
    /// An array of platform or partner fees, commissions, or brokerage fees for the refund.
    pub platform_fees: Option<Vec<PlatformFee>>,
    /// The total amount refunded from the original capture to date.
    pub total_refunded_amount: Money,
}

impl FromJson for SellerPayableBreakdown {
    /// The breakdown of the refund.
    open spec fn spec_decodable(j: Json) -> bool {
        &&& spec_obj_decodable::<Money>(j, "gross_amount"@)
        &&& spec_obj_decodable::<Money>(j, "net_amount"@)
        &&& spec_opt_arr_decodable::<NetAmountBreakdown>(j, "net_amount_breakdown"@)
        &&& spec_opt_obj_decodable::<Money>(j, "net_amount_in_receivable_currency"@)
        &&& spec_obj_decodable::<Money>(j, "paypal_fee"@)
        &&& spec_opt_obj_decodable::<Money>(j, "paypal_fee_in_receivable_currency"@)
        &&& spec_opt_arr_decodable::<PlatformFee>(j, "platform_fees"@)
        &&& spec_obj_decodable::<Money>(j, "total_refunded_amount"@)
    }

    open spec fn spec_matches(self, j: Json) -> bool {
        &&& spec_obj_matches(self.gross_amount, j, "gross_amount"@)
        &&& spec_obj_matches(self.net_amount, j, "net_amount"@)
        &&& spec_opt_arr_matches(
            match self.net_amount_breakdown {
                Some(v) => Some(v@),
                None => None,
            },
            j,
            "net_amount_breakdown"@,
        )
        &&& spec_opt_obj_matches(self.net_amount_in_receivable_currency, j, "net_amount_in_receivable_currency"@)
        &&& spec_obj_matches(self.paypal_fee, j, "paypal_fee"@)
        &&& spec_opt_obj_matches(self.paypal_fee_in_receivable_currency, j, "paypal_fee_in_receivable_currency"@)
        &&& spec_opt_arr_matches(
            match self.platform_fees {
                Some(v) => Some(v@),
                None => None,
            },
            j,
            "platform_fees"@,
        )
        &&& spec_obj_matches(self.total_refunded_amount, j, "total_refunded_amount"@)
    }

    fn from_json(j: &Json) -> (r: Option<SellerPayableBreakdown>)
        ensures
            match r {
                Some(v) => Self::spec_decodable(*j) && v.spec_matches(*j),
                None => !Self::spec_decodable(*j),
            },
    {
        let gross_amount = match get_obj::<Money>(j, "gross_amount") {
            Some(v) => v,
            None => {
                return None;
            },
        };
        let net_amount = match get_obj::<Money>(j, "net_amount") {
            Some(v) => v,
            None => {
                return None;
            },
        };
        let net_amount_breakdown = match get_opt_arr_of::<NetAmountBreakdown>(j, "net_amount_breakdown") {
            Some(v) => v,
            None => {
                return None;
            },
        };
        let net_amount_in_receivable_currency = match get_opt_obj::<Money>(j, "net_amount_in_receivable_currency") {
            Some(v) => v,
            None => {
                return None;
            },
        };
        let paypal_fee = match get_obj::<Money>(j, "paypal_fee") {
            Some(v) => v,
            None => {
                return None;
            },
        };
        let paypal_fee_in_receivable_currency = match get_opt_obj::<Money>(j, "paypal_fee_in_receivable_currency") {
            Some(v) => v,
            None => {
                return None;
            },
        };
        let platform_fees = match get_opt_arr_of::<PlatformFee>(j, "platform_fees") {
            Some(v) => v,
            None => {
                return None;
            },
        };
        let total_refunded_amount = match get_obj::<Money>(j, "total_refunded_amount") {
            Some(v) => v,
            None => {
                return None;
            },
        };
        Some(SellerPayableBreakdown { gross_amount, net_amount, net_amount_breakdown, net_amount_in_receivable_currency, paypal_fee, paypal_fee_in_receivable_currency, platform_fees, total_refunded_amount })
    }
}

/// A refund.
#[derive(Debug, Clone)]
pub struct Refund {
    /// The status of the refund.
    pub status: RefundStatus,
    /// The details of the refund status.
    pub status_details: Option<RefundStatusDetails>,
    /// The PayPal-generated ID for the refund.
    pub id: String,
    /// The amount that the payee refunded to the payer.
    pub amount: Money,
    /// The API caller-provided external invoice number for this order.
    pub invoice_id: Option<String>,
    /// An array of related HATEOAS links.
    pub links: Vec<LinkDescription>,
    /// The reason for the refund.
    pub note_to_payer: Option<String>,
    /// The breakdown of the refund.
    pub seller_payable_breakdown: SellerPayableBreakdown,
}

impl FromJson for Refund {
    /// A refund.
    open spec fn spec_decodable(j: Json) -> bool {
        &&& spec_obj_decodable::<RefundStatus>(j, "status"@)
        &&& spec_opt_obj_decodable::<RefundStatusDetails>(j, "status_details"@)
        &&& j.spec_field_string("id"@) is Some
        &&& spec_obj_decodable::<Money>(j, "amount"@)
        &&& j.spec_field_opt_string("invoice_id"@) is Some
        &&& spec_arr_decodable::<LinkDescription>(j, "links"@)
        &&& j.spec_field_opt_string("note_to_payer"@) is Some
        &&& spec_obj_decodable::<SellerPayableBreakdown>(j, "seller_payable_breakdown"@)
    }

    open spec fn spec_matches(self, j: Json) -> bool {
        &&& spec_obj_matches(self.status, j, "status"@)
        &&& spec_opt_obj_matches(self.status_details, j, "status_details"@)
        &&& Some(self.id) == j.spec_field_string("id"@)
        &&& spec_obj_matches(self.amount, j, "amount"@)
        &&& Some(self.invoice_id) == j.spec_field_opt_string("invoice_id"@)
        &&& spec_arr_matches(self.links@, j, "links"@)
        &&& Some(self.note_to_payer) == j.spec_field_opt_string("note_to_payer"@)
        &&& spec_obj_matches(self.seller_payable_breakdown, j, "seller_payable_breakdown"@)
    }

    fn from_json(j: &Json) -> (r: Option<Refund>)
        ensures
            match r {
                Some(v) => Self::spec_decodable(*j) && v.spec_matches(*j),
                None => !Self::spec_decodable(*j),
            },
    {
        let status = match get_obj::<RefundStatus>(j, "status") {
            Some(v) => v,
            None => {
                return None;
            },
        };
        let status_details = match get_opt_obj::<RefundStatusDetails>(j, "status_details") {
            Some(v) => v,
            None => {
                return None;
            },
        };
        let id = match j.get_str("id") {
            Some(v) => v,
            None => {
                return None;
            },
        };
        let amount = match get_obj::<Money>(j, "amount") {
            Some(v) => v,
            None => {
                return None;
            },
        };
        let invoice_id = match j.get_opt_str("invoice_id") {
            Some(v) => v,
            None => {
                return None;
            },
        };
        let links = match get_arr_of::<LinkDescription>(j, "links") {
            Some(v) => v,
            None => {
                return None;
            },
        };
        let note_to_payer = match j.get_opt_str("note_to_payer") {
            Some(v) => v,
            None => {
                return None;
            },
        };
        let seller_payable_breakdown = match get_obj::<SellerPayableBreakdown>(j, "seller_payable_breakdown") {
            Some(v) => v,
            None => {
                return None;
            },
        };
        Some(Refund { status, status_details, id, amount, invoice_id, links, note_to_payer, seller_payable_breakdown })
    }
}

/// The comprehensive history of payments for the purchase unit.
#[derive(Debug, Clone)]
pub struct PaymentCollection {
    /// An array of authorized payments for a purchase unit.
    pub authorizations: Vec<AuthorizationWithData>,
    /// An array of captured payments for a purchase unit.
    pub captures: Vec<Capture>,
    /// An array of refunds for a purchase unit.
    pub refunds: Vec<Refund>,
}

impl FromJson for PaymentCollection {
    /// The comprehensive history of payments for the purchase unit.
    open spec fn spec_decodable(j: Json) -> bool {
        &&& match j.spec_get("authorizations"@) {
            None => true,
            Some(Json::Arr(es)) => spec_elems_decodable::<AuthorizationWithData>(es@),
            Some(_) => false,
        }
        &&& match j.spec_get("captures"@) {
            None => true,
            Some(Json::Arr(es)) => spec_elems_decodable::<Capture>(es@),
            Some(_) => false,
        }
        &&& match j.spec_get("refunds"@) {
            None => true,
            Some(Json::Arr(es)) => spec_elems_decodable::<Refund>(es@),
            Some(_) => false,
        }
    }

    open spec fn spec_matches(self, j: Json) -> bool {
        &&& match j.spec_get("authorizations"@) {
            None => self.authorizations@ == Seq::<AuthorizationWithData>::empty(),
            Some(Json::Arr(es)) => spec_elems_match(self.authorizations@, es@),
            Some(_) => false,
        }
        &&& match j.spec_get("captures"@) {
            None => self.captures@ == Seq::<Capture>::empty(),
            Some(Json::Arr(es)) => spec_elems_match(self.captures@, es@),
            Some(_) => false,
        }
        &&& match j.spec_get("refunds"@) {
            None => self.refunds@ == Seq::<Refund>::empty(),
            Some(Json::Arr(es)) => spec_elems_match(self.refunds@, es@),
            Some(_) => false,
        }
    }

    fn from_json(j: &Json) -> (r: Option<PaymentCollection>)
        ensures
            match r {
                Some(v) => Self::spec_decodable(*j) && v.spec_matches(*j),
                None => !Self::spec_decodable(*j),
            },
    {
        let authorizations: Vec<AuthorizationWithData> = match j.get("authorizations") {
            None => Vec::new(),
            Some(Json::Arr(es)) => match array_from_json::<AuthorizationWithData>(es) {
                Some(v) => v,
                None => {
                    return None;
                },
            },
            Some(_) => {
                return None;
            },
        };
        let captures: Vec<Capture> = match j.get("captures") {
            None => Vec::new(),
            Some(Json::Arr(es)) => match array_from_json::<Capture>(es) {
                Some(v) => v,
                None => {
                    return None;
                },
            },
            Some(_) => {
                return None;
            },
        };
        let refunds: Vec<Refund> = match j.get("refunds") {
            None => Vec::new(),
            Some(Json::Arr(es)) => match array_from_json::<Refund>(es) {
                Some(v) => v,
                None => {
                    return None;
                },
            },
            Some(_) => {
                return None;
            },
        };
        Some(PaymentCollection { authorizations, captures, refunds })
    }
}

/// Represents either a full or partial order that the payer intends to purchase from the payee.
#[derive(Debug, Clone)]
pub struct PurchaseUnit {
    /// The API caller-provided external ID for the purchase unit.
    pub reference_id: Option<String>,
    /// The total order amount with an optional breakdown.
    pub amount: Amount,
    /// The merchant who receives payment for this transaction.
    pub payee: Option<Payee>,
    /// Any additional payment instructions for PayPal Commerce Platform customers.
    pub payment_instruction: Option<PaymentInstruction>,
    /// The purchase description.
    pub description: Option<String>,
    /// The API caller-provided external ID, used to reconcile client transactions with PayPal transactions.
    pub custom_id: Option<String>,
    /// The API caller-provided external invoice number for this order.
    pub invoice_id: Option<String>,
    /// The PayPal-generated ID for the purchase unit.
    pub id: Option<String>,
    /// The dynamic text used to construct the statement descriptor on a payer's card statement.
    pub soft_descriptor: Option<String>,
    /// An array of items that the customer purchases from the merchant.
    pub items: Option<Vec<Item>>,
    /// The name and address of the person to whom to ship the items.
    pub shipping: Option<ShippingDetail>,
    /// The comprehensive history of payments for the purchase unit.
    pub payments: Option<PaymentCollection>,
}

impl FromJson for PurchaseUnit {
    /// Represents either a full or partial order that the payer intends to purchase from the payee.
    open spec fn spec_decodable(j: Json) -> bool {
        &&& j.spec_field_opt_string("reference_id"@) is Some
        &&& spec_obj_decodable::<Amount>(j, "amount"@)
        &&& spec_opt_obj_decodable::<Payee>(j, "payee"@)
        &&& spec_opt_obj_decodable::<PaymentInstruction>(j, "payment_instruction"@)
        &&& j.spec_field_opt_string("description"@) is Some
        &&& j.spec_field_opt_string("custom_id"@) is Some
        &&& j.spec_field_opt_string("invoice_id"@) is Some
        &&& j.spec_field_opt_string("id"@) is Some
        &&& j.spec_field_opt_string("soft_descriptor"@) is Some
        &&& spec_opt_arr_decodable::<Item>(j, "items"@)
        &&& spec_opt_obj_decodable::<ShippingDetail>(j, "shipping"@)
        &&& spec_opt_obj_decodable::<PaymentCollection>(j, "payments"@)
    }

    open spec fn spec_matches(self, j: Json) -> bool {
        &&& Some(self.reference_id) == j.spec_field_opt_string("reference_id"@)
        &&& spec_obj_matches(self.amount, j, "amount"@)
        &&& spec_opt_obj_matches(self.payee, j, "payee"@)
        &&& spec_opt_obj_matches(self.payment_instruction, j, "payment_instruction"@)
        &&& Some(self.description) == j.spec_field_opt_string("description"@)
        &&& Some(self.custom_id) == j.spec_field_opt_string("custom_id"@)
        &&& Some(self.invoice_id) == j.spec_field_opt_string("invoice_id"@)
        &&& Some(self.id) == j.spec_field_opt_string("id"@)
        &&& Some(self.soft_descriptor) == j.spec_field_opt_string("soft_descriptor"@)
        &&& spec_opt_arr_matches(
            match self.items {
                Some(v) => Some(v@),
                None => None,
            },
            j,
            "items"@,
        )
        &&& spec_opt_obj_matches(self.shipping, j, "shipping"@)
        &&& spec_opt_obj_matches(self.payments, j, "payments"@)
    }

    fn from_json(j: &Json) -> (r: Option<PurchaseUnit>)
        ensures
            match r {
                Some(v) => Self::spec_decodable(*j) && v.spec_matches(*j),
                None => !Self::spec_decodable(*j),
            },
    {
        let reference_id = match j.get_opt_str("reference_id") {
            Some(v) => v,
            None => {
                return None;
            },
        };
        let amount = match get_obj::<Amount>(j, "amount") {
            Some(v) => v,
            None => {
                return None;
            },
        };
        let payee = match get_opt_obj::<Payee>(j, "payee") {
            Some(v) => v,
            None => {
                return None;
            },
        };
        let payment_instruction = match get_opt_obj::<PaymentInstruction>(j, "payment_instruction") {
            Some(v) => v,
            None => {
                return None;
            },
        };
        let description = match j.get_opt_str("description") {
            Some(v) => v,
            None => {
                return None;
            },
        };
        let custom_id = match j.get_opt_str("custom_id") {
            Some(v) => v,
            None => {
                return None;
            },
        };
        let invoice_id = match j.get_opt_str("invoice_id") {
            Some(v) => v,
            None => {
                return None;
            },
        };
        let id = match j.get_opt_str("id") {
            Some(v) => v,
            None => {
                return None;
            },
        };
        let soft_descriptor = match j.get_opt_str("soft_descriptor") {
            Some(v) => v,
            None => {
                return None;
            },
        };
        let items = match get_opt_arr_of::<Item>(j, "items") {
            Some(v) => v,
            None => {
                return None;
            },
        };
        let shipping = match get_opt_obj::<ShippingDetail>(j, "shipping") {
            Some(v) => v,
            None => {
                return None;
            },
        };
        let payments = match get_opt_obj::<PaymentCollection>(j, "payments") {
            Some(v) => v,
            None => {
                return None;
            },
        };
        Some(PurchaseUnit { reference_id, amount, payee, payment_instruction, description, custom_id, invoice_id, id, soft_descriptor, items, shipping, payments })
    }
}

impl PurchaseUnit {
    /// Creates a new PurchaseUnit with the required properties.
    pub fn new(amount: Amount) -> (r: Self)
        ensures
            r.amount == amount,
            r.reference_id is None,
            r.payee is None,
            r.payment_instruction is None,
            r.description is None,
            r.custom_id is None,
            r.invoice_id is None,
            r.id is None,
            r.soft_descriptor is None,
            r.items is None,
            r.shipping is None,
            r.payments is None,
    {
        PurchaseUnit {
            reference_id: None,
            amount,
            payee: None,
            payment_instruction: None,
            description: None,
            custom_id: None,
            invoice_id: None,
            id: None,
            soft_descriptor: None,
            items: None,
            shipping: None,
            payments: None,
        }
    }
}

/// The type of landing page to show on the PayPal site for customer checkout.
#[derive(Debug, Clone, Copy, PartialEq, Eq)]
pub enum LandingPage {
    /// The customer is redirected to a page to log in to PayPal and approve the payment.
    Login,
    /// The customer is redirected to a page to enter card and billing information.
    Billing,
    /// The customer is redirected to either page depending on their previous interaction with PayPal.
    NoPreference,
}

impl LandingPage {
    /// The wire name of this value.
    pub open spec fn spec_code(self) -> Seq<char> {
        match self {
            LandingPage::Login => "LOGIN"@,
            LandingPage::Billing => "BILLING"@,
            LandingPage::NoPreference => "NO_PREFERENCE"@,
        }
    }

    /// The value a wire name names, if any.
    pub open spec fn spec_from_code(s: Seq<char>) -> Option<LandingPage> {
        if s == "LOGIN"@ {
            Some(LandingPage::Login)
        } else if s == "BILLING"@ {
            Some(LandingPage::Billing)
        } else if s == "NO_PREFERENCE"@ {
            Some(LandingPage::NoPreference)
        } else {
            None
        }
    }

    /// Renders the wire name of this value.
    pub fn to_string(&self) -> (r: String)
        ensures
            r@ == self.spec_code(),
    {
        match self {
            LandingPage::Login => String::from_str("LOGIN"),
            LandingPage::Billing => String::from_str("BILLING"),
            LandingPage::NoPreference => String::from_str("NO_PREFERENCE"),
        }
    }

    /// Parses a wire name.
    pub fn from_code(s: &str) -> (r: Option<LandingPage>)
        ensures
            r == Self::spec_from_code(s@),
    {
        if str_eq(s, "LOGIN") {
            Some(LandingPage::Login)
        } else if str_eq(s, "BILLING") {
            Some(LandingPage::Billing)
        } else if str_eq(s, "NO_PREFERENCE") {
            Some(LandingPage::NoPreference)
        } else {
            None
        }
    }
}

impl Default for LandingPage {
    /// The default value.
    fn default() -> (r: Self)
        ensures
            r == LandingPage::NoPreference,
    {
        LandingPage::NoPreference
    }
}

/// The shipping preference.
#[derive(Debug, Clone, Copy, PartialEq, Eq)]
pub enum ShippingPreference {
    /// Use the customer-provided shipping address on the PayPal site.
    GetFromFile,
    /// Redact the shipping address from the PayPal site. Recommended for digital goods.
    NoShipping,
    /// Use the merchant-provided address. The customer cannot change this address on the PayPal site.
    SetProvidedAddress,
}

impl ShippingPreference {
    /// The wire name of this value.
    pub open spec fn spec_code(self) -> Seq<char> {
        match self {
            ShippingPreference::GetFromFile => "GET_FROM_FILE"@,
            ShippingPreference::NoShipping => "NO_SHIPPING"@,
            ShippingPreference::SetProvidedAddress => "SET_PROVIDED_ADDRESS"@,
        }
    }

    /// The value a wire name names, if any.
    pub open spec fn spec_from_code(s: Seq<char>) -> Option<ShippingPreference> {
        if s == "GET_FROM_FILE"@ {
            Some(ShippingPreference::GetFromFile)
        } else if s == "NO_SHIPPING"@ {
            Some(ShippingPreference::NoShipping)
        } else if s == "SET_PROVIDED_ADDRESS"@ {
            Some(ShippingPreference::SetProvidedAddress)
        } else {
            None
        }
    }

    /// Renders the wire name of this value.
    pub fn to_string(&self) -> (r: String)
        ensures
            r@ == self.spec_code(),
    {
        match self {
            ShippingPreference::GetFromFile => String::from_str("GET_FROM_FILE"),
            ShippingPreference::NoShipping => String::from_str("NO_SHIPPING"),
            ShippingPreference::SetProvidedAddress => String::from_str("SET_PROVIDED_ADDRESS"),
        }
    }

    /// Parses a wire name.
    pub fn from_code(s: &str) -> (r: Option<ShippingPreference>)
        ensures
            r == Self::spec_from_code(s@),
    {
        if str_eq(s, "GET_FROM_FILE") {
            Some(ShippingPreference::GetFromFile)
        } else if str_eq(s, "NO_SHIPPING") {
            Some(ShippingPreference::NoShipping)
        } else if str_eq(s, "SET_PROVIDED_ADDRESS") {
            Some(ShippingPreference::SetProvidedAddress)
        } else {
            None
        }
    }
}

impl Default for ShippingPreference {
    /// The default value.
    fn default() -> (r: Self)
        ensures
            r == ShippingPreference::GetFromFile,
    {
        ShippingPreference::GetFromFile
    }
}

/// Configures a Continue or Pay Now checkout flow.
#[derive(Debug, Clone, Copy, PartialEq, Eq)]
pub enum UserAction {
    /// A Continue button appears on the PayPal payment page.
    Continue,
    /// A Pay Now button appears on the PayPal payment page.
    PayNow,
}

impl UserAction {
    /// The wire name of this value.
    pub open spec fn spec_code(self) -> Seq<char> {
        match self {
            UserAction::Continue => "CONTINUE"@,
            UserAction::PayNow => "PAY_NOW"@,
        }
    }

    /// The value a wire name names, if any.
    pub open spec fn spec_from_code(s: Seq<char>) -> Option<UserAction> {
        if s == "CONTINUE"@ {
            Some(UserAction::Continue)
        } else if s == "PAY_NOW"@ {
            Some(UserAction::PayNow)
        } else {
            None
        }
    }

    /// Renders the wire name of this value.
    pub fn to_string(&self) -> (r: String)
        ensures
            r@ == self.spec_code(),
    {
        match self {
            UserAction::Continue => String::from_str("CONTINUE"),
            UserAction::PayNow => String::from_str("PAY_NOW"),
        }
    }

    /// Parses a wire name.
    pub fn from_code(s: &str) -> (r: Option<UserAction>)
        ensures
            r == Self::spec_from_code(s@),
    {
        if str_eq(s, "CONTINUE") {
            Some(UserAction::Continue)
        } else if str_eq(s, "PAY_NOW") {
            Some(UserAction::PayNow)
        } else {
            None
        }
    }
}

impl Default for UserAction {
    /// The default value.
    fn default() -> (r: Self)
        ensures
            r == UserAction::Continue,
    {
        UserAction::Continue
    }
}

/// The merchant-preferred payment sources.
#[derive(Debug, Clone, Copy, PartialEq, Eq)]
pub enum PayeePreferred {
    /// Accepts any type of payment from the customer.
    Unrestricted,
    /// Accepts only immediate payment from the customer.
    ImmediatePaymentRequired,
}

impl PayeePreferred {
    /// The wire name of this value.
    pub open spec fn spec_code(self) -> Seq<char> {
        match self {
            PayeePreferred::Unrestricted => "UNRESTRICTED"@,
            PayeePreferred::ImmediatePaymentRequired => "IMMEDIATE_PAYMENT_REQUIRED"@,
        }
    }

    /// The value a wire name names, if any.
    pub open spec fn spec_from_code(s: Seq<char>) -> Option<PayeePreferred> {
        if s == "UNRESTRICTED"@ {
            Some(PayeePreferred::Unrestricted)
        } else if s == "IMMEDIATE_PAYMENT_REQUIRED"@ {
            Some(PayeePreferred::ImmediatePaymentRequired)
        } else {
            None
        }
    }

    /// Renders the wire name of this value.
    pub fn to_string(&self) -> (r: String)
        ensures
            r@ == self.spec_code(),
    {
        match self {
            PayeePreferred::Unrestricted => String::from_str("UNRESTRICTED"),
            PayeePreferred::ImmediatePaymentRequired => String::from_str("IMMEDIATE_PAYMENT_REQUIRED"),
        }
    }

    /// Parses a wire name.
    pub fn from_code(s: &str) -> (r: Option<PayeePreferred>)
        ensures
            r == Self::spec_from_code(s@),
    {
        if str_eq(s, "UNRESTRICTED") {
            Some(PayeePreferred::Unrestricted)
        } else if str_eq(s, "IMMEDIATE_PAYMENT_REQUIRED") {
            Some(PayeePreferred::ImmediatePaymentRequired)
        } else {
            None
        }
    }
}

impl Default for PayeePreferred {
    /// The default value.
    fn default() -> (r: Self)
        ensures
            r == PayeePreferred::Unrestricted,
    {
        PayeePreferred::Unrestricted
    }
}

/// A payment method.
#[derive(Debug, Clone)]
pub struct PaymentMethod {
    /// The customer-selected payment method on the merchant site.
    pub payer_selected: Option<String>,
    /// The merchant-preferred payment sources.
    pub payee_preferred: Option<PayeePreferred>,
}

/// Customize the payer experience during the approval process for the payment with PayPal.
#[derive(Debug, Clone)]
pub struct ApplicationContext {
    /// The label that overrides the business name in the PayPal account on the PayPal site.
    pub brand_name: Option<String>,
    /// The BCP 47-formatted locale of pages that the PayPal payment experience shows.
    pub locale: Option<String>,
    /// The type of landing page to show on the PayPal site for customer checkout.
    pub landing_page: Option<LandingPage>,
    /// The shipping preference.
    pub shipping_preference: Option<ShippingPreference>,
    /// Configures a Continue or Pay Now checkout flow.
    pub user_action: Option<UserAction>,
    /// The customer and merchant payment preferences.
    pub payment_method: Option<PaymentMethod>,
    /// The URL where the customer is redirected after the customer approves the payment.
    pub return_url: Option<String>,
    /// The URL where the customer is redirected after the customer cancels the payment.
    pub cancel_url: Option<String>,
}

/// An order payload to be used when creating an order.
#[derive(Debug, Clone)]
pub struct OrderPayload {
    /// The intent to either capture payment immediately or authorize a payment for an order after order creation.
    pub intent: Intent,
    /// The customer who approves and pays for the order.
    pub payer: Option<Payer>,
    /// An array of purchase units. Each establishes a contract between a payer and the payee.
    pub purchase_units: Vec<PurchaseUnit>,
    /// Customize the payer experience during the approval process.
    pub application_context: Option<ApplicationContext>,
}

impl OrderPayload {
    /// Creates a new order payload with the required properties.
    pub fn new(intent: Intent, purchase_units: Vec<PurchaseUnit>) -> (r: Self)
        ensures
            r.intent == intent,
            r.purchase_units == purchase_units,
            r.payer is None,
            r.application_context is None,
    {
        OrderPayload { intent, payer: None, purchase_units, application_context: None }
    }
}

/// The card brand or network.
#[derive(Debug, Clone, Copy, PartialEq, Eq)]
pub enum CardBrand {
    /// Visa card.
    Visa,
    /// Mastercard card.
    Mastercard,
    /// Discover card.
    Discover,
    /// American Express card.
    Amex,
    /// Solo debit card.
    Solo,
    /// Japan Credit Bureau card.
    JCB,
    /// Military Star card.
    Star,
    /// Delta Airlines card.
    Delta,
    /// Switch credit card.
    Switch,
    /// Maestro credit card.
    Maestro,
    /// Carte Bancaire (CB) credit card.
    CbNationale,
    /// Configoga credit card.
    Configoga,
    /// Confidis credit card.
    Confidis,
    /// Visa Electron credit card.
    Electron,
    /// Cetelem credit card.
    Cetelem,
    /// China union pay credit card.
    ChinaUnionPay,
}

impl CardBrand {
    /// The wire name of this value.
    pub open spec fn spec_code(self) -> Seq<char> {
        match self {
            CardBrand::Visa => "VISA"@,
            CardBrand::Mastercard => "MASTERCARD"@,
            CardBrand::Discover => "DISCOVER"@,
            CardBrand::Amex => "AMEX"@,
            CardBrand::Solo => "SOLO"@,
            CardBrand::JCB => "JCB"@,
            CardBrand::Star => "STAR"@,
            CardBrand::Delta => "DELTA"@,
            CardBrand::Switch => "SWITCH"@,
            CardBrand::Maestro => "MAESTRO"@,
            CardBrand::CbNationale => "CB_NATIONALE"@,
            CardBrand::Configoga => "CONFIGOGA"@,
            CardBrand::Confidis => "CONFIDIS"@,
            CardBrand::Electron => "ELECTRON"@,
            CardBrand::Cetelem => "CETELEM"@,
            CardBrand::ChinaUnionPay => "CHINA_UNION_PAY"@,
        }
    }

    /// The value a wire name names, if any.
    pub open spec fn spec_from_code(s: Seq<char>) -> Option<CardBrand> {
        if s == "VISA"@ {
            Some(CardBrand::Visa)
        } else if s == "MASTERCARD"@ {
            Some(CardBrand::Mastercard)
        } else if s == "DISCOVER"@ {
            Some(CardBrand::Discover)
        } else if s == "AMEX"@ {
            Some(CardBrand::Amex)
        } else if s == "SOLO"@ {
            Some(CardBrand::Solo)
        } else if s == "JCB"@ {
            Some(CardBrand::JCB)
        } else if s == "STAR"@ {
            Some(CardBrand::Star)
        } else if s == "DELTA"@ {
            Some(CardBrand::Delta)
        } else if s == "SWITCH"@ {
            Some(CardBrand::Switch)
        } else if s == "MAESTRO"@ {
            Some(CardBrand::Maestro)
        } else if s == "CB_NATIONALE"@ {
            Some(CardBrand::CbNationale)
        } else if s == "CONFIGOGA"@ {
            Some(CardBrand::Configoga)
        } else if s == "CONFIDIS"@ {
            Some(CardBrand::Confidis)
        } else if s == "ELECTRON"@ {
            Some(CardBrand::Electron)
        } else if s == "CETELEM"@ {
            Some(CardBrand::Cetelem)
        } else if s == "CHINA_UNION_PAY"@ {
            Some(CardBrand::ChinaUnionPay)
        } else {
            None
        }
    }

    /// Renders the wire name of this value.
    pub fn to_string(&self) -> (r: String)
        ensures
            r@ == self.spec_code(),
    {
        match self {
            CardBrand::Visa => String::from_str("VISA"),
            CardBrand::Mastercard => String::from_str("MASTERCARD"),
            CardBrand::Discover => String::from_str("DISCOVER"),
            CardBrand::Amex => String::from_str("AMEX"),
            CardBrand::Solo => String::from_str("SOLO"),
            CardBrand::JCB => String::from_str("JCB"),
            CardBrand::Star => String::from_str("STAR"),
            CardBrand::Delta => String::from_str("DELTA"),
            CardBrand::Switch => String::from_str("SWITCH"),
            CardBrand::Maestro => String::from_str("MAESTRO"),
            CardBrand::CbNationale => String::from_str("CB_NATIONALE"),
            CardBrand::Configoga => String::from_str("CONFIGOGA"),
            CardBrand::Confidis => String::from_str("CONFIDIS"),
            CardBrand::Electron => String::from_str("ELECTRON"),
            CardBrand::Cetelem => String::from_str("CETELEM"),
            CardBrand::ChinaUnionPay => String::from_str("CHINA_UNION_PAY"),
        }
    }

    /// Parses a wire name.
    pub fn from_code(s: &str) -> (r: Option<CardBrand>)
        ensures
            r == Self::spec_from_code(s@),
    {
        if str_eq(s, "VISA") {
            Some(CardBrand::Visa)
        } else if str_eq(s, "MASTERCARD") {
            Some(CardBrand::Mastercard)
        } else if str_eq(s, "DISCOVER") {
            Some(CardBrand::Discover)
        } else if str_eq(s, "AMEX") {
            Some(CardBrand::Amex)
        } else if str_eq(s, "SOLO") {
            Some(CardBrand::Solo)
        } else if str_eq(s, "JCB") {
            Some(CardBrand::JCB)
        } else if str_eq(s, "STAR") {
            Some(CardBrand::Star)
        } else if str_eq(s, "DELTA") {
            Some(CardBrand::Delta)
        } else if str_eq(s, "SWITCH") {
            Some(CardBrand::Switch)
        } else if str_eq(s, "MAESTRO") {
            Some(CardBrand::Maestro)
        } else if str_eq(s, "CB_NATIONALE") {
            Some(CardBrand::CbNationale)
        } else if str_eq(s, "CONFIGOGA") {
            Some(CardBrand::Configoga)
        } else if str_eq(s, "CONFIDIS") {
            Some(CardBrand::Confidis)
        } else if str_eq(s, "ELECTRON") {
            Some(CardBrand::Electron)
        } else if str_eq(s, "CETELEM") {
            Some(CardBrand::Cetelem)
        } else if str_eq(s, "CHINA_UNION_PAY") {
            Some(CardBrand::ChinaUnionPay)
        } else {
            None
        }
    }
}

impl FromJson for CardBrand {
    /// A string naming one of the values.
    open spec fn spec_decodable(j: Json) -> bool {
        match j {
            Json::Str(s) => Self::spec_from_code(s@) is Some,
            _ => false,
        }
    }

    open spec fn spec_matches(self, j: Json) -> bool {
        match j {
            Json::Str(s) => Self::spec_from_code(s@) == Some(self),
            _ => false,
        }
    }

    fn from_json(j: &Json) -> (r: Option<CardBrand>)
        ensures
            match r {
                Some(v) => Self::spec_decodable(*j) && v.spec_matches(*j),
                None => !Self::spec_decodable(*j),
            },
    {
        match j {
            Json::Str(s) => CardBrand::from_code(s.as_str()),
            _ => None,
        }
    }
}

/// The payment card type.
#[derive(Debug, Clone, Copy, PartialEq, Eq)]
pub enum CardType {
    /// A credit card.
    Credit,
    /// A debit card.
    Debit,
    /// A prepaid card.
    Prepaid,
    /// A card of unknown type.
    Unknown,
}

impl CardType {
    /// The wire name of this value.
    pub open spec fn spec_code(self) -> Seq<char> {
        match self {
            CardType::Credit => "CREDIT"@,
            CardType::Debit => "DEBIT"@,
            CardType::Prepaid => "PREPAID"@,
            CardType::Unknown => "UNKNOWN"@,
        }
    }

    /// The value a wire name names, if any.
    pub open spec fn spec_from_code(s: Seq<char>) -> Option<CardType> {
        if s == "CREDIT"@ {
            Some(CardType::Credit)
        } else if s == "DEBIT"@ {
            Some(CardType::Debit)
        } else if s == "PREPAID"@ {
            Some(CardType::Prepaid)
        } else if s == "UNKNOWN"@ {
            Some(CardType::Unknown)
        } else {
            None
        }
    }

    /// Renders the wire name of this value.
    pub fn to_string(&self) -> (r: String)
        ensures
            r@ == self.spec_code(),
    {
        match self {
            CardType::Credit => String::from_str("CREDIT"),
            CardType::Debit => String::from_str("DEBIT"),
            CardType::Prepaid => String::from_str("PREPAID"),
            CardType::Unknown => String::from_str("UNKNOWN"),
        }
    }

    /// Parses a wire name.
    pub fn from_code(s: &str) -> (r: Option<CardType>)
        ensures
            r == Self::spec_from_code(s@),
    {
        if str_eq(s, "CREDIT") {
            Some(CardType::Credit)
        } else if str_eq(s, "DEBIT") {
            Some(CardType::Debit)
        } else if str_eq(s, "PREPAID") {
            Some(CardType::Prepaid)
        } else if str_eq(s, "UNKNOWN") {
            Some(CardType::Unknown)
        } else {
            None
        }
    }
}

impl FromJson for CardType {
    /// A string naming one of the values.
    open spec fn spec_decodable(j: Json) -> bool {
        match j {
            Json::Str(s) => Self::spec_from_code(s@) is Some,
            _ => false,
        }
    }

    open spec fn spec_matches(self, j: Json) -> bool {
        match j {
            Json::Str(s) => Self::spec_from_code(s@) == Some(self),
            _ => false,
        }
    }

    fn from_json(j: &Json) -> (r: Option<CardType>)
        ensures
            match r {
                Some(v) => Self::spec_decodable(*j) && v.spec_matches(*j),
                None => !Self::spec_decodable(*j),
            },
    {
        match j {
            Json::Str(s) => CardType::from_code(s.as_str()),
            _ => None,
        }
    }
}

/// The payment card to use to fund a payment.
#[derive(Debug, Clone)]
pub struct CardResponse {
    /// The last digits of the payment card.
    pub last_digits: String,
    /// The card brand or network.
    pub brand: CardBrand,
    /// The payment card type.
    pub card_type: CardType,
}

impl FromJson for CardResponse {
    /// The payment card to use to fund a payment.
    open spec fn spec_decodable(j: Json) -> bool {
        &&& j.spec_field_string("last_digits"@) is Some
        &&& spec_obj_decodable::<CardBrand>(j, "brand"@)
        &&& spec_obj_decodable::<CardType>(j, "type"@)
    }

    open spec fn spec_matches(self, j: Json) -> bool {
        &&& Some(self.last_digits) == j.spec_field_string("last_digits"@)
        &&& spec_obj_matches(self.brand, j, "brand"@)
        &&& spec_obj_matches(self.card_type, j, "type"@)
    }

    fn from_json(j: &Json) -> (r: Option<CardResponse>)
        ensures
            match r {
                Some(v) => Self::spec_decodable(*j) && v.spec_matches(*j),
                None => !Self::spec_decodable(*j),
            },
    {
        let last_digits = match j.get_str("last_digits") {
            Some(v) => v,
            None => {
                return None;
            },
        };
        let brand = match get_obj::<CardBrand>(j, "brand") {
            Some(v) => v,
            None => {
                return None;
            },
        };
        let card_type = match get_obj::<CardType>(j, "type") {
            Some(v) => v,
            None => {
                return None;
            },
        };
        Some(CardResponse { last_digits, brand, card_type })
    }
}

/// The customer's wallet used to fund the transaction.
#[derive(Debug, Clone)]
pub struct WalletResponse {
    /// Apple Pay wallet response information.
    pub apple_pay: CardResponse,
}

impl FromJson for WalletResponse {
    /// The customer's wallet used to fund the transaction.
    open spec fn spec_decodable(j: Json) -> bool {
        &&& spec_obj_decodable::<CardResponse>(j, "apple_pay"@)
    }

    open spec fn spec_matches(self, j: Json) -> bool {
        &&& spec_obj_matches(self.apple_pay, j, "apple_pay"@)
    }

    fn from_json(j: &Json) -> (r: Option<WalletResponse>)
        ensures
            match r {
                Some(v) => Self::spec_decodable(*j) && v.spec_matches(*j),
                None => !Self::spec_decodable(*j),
            },
    {
        let apple_pay = match get_obj::<CardResponse>(j, "apple_pay") {
            Some(v) => v,
            None => {
                return None;
            },
        };
        Some(WalletResponse { apple_pay })
    }
}

/// The payment source used to fund the payment.
#[derive(Debug, Clone)]
pub struct PaymentSourceResponse {
    /// The payment card to use to fund a payment.
    pub card: CardResponse,
    /// The customer's wallet used to fund the transaction.
    pub wallet: WalletResponse,
}

impl FromJson for PaymentSourceResponse {
    /// The payment source used to fund the payment.
    open spec fn spec_decodable(j: Json) -> bool {
        &&& spec_obj_decodable::<CardResponse>(j, "card"@)
        &&& spec_obj_decodable::<WalletResponse>(j, "wallet"@)
    }

    open spec fn spec_matches(self, j: Json) -> bool {
        &&& spec_obj_matches(self.card, j, "card"@)
        &&& spec_obj_matches(self.wallet, j, "wallet"@)
    }

    fn from_json(j: &Json) -> (r: Option<PaymentSourceResponse>)
        ensures
            match r {
                Some(v) => Self::spec_decodable(*j) && v.spec_matches(*j),
                None => !Self::spec_decodable(*j),
            },
    {
        let card = match get_obj::<CardResponse>(j, "card") {
            Some(v) => v,
            None => {
                return None;
            },
        };
        let wallet = match get_obj::<WalletResponse>(j, "wallet") {
            Some(v) => v,
            None => {
                return None;
            },
        };
        Some(PaymentSourceResponse { card, wallet })
    }
}

/// The status of an order.
#[derive(Debug, Clone, Copy, PartialEq, Eq)]
pub enum OrderStatus {
    /// The order was created with the specified context.
    Created,
    /// The order was saved and persisted.
    Saved,
    /// The customer approved the payment.
    Approved,
    /// All purchase units in the order are voided.
    Voided,
    /// The payment was authorized or the authorized payment was captured for the order.
    Completed,
}

impl OrderStatus {
    /// The wire name of this value.
    pub open spec fn spec_code(self) -> Seq<char> {
        match self {
            OrderStatus::Created => "CREATED"@,
            OrderStatus::Saved => "SAVED"@,
            OrderStatus::Approved => "APPROVED"@,
            OrderStatus::Voided => "VOIDED"@,
            OrderStatus::Completed => "COMPLETED"@,
        }
    }

    /// The value a wire name names, if any.
    pub open spec fn spec_from_code(s: Seq<char>) -> Option<OrderStatus> {
        if s == "CREATED"@ {
            Some(OrderStatus::Created)
        } else if s == "SAVED"@ {
            Some(OrderStatus::Saved)
        } else if s == "APPROVED"@ {
            Some(OrderStatus::Approved)
        } else if s == "VOIDED"@ {
            Some(OrderStatus::Voided)
        } else if s == "COMPLETED"@ {
            Some(OrderStatus::Completed)
        } else {
            None
        }
    }

    /// Renders the wire name of this value.
    pub fn to_string(&self) -> (r: String)
        ensures
            r@ == self.spec_code(),
    {
        match self {
            OrderStatus::Created => String::from_str("CREATED"),
            OrderStatus::Saved => String::from_str("SAVED"),
            OrderStatus::Approved => String::from_str("APPROVED"),
            OrderStatus::Voided => String::from_str("VOIDED"),
            OrderStatus::Completed => String::from_str("COMPLETED"),
        }
    }

    /// Parses a wire name.
    pub fn from_code(s: &str) -> (r: Option<OrderStatus>)
        ensures
            r == Self::spec_from_code(s@),
    {
        if str_eq(s, "CREATED") {
            Some(OrderStatus::Created)
        } else if str_eq(s, "SAVED") {
            Some(OrderStatus::Saved)
        } else if str_eq(s, "APPROVED") {
            Some(OrderStatus::Approved)
        } else if str_eq(s, "VOIDED") {
            Some(OrderStatus::Voided)
        } else if str_eq(s, "COMPLETED") {
            Some(OrderStatus::Completed)
        } else {
            None
        }
    }
}

impl FromJson for OrderStatus {
    /// A string naming one of the values.
    open spec fn spec_decodable(j: Json) -> bool {
        match j {
            Json::Str(s) => Self::spec_from_code(s@) is Some,
            _ => false,
        }
    }

    open spec fn spec_matches(self, j: Json) -> bool {
        match j {
            Json::Str(s) => Self::spec_from_code(s@) == Some(self),
            _ => false,
        }
    }

    fn from_json(j: &Json) -> (r: Option<OrderStatus>)
        ensures
            match r {
                Some(v) => Self::spec_decodable(*j) && v.spec_matches(*j),
                None => !Self::spec_decodable(*j),
            },
    {
        match j {
            Json::Str(s) => OrderStatus::from_code(s.as_str()),
            _ => None,
        }
    }
}

/// An order represents a payment between two or more parties.
#[derive(Debug, Clone)]
pub struct Order {
    /// The date and time when the transaction occurred, as RFC 3339 text.
    pub create_time: Option<String>,
    /// The date and time when the transaction was last updated, as RFC 3339 text.
    pub update_time: Option<String>,
    /// The ID of the order.
    pub id: String,
    /// The payment source used to fund the payment.
    pub payment_source: Option<PaymentSourceResponse>,
    /// The intent to either capture payment immediately or authorize a payment.
    pub intent: Option<Intent>,
    /// The customer who approves and pays for the order.
    pub payer: Option<Payer>,
    /// An array of purchase units.
    pub purchase_units: Option<Vec<PurchaseUnit>>,
    /// The order status.
    pub status: OrderStatus,
    /// An array of request-related HATEOAS links.
    pub links: Vec<LinkDescription>,
}

impl FromJson for Order {
    /// An order represents a payment between two or more parties.
    open spec fn spec_decodable(j: Json) -> bool {
        &&& j.spec_field_opt_string("create_time"@) is Some
        &&& j.spec_field_opt_string("update_time"@) is Some
        &&& j.spec_field_string("id"@) is Some
        &&& spec_opt_obj_decodable::<PaymentSourceResponse>(j, "payment_source"@)
        &&& spec_opt_obj_decodable::<Intent>(j, "intent"@)
        &&& spec_opt_obj_decodable::<Payer>(j, "payer"@)
        &&& spec_opt_arr_decodable::<PurchaseUnit>(j, "purchase_units"@)
        &&& spec_obj_decodable::<OrderStatus>(j, "status"@)
        &&& spec_arr_decodable::<LinkDescription>(j, "links"@)
    }

    open spec fn spec_matches(self, j: Json) -> bool {
        &&& Some(self.create_time) == j.spec_field_opt_string("create_time"@)
        &&& Some(self.update_time) == j.spec_field_opt_string("update_time"@)
        &&& Some(self.id) == j.spec_field_string("id"@)
        &&& spec_opt_obj_matches(self.payment_source, j, "payment_source"@)
        &&& spec_opt_obj_matches(self.intent, j, "intent"@)
        &&& spec_opt_obj_matches(self.payer, j, "payer"@)
        &&& spec_opt_arr_matches(
            match self.purchase_units {
                Some(v) => Some(v@),
                None => None,
            },
            j,
            "purchase_units"@,
        )
        &&& spec_obj_matches(self.status, j, "status"@)
        &&& spec_arr_matches(self.links@, j, "links"@)
    }

    fn from_json(j: &Json) -> (r: Option<Order>)
        ensures
            match r {
                Some(v) => Self::spec_decodable(*j) && v.spec_matches(*j),
                None => !Self::spec_decodable(*j),
            },
    {
        let create_time = match j.get_opt_str("create_time") {
            Some(v) => v,
            None => {
                return None;
            },
        };
        let update_time = match j.get_opt_str("update_time") {
            Some(v) => v,
            None => {
                return None;
            },
        };
        let id = match j.get_str("id") {
            Some(v) => v,
            None => {
                return None;
            },
        };
        let payment_source = match get_opt_obj::<PaymentSourceResponse>(j, "payment_source") {
            Some(v) => v,
            None => {
                return None;
            },
        };
        let intent = match get_opt_obj::<Intent>(j, "intent") {
            Some(v) => v,
            None => {
                return None;
            },
        };
        let payer = match get_opt_obj::<Payer>(j, "payer") {
            Some(v) => v,
            None => {
                return None;
            },
        };
        let purchase_units = match get_opt_arr_of::<PurchaseUnit>(j, "purchase_units") {
            Some(v) => v,
            None => {
                return None;
            },
        };
        let status = match get_obj::<OrderStatus>(j, "status") {
            Some(v) => v,
            None => {
                return None;
            },
        };
        let links = match get_arr_of::<LinkDescription>(j, "links") {
            Some(v) => v,
            None => {
                return None;
            },
        };
        Some(Order { create_time, update_time, id, payment_source, intent, payer, purchase_units, status, links })
    }
}

/// An invoice number.
#[derive(Debug, Clone)]
pub struct InvoiceNumber {
    /// The invoice number.
    pub invoice_number: String,
}

impl FromJson for InvoiceNumber {
    /// An invoice number.
    open spec fn spec_decodable(j: Json) -> bool {
        &&& j.spec_field_string("invoice_number"@) is Some
    }

    open spec fn spec_matches(self, j: Json) -> bool {
        &&& Some(self.invoice_number) == j.spec_field_string("invoice_number"@)
    }

    fn from_json(j: &Json) -> (r: Option<InvoiceNumber>)
        ensures
            match r {
                Some(v) => Self::spec_decodable(*j) && v.spec_matches(*j),
                None => !Self::spec_decodable(*j),
            },
    {
        let invoice_number = match j.get_str("invoice_number") {
            Some(v) => v,
            None => {
                return None;
            },
        };
        Some(InvoiceNumber { invoice_number })
    }
}

} // verus!
