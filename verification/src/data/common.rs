//! Common PayPal object definitions used by two or more APIs.

use vstd::prelude::*;

verus! {

use crate::errors::InvalidCurrencyError;
use crate::json::{
    get_arr_of, get_obj, get_opt_obj, spec_arr_decodable, spec_arr_matches, spec_obj_decodable,
    spec_obj_matches, spec_opt_obj_decodable, spec_opt_obj_matches, FromJson, Json,
};
use crate::strutil::str_eq;
use vstd::string::StringExecFns;

/// The phone type.
///
/// <https://developer.paypal.com/docs/api/orders/v2/#definition-phone_with_type>
#[derive(Debug, Clone, Copy, PartialEq, Eq)]
#[allow(missing_docs)]
pub enum PhoneType {
    Fax,
    Home,
    Mobile,
    Other,
    Pager,
}

/// The non-portable additional address details.
#[derive(Debug, Default, Clone)]
pub struct AddressDetails {
    /// The street number.
    pub street_number: Option<String>,
    /// The street name. Just Drury in Drury Lane.
    pub street_name: Option<String>,
    /// The street type. For example, avenue, boulevard, road, or expressway.
    pub street_type: Option<String>,
    /// The delivery service. Post office box, bag number, or post office name.
    pub delivery_service: Option<String>,
    /// A named location that represents the premise. Usually a building name or number.
    pub building_name: Option<String>,
    /// The first-order entity below a named building or location that represents the sub-premise.
    pub sub_building: Option<String>,
}

/// The address of the payer.
#[derive(Debug, Default, Clone)]
pub struct Address {
    /// The first line of the address. For example, number or street.
    pub address_line_1: Option<String>,
    /// The second line of the address. For example, suite or apartment number.
    pub address_line_2: Option<String>,
    /// A city, town, or village. Smaller than admin_area_level_1.
    pub admin_area_2: Option<String>,
    /// The highest level sub-division in a country, such as a province or state.
    pub admin_area_1: Option<String>,
    /// The postal code, which is the zip code or equivalent.
    pub postal_code: Option<String>,
    /// The two-character ISO 3166-1 code that identifies the country or region.
    pub country_code: String,
    /// The non-portable additional address details.
    pub address_details: Option<AddressDetails>,
}

/// ISO-4217 currency codes.
#[derive(Debug, Clone, Copy, PartialEq, Eq, Hash)]
pub enum Currency {
    /// Australian dollar
    AUD,
    /// Brazilian real, supported for in country paypal accounts only.
    BRL,
    /// Canadian dollar
    CAD,
    /// Chinese Renmenbi
    CNY,
    /// Czech koruna
    CZK,
    /// Danish krone
    DKK,
    /// Euro
    EUR,
    /// Hong Kong dollar
    HKD,
    /// Hungarian forint, does not support decimals.
    HUF,
    /// Indian rupee, supported for in country paypal india accounts only.
    INR,
    /// Israeli new shekel
    ILS,
    /// Japanese yen, does not support decimals.
    JPY,
    /// Malaysian ringgit
    MYR,
    /// Mexican peso
    MXN,
    /// New Taiwan dollar, does not support decimals.
    TWD,
    /// New Zealand dollar
    NZD,
    /// Norwegian krone
    NOK,
    /// Philippine peso
    PHP,
    /// Polish zloty
    PLN,
    /// Pound sterling
    GBP,
    /// Russian ruble
    RUB,
    /// Singapore dollar
    SGD,
    /// Swedish krona
    SEK,
    /// Swiss franc
    CHF,
    /// Thai baht
    THB,
    /// United States dollar
    USD,
}

impl Currency {
    /// The three-letter code of this currency.
    pub open spec fn spec_code(self) -> Seq<char> {
        match self {
            Currency::AUD => "AUD"@,
            Currency::BRL => "BRL"@,
            Currency::CAD => "CAD"@,
            Currency::CNY => "CNY"@,
            Currency::CZK => "CZK"@,
            Currency::DKK => "DKK"@,
            Currency::EUR => "EUR"@,
            Currency::HKD => "HKD"@,
            Currency::HUF => "HUF"@,
            Currency::INR => "INR"@,
            Currency::ILS => "ILS"@,
            Currency::JPY => "JPY"@,
            Currency::MYR => "MYR"@,
            Currency::MXN => "MXN"@,
            Currency::TWD => "TWD"@,
            Currency::NZD => "NZD"@,
            Currency::NOK => "NOK"@,
            Currency::PHP => "PHP"@,
            Currency::PLN => "PLN"@,
            Currency::GBP => "GBP"@,
            Currency::RUB => "RUB"@,
            Currency::SGD => "SGD"@,
            Currency::SEK => "SEK"@,
            Currency::CHF => "CHF"@,
            Currency::THB => "THB"@,
            Currency::USD => "USD"@,
        }
    }

    /// The currency a three-letter code names, if any.
    pub open spec fn spec_from_code(s: Seq<char>) -> Option<Currency> {
        if s == "AUD"@ {
            Some(Currency::AUD)
        } else if s == "BRL"@ {
            Some(Currency::BRL)
        } else if s == "CAD"@ {
            Some(Currency::CAD)
        } else if s == "CNY"@ {
            Some(Currency::CNY)
        } else if s == "CZK"@ {
            Some(Currency::CZK)
        } else if s == "DKK"@ {
            Some(Currency::DKK)
        } else if s == "EUR"@ {
            Some(Currency::EUR)
        } else if s == "HKD"@ {
            Some(Currency::HKD)
        } else if s == "HUF"@ {
            Some(Currency::HUF)
        } else if s == "INR"@ {
            Some(Currency::INR)
        } else if s == "ILS"@ {
            Some(Currency::ILS)
        } else if s == "JPY"@ {
            Some(Currency::JPY)
        } else if s == "MYR"@ {
            Some(Currency::MYR)
        } else if s == "MXN"@ {
            Some(Currency::MXN)
        } else if s == "TWD"@ {
            Some(Currency::TWD)
        } else if s == "NZD"@ {
            Some(Currency::NZD)
        } else if s == "NOK"@ {
            Some(Currency::NOK)
        } else if s == "PHP"@ {
            Some(Currency::PHP)
        } else if s == "PLN"@ {
            Some(Currency::PLN)
        } else if s == "GBP"@ {
            Some(Currency::GBP)
        } else if s == "RUB"@ {
            Some(Currency::RUB)
        } else if s == "SGD"@ {
            Some(Currency::SGD)
        } else if s == "SEK"@ {
            Some(Currency::SEK)
        } else if s == "CHF"@ {
            Some(Currency::CHF)
        } else if s == "THB"@ {
            Some(Currency::THB)
        } else if s == "USD"@ {
            Some(Currency::USD)
        } else {
            None
        }
    }

    /// Renders the three-letter code of this currency.
    pub fn to_string(&self) -> (r: String)
        ensures
            r@ == self.spec_code(),
    {
        match self {
            Currency::AUD => String::from_str("AUD"),
            Currency::BRL => String::from_str("BRL"),
            Currency::CAD => String::from_str("CAD"),
            Currency::CNY => String::from_str("CNY"),
            Currency::CZK => String::from_str("CZK"),
            Currency::DKK => String::from_str("DKK"),
            Currency::EUR => String::from_str("EUR"),
            Currency::HKD => String::from_str("HKD"),
            Currency::HUF => String::from_str("HUF"),
            Currency::INR => String::from_str("INR"),
            Currency::ILS => String::from_str("ILS"),
            Currency::JPY => String::from_str("JPY"),
            Currency::MYR => String::from_str("MYR"),
            Currency::MXN => String::from_str("MXN"),
            Currency::TWD => String::from_str("TWD"),
            Currency::NZD => String::from_str("NZD"),
            Currency::NOK => String::from_str("NOK"),
            Currency::PHP => String::from_str("PHP"),
            Currency::PLN => String::from_str("PLN"),
            Currency::GBP => String::from_str("GBP"),
            Currency::RUB => String::from_str("RUB"),
            Currency::SGD => String::from_str("SGD"),
            Currency::SEK => String::from_str("SEK"),
            Currency::CHF => String::from_str("CHF"),
            Currency::THB => String::from_str("THB"),
            Currency::USD => String::from_str("USD"),
        }
    }

    /// Parses a three-letter currency code.
    pub fn from_str(s: &str) -> (r: Result<Currency, InvalidCurrencyError>)
        ensures
            match r {
                Ok(c) => Self::spec_from_code(s@) == Some(c),
                Err(e) => Self::spec_from_code(s@) is None && e.0@ == s@,
            },
    {
        if str_eq(s, "AUD") {
            Ok(Currency::AUD)
        } else if str_eq(s, "BRL") {
            Ok(Currency::BRL)
        } else if str_eq(s, "CAD") {
            Ok(Currency::CAD)
        } else if str_eq(s, "CNY") {
            Ok(Currency::CNY)
        } else if str_eq(s, "CZK") {
            Ok(Currency::CZK)
        } else if str_eq(s, "DKK") {
            Ok(Currency::DKK)
        } else if str_eq(s, "EUR") {
            Ok(Currency::EUR)
        } else if str_eq(s, "HKD") {
            Ok(Currency::HKD)
        } else if str_eq(s, "HUF") {
            Ok(Currency::HUF)
        } else if str_eq(s, "INR") {
            Ok(Currency::INR)
        } else if str_eq(s, "ILS") {
            Ok(Currency::ILS)
        } else if str_eq(s, "JPY") {
            Ok(Currency::JPY)
        } else if str_eq(s, "MYR") {
            Ok(Currency::MYR)
        } else if str_eq(s, "MXN") {
            Ok(Currency::MXN)
        } else if str_eq(s, "TWD") {
            Ok(Currency::TWD)
        } else if str_eq(s, "NZD") {
            Ok(Currency::NZD)
        } else if str_eq(s, "NOK") {
            Ok(Currency::NOK)
        } else if str_eq(s, "PHP") {
            Ok(Currency::PHP)
        } else if str_eq(s, "PLN") {
            Ok(Currency::PLN)
        } else if str_eq(s, "GBP") {
            Ok(Currency::GBP)
        } else if str_eq(s, "RUB") {
            Ok(Currency::RUB)
        } else if str_eq(s, "SGD") {
            Ok(Currency::SGD)
        } else if str_eq(s, "SEK") {
            Ok(Currency::SEK)
        } else if str_eq(s, "CHF") {
            Ok(Currency::CHF)
        } else if str_eq(s, "THB") {
            Ok(Currency::THB)
        } else if str_eq(s, "USD") {
            Ok(Currency::USD)
        } else {
            Err(InvalidCurrencyError(s.to_owned()))
        }
    }
}

impl Default for Currency {
    /// The default currency.
    fn default() -> (r: Self)
        ensures
            r == Currency::EUR,
    {
        Currency::EUR
    }
}

/// Represents money.
#[derive(Debug, Clone, PartialEq, Eq)]
pub struct Money {
    /// The three-character ISO-4217 currency code that identifies the currency.
    pub currency_code: Currency,
    /// The value: an integer for currencies that are not typically fractional,
    /// a decimal fraction otherwise.
    pub value: String,
}

impl Money {
    /// Creates an instance of Money with the currency Currency::EUR.
    pub fn eur(value: &str) -> (r: Self)
        ensures
            r.currency_code == Currency::EUR,
            r.value@ == value@,
    {
        Money { currency_code: Currency::EUR, value: value.to_owned() }
    }

    /// Creates an instance of Money with the currency Currency::USD.
    pub fn usd(value: &str) -> (r: Self)
        ensures
            r.currency_code == Currency::USD,
            r.value@ == value@,
    {
        Money { currency_code: Currency::USD, value: value.to_owned() }
    }

    /// Creates an instance of Money with the currency Currency::BRL.
    pub fn brl(value: &str) -> (r: Self)
        ensures
            r.currency_code == Currency::BRL,
            r.value@ == value@,
    {
        Money { currency_code: Currency::BRL, value: value.to_owned() }
    }

    /// Creates an instance of Money with the currency Currency::CNY.
    pub fn cny(value: &str) -> (r: Self)
        ensures
            r.currency_code == Currency::CNY,
            r.value@ == value@,
    {
        Money { currency_code: Currency::CNY, value: value.to_owned() }
    }

    /// Creates an instance of Money with the currency Currency::CZK.
    pub fn czk(value: &str) -> (r: Self)
        ensures
            r.currency_code == Currency::CZK,
            r.value@ == value@,
    {
        Money { currency_code: Currency::CZK, value: value.to_owned() }
    }

    /// Creates an instance of Money with the currency Currency::JPY.
    pub fn jpy(value: &str) -> (r: Self)
        ensures
            r.currency_code == Currency::JPY,
            r.value@ == value@,
    {
        Money { currency_code: Currency::JPY, value: value.to_owned() }
    }

}

impl FromJson for Money {
    /// A money object: a `currency_code` naming a known currency and a
    /// string `value`.
    open spec fn spec_decodable(j: Json) -> bool {
        &&& match j.spec_field_string("currency_code"@) {
            Some(code) => Currency::spec_from_code(code@) is Some,
            None => false,
        }
        &&& j.spec_field_string("value"@) is Some
    }

    open spec fn spec_matches(self, j: Json) -> bool {
        &&& match j.spec_field_string("currency_code"@) {
            Some(code) => Currency::spec_from_code(code@) == Some(self.currency_code),
            None => false,
        }
        &&& Some(self.value) == j.spec_field_string("value"@)
    }

    fn from_json(j: &Json) -> (r: Option<Money>)
        ensures
            match r {
                Some(v) => Self::spec_decodable(*j) && v.spec_matches(*j),
                None => !Self::spec_decodable(*j),
            },
    {
        let code = match j.get_str("currency_code") {
            Some(c) => c,
            None => {
                return None;
            },
        };
        let currency_code = match Currency::from_str(code.as_str()) {
            Ok(c) => c,
            Err(_) => {
                return None;
            },
        };
        let value = match j.get_str("value") {
            Some(v) => v,
            None => {
                return None;
            },
        };
        Some(Money { currency_code, value })
    }
}

/// The HTTP method of a HATEOAS link.
#[derive(Debug, Clone, Copy, PartialEq, Eq)]
#[allow(missing_docs)]
pub enum LinkMethod {
    Get,
    Post,
    Put,
    Delete,
    Head,
    Connect,
    Options,
    Patch,
}

impl LinkMethod {
    /// The upper-case name of this method.
    pub open spec fn spec_code(self) -> Seq<char> {
        match self {
            LinkMethod::Get => "GET"@,
            LinkMethod::Post => "POST"@,
            LinkMethod::Put => "PUT"@,
            LinkMethod::Delete => "DELETE"@,
            LinkMethod::Head => "HEAD"@,
            LinkMethod::Connect => "CONNECT"@,
            LinkMethod::Options => "OPTIONS"@,
            LinkMethod::Patch => "PATCH"@,
        }
    }

    /// The method an upper-case name names, if any.
    pub open spec fn spec_from_code(s: Seq<char>) -> Option<LinkMethod> {
        if s == "GET"@ {
            Some(LinkMethod::Get)
        } else if s == "POST"@ {
            Some(LinkMethod::Post)
        } else if s == "PUT"@ {
            Some(LinkMethod::Put)
        } else if s == "DELETE"@ {
            Some(LinkMethod::Delete)
        } else if s == "HEAD"@ {
            Some(LinkMethod::Head)
        } else if s == "CONNECT"@ {
            Some(LinkMethod::Connect)
        } else if s == "OPTIONS"@ {
            Some(LinkMethod::Options)
        } else if s == "PATCH"@ {
            Some(LinkMethod::Patch)
        } else {
            None
        }
    }

    /// Renders the upper-case name of this method.
    pub fn to_string(&self) -> (r: String)
        ensures
            r@ == self.spec_code(),
    {
        match self {
            LinkMethod::Get => String::from_str("GET"),
            LinkMethod::Post => String::from_str("POST"),
            LinkMethod::Put => String::from_str("PUT"),
            LinkMethod::Delete => String::from_str("DELETE"),
            LinkMethod::Head => String::from_str("HEAD"),
            LinkMethod::Connect => String::from_str("CONNECT"),
            LinkMethod::Options => String::from_str("OPTIONS"),
            LinkMethod::Patch => String::from_str("PATCH"),
        }
    }

    /// Parses an upper-case method name.
    pub fn from_code(s: &str) -> (r: Option<LinkMethod>)
        ensures
            r == Self::spec_from_code(s@),
    {
        if str_eq(s, "GET") {
            Some(LinkMethod::Get)
        } else if str_eq(s, "POST") {
            Some(LinkMethod::Post)
        } else if str_eq(s, "PUT") {
            Some(LinkMethod::Put)
        } else if str_eq(s, "DELETE") {
            Some(LinkMethod::Delete)
        } else if str_eq(s, "HEAD") {
            Some(LinkMethod::Head)
        } else if str_eq(s, "CONNECT") {
            Some(LinkMethod::Connect)
        } else if str_eq(s, "OPTIONS") {
            Some(LinkMethod::Options)
        } else if str_eq(s, "PATCH") {
            Some(LinkMethod::Patch)
        } else {
            None
        }
    }
}

impl FromJson for LinkMethod {
    /// A string naming an HTTP method.
    open spec fn spec_decodable(j: Json) -> bool {
        match j {
            Json::Str(s) => Self::spec_from_code(s@) is Some,
            _ => false,
        }
    }

    open spec fn spec_matches(self, j: Json) -> bool {
        match j {
            Json::Str(s) => Self::spec_from_code(s@) == Some(self),
            _ => false,
        }
    }

    fn from_json(j: &Json) -> (r: Option<LinkMethod>)
        ensures
            match r {
                Some(v) => Self::spec_decodable(*j) && v.spec_matches(*j),
                None => !Self::spec_decodable(*j),
            },
    {
        match j {
            Json::Str(s) => LinkMethod::from_code(s.as_str()),
            _ => None,
        }
    }
}

/// A HATEOAS link.
#[derive(Debug, Default, Clone)]
pub struct LinkDescription {
    /// The complete target URL.
    pub href: String,
    /// The link relation type, which serves as an ID for the link.
    pub rel: Option<String>,
    /// The HTTP method required to make the related call.
    pub method: Option<LinkMethod>,
}

impl FromJson for LinkDescription {
    /// A link object: a string `href`, an optional string `rel` and an
    /// optional `method` naming an HTTP method.
    open spec fn spec_decodable(j: Json) -> bool {
        &&& j.spec_field_string("href"@) is Some
        &&& j.spec_field_opt_string("rel"@) is Some
        &&& spec_opt_obj_decodable::<LinkMethod>(j, "method"@)
    }

    open spec fn spec_matches(self, j: Json) -> bool {
        &&& Some(self.href) == j.spec_field_string("href"@)
        &&& Some(self.rel) == j.spec_field_opt_string("rel"@)
        &&& spec_opt_obj_matches(self.method, j, "method"@)
    }

    fn from_json(j: &Json) -> (r: Option<LinkDescription>)
        ensures
            match r {
                Some(v) => Self::spec_decodable(*j) && v.spec_matches(*j),
                None => !Self::spec_decodable(*j),
            },
    {
        let href = match j.get_str("href") {
            Some(h) => h,
            None => {
                return None;
            },
        };
        let rel = match j.get_opt_str("rel") {
            Some(rel) => rel,
            None => {
                return None;
            },
        };
        let method = match crate::json::get_opt_obj::<LinkMethod>(j, "method") {
            Some(m) => m,
            None => {
                return None;
            },
        };
        Some(LinkDescription { href, rel, method })
    }
}

/// Authorization status reason.
#[derive(Debug, Clone, Copy, PartialEq, Eq)]
pub enum AuthorizationStatusDetailsReason {
    /// Authorization is pending manual review.
    PendingReview,
}

/// Details about the status of the authorization.
#[derive(Debug, Clone, Copy, PartialEq, Eq)]
pub struct AuthorizationStatusDetails {
    /// The reason why the authorized status is PENDING.
    pub reason: AuthorizationStatusDetailsReason,
}

/// Indicates whether the transaction is eligible for seller protection.
#[derive(Debug, Clone, Copy, PartialEq, Eq)]
pub enum SellerProtectionStatus {
    /// Your PayPal balance remains intact if the customer claims that they did not receive an item
    /// or the account holder claims that they did not authorize the payment.
    Eligible,
    /// Your PayPal balance remains intact if the customer claims that they did not receive an item.
    PartiallyEligible,
    /// This transaction is not eligible for seller protection.
    NotEligible,
}

/// The condition that is covered for the transaction.
#[derive(Debug, Clone, Copy, PartialEq, Eq)]
pub enum DisputeCategory {
    /// The payer paid for an item that they did not receive.
    ItemNotReceived,
    /// The payer did not authorize the payment.
    UnauthorizedTransaction,
}

/// The level of protection offered as defined by PayPal Seller Protection for Merchants.
#[derive(Debug, Clone, PartialEq, Eq)]
pub struct SellerProtection {
    /// Indicates whether the transaction is eligible for seller protection.
    pub status: SellerProtectionStatus,
    /// An array of conditions that are covered for the transaction.
    pub dispute_categories: Vec<DisputeCategory>,
}

impl FromJson for Currency {
    /// A string naming a known currency.
    open spec fn spec_decodable(j: Json) -> bool {
        match j {
            Json::Str(s) => Self::spec_from_code(s@) is Some,
            _ => false,
        }
    }

    open spec fn spec_matches(self, j: Json) -> bool {
        match j {
            Json::Str(s) => Self::spec_from_code(s@) == Some(self),
            _ => false,
        }
    }

    fn from_json(j: &Json) -> (r: Option<Currency>)
        ensures
            match r {
                Some(v) => Self::spec_decodable(*j) && v.spec_matches(*j),
                None => !Self::spec_decodable(*j),
            },
    {
        match j {
            Json::Str(s) => match Currency::from_str(s.as_str()) {
                Ok(c) => Some(c),
                Err(_) => None,
            },
            _ => None,
        }
    }
}

impl PhoneType {
    /// The wire name of this value.
    pub open spec fn spec_code(self) -> Seq<char> {
        match self {
            PhoneType::Fax => "FAX"@,
            PhoneType::Home => "HOME"@,
            PhoneType::Mobile => "MOBILE"@,
            PhoneType::Other => "OTHER"@,
            PhoneType::Pager => "PAGER"@,
        }
    }

    /// The value a wire name names, if any.
    pub open spec fn spec_from_code(s: Seq<char>) -> Option<PhoneType> {
        if s == "FAX"@ {
            Some(PhoneType::Fax)
        } else if s == "HOME"@ {
            Some(PhoneType::Home)
        } else if s == "MOBILE"@ {
            Some(PhoneType::Mobile)
        } else if s == "OTHER"@ {
            Some(PhoneType::Other)
        } else if s == "PAGER"@ {
            Some(PhoneType::Pager)
        } else {
            None
        }
    }

    /// Renders the wire name of this value.
    pub fn to_string(&self) -> (r: String)
        ensures
            r@ == self.spec_code(),
    {
        match self {
            PhoneType::Fax => String::from_str("FAX"),
            PhoneType::Home => String::from_str("HOME"),
            PhoneType::Mobile => String::from_str("MOBILE"),
            PhoneType::Other => String::from_str("OTHER"),
            PhoneType::Pager => String::from_str("PAGER"),
        }
    }

    /// Parses a wire name.
    pub fn from_code(s: &str) -> (r: Option<PhoneType>)
        ensures
            r == Self::spec_from_code(s@),
    {
        if str_eq(s, "FAX") {
            Some(PhoneType::Fax)
        } else if str_eq(s, "HOME") {
            Some(PhoneType::Home)
        } else if str_eq(s, "MOBILE") {
            Some(PhoneType::Mobile)
        } else if str_eq(s, "OTHER") {
            Some(PhoneType::Other)
        } else if str_eq(s, "PAGER") {
            Some(PhoneType::Pager)
        } else {
            None
        }
    }
}

impl FromJson for PhoneType {
    /// A string naming one of the values.
    open spec fn spec_decodable(j: Json) -> bool {
        match j {
            Json::Str(s) => Self::spec_from_code(s@) is Some,
            _ => false,
        }
    }

    open spec fn spec_matches(self, j: Json) -> bool {
        match j {
            Json::Str(s) => Self::spec_from_code(s@) == Some(self),
            _ => false,
        }
    }

    fn from_json(j: &Json) -> (r: Option<PhoneType>)
        ensures
            match r {
                Some(v) => Self::spec_decodable(*j) && v.spec_matches(*j),
                None => !Self::spec_decodable(*j),
            },
    {
        match j {
            Json::Str(s) => PhoneType::from_code(s.as_str()),
            _ => None,
        }
    }
}

impl AuthorizationStatusDetailsReason {
    /// The wire name of this value.
    pub open spec fn spec_code(self) -> Seq<char> {
        match self {
            AuthorizationStatusDetailsReason::PendingReview => "PENDING_REVIEW"@,
        }
    }

    /// The value a wire name names, if any.
    pub open spec fn spec_from_code(s: Seq<char>) -> Option<AuthorizationStatusDetailsReason> {
        if s == "PENDING_REVIEW"@ {
            Some(AuthorizationStatusDetailsReason::PendingReview)
        } else {
            None
        }
    }

    /// Renders the wire name of this value.
    pub fn to_string(&self) -> (r: String)
        ensures
            r@ == self.spec_code(),
    {
        match self {
            AuthorizationStatusDetailsReason::PendingReview => String::from_str("PENDING_REVIEW"),
        }
    }

    /// Parses a wire name.
    pub fn from_code(s: &str) -> (r: Option<AuthorizationStatusDetailsReason>)
        ensures
            r == Self::spec_from_code(s@),
    {
        if str_eq(s, "PENDING_REVIEW") {
            Some(AuthorizationStatusDetailsReason::PendingReview)
        } else {
            None
        }
    }
}

impl FromJson for AuthorizationStatusDetailsReason {
    /// A string naming one of the values.
    open spec fn spec_decodable(j: Json) -> bool {
        match j {
            Json::Str(s) => Self::spec_from_code(s@) is Some,
            _ => false,
        }
    }

    open spec fn spec_matches(self, j: Json) -> bool {
        match j {
            Json::Str(s) => Self::spec_from_code(s@) == Some(self),
            _ => false,
        }
    }

    fn from_json(j: &Json) -> (r: Option<AuthorizationStatusDetailsReason>)
        ensures
            match r {
                Some(v) => Self::spec_decodable(*j) && v.spec_matches(*j),
                None => !Self::spec_decodable(*j),
            },
    {
        match j {
            Json::Str(s) => AuthorizationStatusDetailsReason::from_code(s.as_str()),
            _ => None,
        }
    }
}

impl SellerProtectionStatus {
    /// The wire name of this value.
    pub open spec fn spec_code(self) -> Seq<char> {
        match self {
            SellerProtectionStatus::Eligible => "ELIGIBLE"@,
            SellerProtectionStatus::PartiallyEligible => "PARTIALLY_ELIGIBLE"@,
            SellerProtectionStatus::NotEligible => "NOT_ELIGIBLE"@,
        }
    }

    /// The value a wire name names, if any.
    pub open spec fn spec_from_code(s: Seq<char>) -> Option<SellerProtectionStatus> {
        if s == "ELIGIBLE"@ {
            Some(SellerProtectionStatus::Eligible)
        } else if s == "PARTIALLY_ELIGIBLE"@ {
            Some(SellerProtectionStatus::PartiallyEligible)
        } else if s == "NOT_ELIGIBLE"@ {
            Some(SellerProtectionStatus::NotEligible)
        } else {
            None
        }
    }

    /// Renders the wire name of this value.
    pub fn to_string(&self) -> (r: String)
        ensures
            r@ == self.spec_code(),
    {
        match self {
            SellerProtectionStatus::Eligible => String::from_str("ELIGIBLE"),
            SellerProtectionStatus::PartiallyEligible => String::from_str("PARTIALLY_ELIGIBLE"),
            SellerProtectionStatus::NotEligible => String::from_str("NOT_ELIGIBLE"),
        }
    }

    /// Parses a wire name.
    pub fn from_code(s: &str) -> (r: Option<SellerProtectionStatus>)
        ensures
            r == Self::spec_from_code(s@),
    {
        if str_eq(s, "ELIGIBLE") {
            Some(SellerProtectionStatus::Eligible)
        } else if str_eq(s, "PARTIALLY_ELIGIBLE") {
            Some(SellerProtectionStatus::PartiallyEligible)
        } else if str_eq(s, "NOT_ELIGIBLE") {
            Some(SellerProtectionStatus::NotEligible)
        } else {
            None
        }
    }
}

impl FromJson for SellerProtectionStatus {
    /// A string naming one of the values.
    open spec fn spec_decodable(j: Json) -> bool {
        match j {
            Json::Str(s) => Self::spec_from_code(s@) is Some,
            _ => false,
        }
    }

    open spec fn spec_matches(self, j: Json) -> bool {
        match j {
            Json::Str(s) => Self::spec_from_code(s@) == Some(self),
            _ => false,
        }
    }

    fn from_json(j: &Json) -> (r: Option<SellerProtectionStatus>)
        ensures
            match r {
                Some(v) => Self::spec_decodable(*j) && v.spec_matches(*j),
                None => !Self::spec_decodable(*j),
            },
    {
        match j {
            Json::Str(s) => SellerProtectionStatus::from_code(s.as_str()),
            _ => None,
        }
    }
}

impl DisputeCategory {
    /// The wire name of this value.
    pub open spec fn spec_code(self) -> Seq<char> {
        match self {
            DisputeCategory::ItemNotReceived => "ITEM_NOT_RECEIVED"@,
            DisputeCategory::UnauthorizedTransaction => "UNAUTHORIZED_TRANSACTION"@,
        }
    }

    /// The value a wire name names, if any.
    pub open spec fn spec_from_code(s: Seq<char>) -> Option<DisputeCategory> {
        if s == "ITEM_NOT_RECEIVED"@ {
            Some(DisputeCategory::ItemNotReceived)
        } else if s == "UNAUTHORIZED_TRANSACTION"@ {
            Some(DisputeCategory::UnauthorizedTransaction)
        } else {
            None
        }
    }

    /// Renders the wire name of this value.
    pub fn to_string(&self) -> (r: String)
        ensures
            r@ == self.spec_code(),
    {
        match self {
            DisputeCategory::ItemNotReceived => String::from_str("ITEM_NOT_RECEIVED"),
            DisputeCategory::UnauthorizedTransaction => String::from_str("UNAUTHORIZED_TRANSACTION"),
        }
    }

    /// Parses a wire name.
    pub fn from_code(s: &str) -> (r: Option<DisputeCategory>)
        ensures
            r == Self::spec_from_code(s@),
    {
        if str_eq(s, "ITEM_NOT_RECEIVED") {
            Some(DisputeCategory::ItemNotReceived)
        } else if str_eq(s, "UNAUTHORIZED_TRANSACTION") {
            Some(DisputeCategory::UnauthorizedTransaction)
        } else {
            None
        }
    }
}

impl FromJson for DisputeCategory {
    /// A string naming one of the values.
    open spec fn spec_decodable(j: Json) -> bool {
        match j {
            Json::Str(s) => Self::spec_from_code(s@) is Some,
            _ => false,
        }
    }

    open spec fn spec_matches(self, j: Json) -> bool {
        match j {
            Json::Str(s) => Self::spec_from_code(s@) == Some(self),
            _ => false,
        }
    }

    fn from_json(j: &Json) -> (r: Option<DisputeCategory>)
        ensures
            match r {
                Some(v) => Self::spec_decodable(*j) && v.spec_matches(*j),
                None => !Self::spec_decodable(*j),
            },
    {
        match j {
            Json::Str(s) => DisputeCategory::from_code(s.as_str()),
            _ => None,
        }
    }
}

/// x
impl FromJson for AddressDetails {
    /// An object of optional string address detail fields.
    open spec fn spec_decodable(j: Json) -> bool {
        &&& j.spec_field_opt_string("street_number"@) is Some
        &&& j.spec_field_opt_string("street_name"@) is Some
        &&& j.spec_field_opt_string("street_type"@) is Some
        &&& j.spec_field_opt_string("delivery_service"@) is Some
        &&& j.spec_field_opt_string("building_name"@) is Some
        &&& j.spec_field_opt_string("sub_building"@) is Some
    }

    open spec fn spec_matches(self, j: Json) -> bool {
        &&& Some(self.street_number) == j.spec_field_opt_string("street_number"@)
        &&& Some(self.street_name) == j.spec_field_opt_string("street_name"@)
        &&& Some(self.street_type) == j.spec_field_opt_string("street_type"@)
        &&& Some(self.delivery_service) == j.spec_field_opt_string("delivery_service"@)
        &&& Some(self.building_name) == j.spec_field_opt_string("building_name"@)
        &&& Some(self.sub_building) == j.spec_field_opt_string("sub_building"@)
    }

    fn from_json(j: &Json) -> (r: Option<AddressDetails>)
        ensures
            match r {
                Some(v) => Self::spec_decodable(*j) && v.spec_matches(*j),
                None => !Self::spec_decodable(*j),
            },
    {
        let street_number = match j.get_opt_str("street_number") {
            Some(v) => v,
            None => {
                return None;
            },
        };
        let street_name = match j.get_opt_str("street_name") {
            Some(v) => v,
            None => {
                return None;
            },
        };
        let street_type = match j.get_opt_str("street_type") {
            Some(v) => v,
            None => {
                return None;
            },
        };
        let delivery_service = match j.get_opt_str("delivery_service") {
            Some(v) => v,
            None => {
                return None;
            },
        };
        let building_name = match j.get_opt_str("building_name") {
            Some(v) => v,
            None => {
                return None;
            },
        };
        let sub_building = match j.get_opt_str("sub_building") {
            Some(v) => v,
            None => {
                return None;
            },
        };
        Some(AddressDetails { street_number, street_name, street_type, delivery_service, building_name, sub_building })
    }
}

impl FromJson for Address {
    /// An address: optional string lines and a required country code.
    open spec fn spec_decodable(j: Json) -> bool {
        &&& j.spec_field_opt_string("address_line_1"@) is Some
        &&& j.spec_field_opt_string("address_line_2"@) is Some
        &&& j.spec_field_opt_string("admin_area_2"@) is Some
        &&& j.spec_field_opt_string("admin_area_1"@) is Some
        &&& j.spec_field_opt_string("postal_code"@) is Some
        &&& j.spec_field_string("country_code"@) is Some
        &&& spec_opt_obj_decodable::<AddressDetails>(j, "address_details"@)
    }

    open spec fn spec_matches(self, j: Json) -> bool {
        &&& Some(self.address_line_1) == j.spec_field_opt_string("address_line_1"@)
        &&& Some(self.address_line_2) == j.spec_field_opt_string("address_line_2"@)
        &&& Some(self.admin_area_2) == j.spec_field_opt_string("admin_area_2"@)
        &&& Some(self.admin_area_1) == j.spec_field_opt_string("admin_area_1"@)
        &&& Some(self.postal_code) == j.spec_field_opt_string("postal_code"@)
        &&& Some(self.country_code) == j.spec_field_string("country_code"@)
        &&& spec_opt_obj_matches(self.address_details, j, "address_details"@)
    }

    fn from_json(j: &Json) -> (r: Option<Address>)
        ensures
            match r {
                Some(v) => Self::spec_decodable(*j) && v.spec_matches(*j),
                None => !Self::spec_decodable(*j),
            },
    {
        let address_line_1 = match j.get_opt_str("address_line_1") {
            Some(v) => v,
            None => {
                return None;
            },
        };
        let address_line_2 = match j.get_opt_str("address_line_2") {
            Some(v) => v,
            None => {
                return None;
            },
        };
        let admin_area_2 = match j.get_opt_str("admin_area_2") {
            Some(v) => v,
            None => {
                return None;
            },
        };
        let admin_area_1 = match j.get_opt_str("admin_area_1") {
            Some(v) => v,
            None => {
                return None;
            },
        };
        let postal_code = match j.get_opt_str("postal_code") {
            Some(v) => v,
            None => {
                return None;
            },
        };
        let country_code = match j.get_str("country_code") {
            Some(v) => v,
            None => {
                return None;
            },
        };
        let address_details = match get_opt_obj::<AddressDetails>(j, "address_details") {
            Some(v) => v,
            None => {
                return None;
            },
        };
        Some(Address { address_line_1, address_line_2, admin_area_2, admin_area_1, postal_code, country_code, address_details })
    }
}

impl FromJson for AuthorizationStatusDetails {
    /// An object with a `reason` naming an authorization status reason.
    open spec fn spec_decodable(j: Json) -> bool {
        &&& spec_obj_decodable::<AuthorizationStatusDetailsReason>(j, "reason"@)
    }

    open spec fn spec_matches(self, j: Json) -> bool {
        &&& spec_obj_matches(self.reason, j, "reason"@)
    }

    fn from_json(j: &Json) -> (r: Option<AuthorizationStatusDetails>)
        ensures
            match r {
                Some(v) => Self::spec_decodable(*j) && v.spec_matches(*j),
                None => !Self::spec_decodable(*j),
            },
    {
        let reason = match get_obj::<AuthorizationStatusDetailsReason>(j, "reason") {
            Some(v) => v,
            None => {
                return None;
            },
        };
        Some(AuthorizationStatusDetails { reason })
    }
}

impl FromJson for SellerProtection {
    /// A seller protection object: a status and an array of dispute categories.
    open spec fn spec_decodable(j: Json) -> bool {
        &&& spec_obj_decodable::<SellerProtectionStatus>(j, "status"@)
        &&& spec_arr_decodable::<DisputeCategory>(j, "dispute_categories"@)
    }

    open spec fn spec_matches(self, j: Json) -> bool {
        &&& spec_obj_matches(self.status, j, "status"@)
        &&& spec_arr_matches(self.dispute_categories@, j, "dispute_categories"@)
    }

    fn from_json(j: &Json) -> (r: Option<SellerProtection>)
        ensures
            match r {
                Some(v) => Self::spec_decodable(*j) && v.spec_matches(*j),
                None => !Self::spec_decodable(*j),
            },
    {
        let status = match get_obj::<SellerProtectionStatus>(j, "status") {
            Some(v) => v,
            None => {
                return None;
            },
        };
        let dispute_categories = match get_arr_of::<DisputeCategory>(j, "dispute_categories") {
            Some(v) => v,
            None => {
                return None;
            },
        };
        Some(SellerProtection { status, dispute_categories })
    }
}

} // verus!
