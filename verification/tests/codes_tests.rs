//! Tests for the currency and country code tables.

use paypal_rs::countries::Country;
use paypal_rs::data::common::Currency;

#[test]
fn test_currency() {
    assert_eq!(Currency::EUR.to_string(), "EUR");
    assert_eq!(Currency::JPY.to_string(), "JPY");
    assert_eq!(Currency::JPY, Currency::from_str("JPY").unwrap());
}

#[test]
fn test_country() {
    assert_eq!(Country::US.to_string(), "US");
    assert_eq!(Country::ES.to_string(), "ES");
    assert_eq!(Country::ES, Country::from_str("ES").unwrap());
}

#[test]
fn currency_rejects_unknown_code() {
    let err = Currency::from_str("XXX").unwrap_err();
    assert_eq!(err.0, "XXX");
}

#[test]
fn country_rejects_unknown_code() {
    let err = Country::from_str("X1").unwrap_err();
    assert_eq!(err.0, "X1");
}

#[test]
fn currency_round_trips_all_codes() {
    let all = [
        Currency::AUD,
        Currency::BRL,
        Currency::CAD,
        Currency::CNY,
        Currency::CZK,
        Currency::DKK,
        Currency::EUR,
        Currency::HKD,
        Currency::HUF,
        Currency::INR,
        Currency::ILS,
        Currency::JPY,
        Currency::MYR,
        Currency::MXN,
        Currency::TWD,
        Currency::NZD,
        Currency::NOK,
        Currency::PHP,
        Currency::PLN,
        Currency::GBP,
        Currency::RUB,
        Currency::SGD,
        Currency::SEK,
        Currency::CHF,
        Currency::THB,
        Currency::USD,
    ];
    for c in all {
        assert_eq!(Currency::from_str(&c.to_string()).unwrap(), c);
    }
}

#[test]
fn country_default_is_us() {
    assert_eq!(Country::default(), Country::US);
    assert_eq!(Currency::default(), Currency::EUR);
}
