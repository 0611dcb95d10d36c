use strike_rs::exchange::{
    currency_exchange_quote_path, execute_currency_exchange_quote_path,
    CURRENCY_EXCHANGE_QUOTES_PATH,
};
use strike_rs::pay_ln::{execute_payment_quote_path, outgoing_payment_path, LIGHTNING_PAYMENT_QUOTES_PATH};
use strike_rs::{Currency, Error, Strike, DEFAULT_API_URL, WEBHOOK_SECRET_LEN};

#[test]
fn new_with_default_url() {
    let s = Strike::new("xxxxxxxxxxx", None).unwrap();
    assert_eq!(s.api_key(), "xxxxxxxxxxx");
    assert_eq!(s.base_url(), "https://api.strike.me/");
    assert_eq!(DEFAULT_API_URL, "https://api.strike.me");
    assert_eq!(s.webhook_secret().len(), WEBHOOK_SECRET_LEN);
    assert_eq!(WEBHOOK_SECRET_LEN, 15);
    assert!(s.webhook_secret().chars().all(|c| c.is_ascii_alphanumeric()));
}

#[test]
fn new_with_given_url() {
    let s = Strike::new("k", Some("http://localhost:8080".to_string())).unwrap();
    assert_eq!(s.base_url(), "http://localhost:8080/");
}

#[test]
fn new_refuses_bad_url() {
    match Strike::new("k", Some("not a url".to_string())) {
        Err(Error::InvalidUrl(e)) => assert_eq!(e, url::ParseError::RelativeUrlWithoutBase),
        other => panic!("unexpected {:?}", other.map(|_| ())),
    }
}

#[test]
fn secrets_differ_between_clients() {
    let a = Strike::new("k", None).unwrap();
    let b = Strike::new("k", None).unwrap();
    assert_ne!(a.webhook_secret(), b.webhook_secret());
}

#[test]
fn endpoints() {
    let s = Strike::new("k", None).unwrap();
    assert_eq!(
        s.endpoint(CURRENCY_EXCHANGE_QUOTES_PATH).unwrap().as_str(),
        "https://api.strike.me/v1/currency-exchange-quotes"
    );
    assert_eq!(
        s.endpoint(&execute_currency_exchange_quote_path("q1")).unwrap().as_str(),
        "https://api.strike.me/v1/currency-exchange-quotes/q1/execute"
    );
    assert_eq!(
        s.incoming_invoice_url("inv-9").unwrap().as_str(),
        "https://api.strike.me/v1/invoices/inv-9"
    );
    let t = Strike::new("k", Some("http://[::1".to_string()));
    assert!(matches!(t, Err(Error::InvalidUrl(_))));
}

#[test]
fn paths() {
    assert_eq!(currency_exchange_quote_path("q1"), "/v1/currency-exchange-quotes/q1");
    assert_eq!(
        execute_currency_exchange_quote_path("q1"),
        "/v1/currency-exchange-quotes/q1/execute"
    );
    assert_eq!(LIGHTNING_PAYMENT_QUOTES_PATH, "/v1/payment-quotes/lightning");
    assert_eq!(execute_payment_quote_path("p7"), "/v1/payment-quotes/p7/execute");
    assert_eq!(outgoing_payment_path("p7"), "/v1/payments/p7");
}

#[test]
fn currency_codes() {
    assert_eq!(Currency::USD.to_string(), "USD");
    assert_eq!(Currency::EUR.to_string(), "EUR");
    assert_eq!(Currency::BTC.to_string(), "BTC");
    assert_eq!(Currency::USDT.to_string(), "USDT");
    assert_eq!(Currency::GBP.to_string(), "GBP");
    assert_eq!(Currency::AUD.to_string(), "AUD");
}
