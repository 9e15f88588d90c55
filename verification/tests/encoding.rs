use lnclient::amount::btc_amount_string;
use lnclient::encode::{create_invoice_query, credentials_body, pay_invoice_body};
use lnclient::errors::LnError;

#[test]
fn one_btc_encodes_as_exactly_one() {
    assert_eq!(btc_amount_string(100_000_000), "1");
}

#[test]
fn one_satoshi_encodes_exactly() {
    assert_eq!(btc_amount_string(1), "0.00000001");
}

#[test]
fn zero_satoshis_encode_as_zero() {
    assert_eq!(btc_amount_string(0), "0");
}

#[test]
fn trailing_zeros_are_trimmed() {
    assert_eq!(btc_amount_string(150_000_000), "1.5");
    assert_eq!(btc_amount_string(123), "0.00000123");
    assert_eq!(btc_amount_string(10), "0.0000001");
}

#[test]
fn largest_amount_encodes_exactly() {
    assert_eq!(btc_amount_string(u32::MAX), "42.94967295");
}

#[test]
fn credentials_body_is_plain_json() {
    assert_eq!(
        credentials_body("alice", "hunter2"),
        "{\"username\":\"alice\",\"password\":\"hunter2\"}"
    );
}

#[test]
fn credentials_body_escapes_quotes_and_backslashes() {
    assert_eq!(
        credentials_body("al\"ice", "hun\\ter"),
        "{\"username\":\"al\\\"ice\",\"password\":\"hun\\\\ter\"}"
    );
}

#[test]
fn credentials_body_escapes_control_characters() {
    assert_eq!(
        credentials_body("a\nb", "c\u{1}d"),
        "{\"username\":\"a\\nb\",\"password\":\"c\\u0001d\"}"
    );
}

#[test]
fn pay_invoice_body_wraps_the_request() {
    assert_eq!(
        pay_invoice_body("lnbc1abc"),
        "{\"payment_request\":\"lnbc1abc\"}"
    );
}

#[test]
fn invoice_query_carries_amount_and_description() {
    assert_eq!(
        create_invoice_query("coffee", 100_000_000),
        "amount=1&meta=coffee"
    );
    assert_eq!(
        create_invoice_query("tip", 2_500_000),
        "amount=0.025&meta=tip"
    );
}

#[test]
fn credentials_record_produces_the_same_body() {
    let c = lnclient::types::Credentials {
        username: "alice".to_string(),
        password: "pw".to_string(),
    };
    assert_eq!(c.body(), credentials_body("alice", "pw"));
}

#[test]
fn pay_request_record_produces_the_same_body() {
    let r = lnclient::types::PayInvoiceRequest {
        payment_request: "lnbc1abc".to_string(),
    };
    assert_eq!(r.body(), pay_invoice_body("lnbc1abc"));
}

#[test]
fn every_error_kind_describes_itself() {
    assert_eq!(LnError::Auth.describe(), "no usable token pair");
    assert_eq!(LnError::Decode.describe(), "unexpected response shape");
    assert_eq!(LnError::InvalidInvoice.describe(), "invalid payment request");
    assert_eq!(
        LnError::Transport("timed out".to_string()).describe(),
        "transport failure"
    );
    assert_eq!(
        LnError::Application("limit".to_string()).describe(),
        "service-reported error"
    );
}
