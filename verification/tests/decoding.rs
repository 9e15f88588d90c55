use lnclient::decode::{
    decode_add_invoice_body, decode_auth_body, decode_balance_body, decode_create_wallet_body,
    decode_pay_invoice_body, decode_txs_body,
};
use lnclient::errors::LnError;
use lnclient::types::CreateWalletResponse;

#[test]
fn create_wallet_username_body_yields_created() {
    let r = decode_create_wallet_body("{\"username\":\"alice\"}").unwrap();
    match r {
        CreateWalletResponse::Username { username } => assert_eq!(username, "alice"),
        _ => panic!("expected the created variant"),
    }
}

#[test]
fn create_wallet_error_body_yields_failed() {
    let r = decode_create_wallet_body("{\"error\":\"exists\"}").unwrap();
    match r {
        CreateWalletResponse::Error { error } => assert_eq!(error, "exists"),
        _ => panic!("expected the error variant"),
    }
}

#[test]
fn create_wallet_empty_object_is_decode_error() {
    let r = decode_create_wallet_body("{}");
    assert!(matches!(r, Err(LnError::Decode)));
}

#[test]
fn create_wallet_both_fields_is_decode_error() {
    let r = decode_create_wallet_body("{\"username\":\"alice\",\"error\":\"exists\"}");
    assert!(matches!(r, Err(LnError::Decode)));
}

#[test]
fn create_wallet_both_keys_is_decode_error_whatever_the_values() {
    let r = decode_create_wallet_body("{\"username\":\"alice\",\"error\":5}");
    assert!(matches!(r, Err(LnError::Decode)));
    let r = decode_create_wallet_body("{\"username\":null,\"error\":\"exists\"}");
    assert!(matches!(r, Err(LnError::Decode)));
}

#[test]
fn create_wallet_wrong_typed_key_is_decode_error() {
    assert!(matches!(
        decode_create_wallet_body("{\"username\":7}"),
        Err(LnError::Decode)
    ));
    assert!(matches!(
        decode_create_wallet_body("{\"error\":null}"),
        Err(LnError::Decode)
    ));
}

#[test]
fn create_wallet_malformed_body_is_decode_error() {
    let r = decode_create_wallet_body("not json at all");
    assert!(matches!(r, Err(LnError::Decode)));
}

#[test]
fn auth_body_yields_token_pair() {
    let t = decode_auth_body("{\"refresh\":\"r1\",\"token\":\"t1\"}").unwrap();
    assert_eq!(t.refresh, "r1");
    assert_eq!(t.token, "t1");
}

#[test]
fn auth_body_ignores_extra_fields() {
    let t = decode_auth_body("{\"refresh\":\"r1\",\"token\":\"t1\",\"ttl\":900}").unwrap();
    assert_eq!(t.token, "t1");
}

#[test]
fn auth_empty_token_is_auth_error() {
    let r = decode_auth_body("{\"refresh\":\"r1\",\"token\":\"\"}");
    assert!(matches!(r, Err(LnError::Auth)));
}

#[test]
fn auth_missing_field_is_auth_error() {
    let r = decode_auth_body("{\"token\":\"t1\"}");
    assert!(matches!(r, Err(LnError::Auth)));
}

#[test]
fn auth_malformed_body_is_auth_error() {
    let r = decode_auth_body("][");
    assert!(matches!(r, Err(LnError::Auth)));
}

#[test]
fn balance_body_yields_account_list() {
    let body = "{\"uid\":1,\"accounts\":{\"a\":{\"account_id\":\"a\",\"balance\":\"100\",\"currency\":\"BTC\"}}}";
    let accounts = decode_balance_body(body).unwrap();
    assert_eq!(accounts.len(), 1);
    assert_eq!(accounts[0].account_id, "a");
    assert_eq!(accounts[0].balance, "100");
    assert_eq!(accounts[0].currency, "BTC");
}

#[test]
fn balance_body_keeps_every_account() {
    let body = "{\"uid\":2,\"accounts\":{\
        \"x\":{\"account_id\":\"x\",\"balance\":\"1\",\"currency\":\"BTC\"},\
        \"y\":{\"account_id\":\"y\",\"balance\":\"2\",\"currency\":\"EUR\"}}}";
    let accounts = decode_balance_body(body).unwrap();
    assert_eq!(accounts.len(), 2);
    let mut ids: Vec<&str> = accounts.iter().map(|a| a.account_id.as_str()).collect();
    ids.sort();
    assert_eq!(ids, vec!["x", "y"]);
}

#[test]
fn balance_service_error_is_application_error() {
    let body = "{\"uid\":1,\"accounts\":{},\"error\":\"account frozen\"}";
    match decode_balance_body(body) {
        Err(LnError::Application(msg)) => assert_eq!(msg, "account frozen"),
        other => panic!("expected a service-reported error, got {:?}", other),
    }
}

#[test]
fn balance_null_or_empty_error_is_no_failure() {
    let base = "{\"uid\":1,\"accounts\":{\"a\":{\"account_id\":\"a\",\"balance\":\"100\",\"currency\":\"BTC\"}}";
    let with_null = format!("{},\"error\":null}}", base);
    let with_empty = format!("{},\"error\":\"\"}}", base);
    assert_eq!(decode_balance_body(&with_null).unwrap().len(), 1);
    assert_eq!(decode_balance_body(&with_empty).unwrap().len(), 1);
}

#[test]
fn balance_body_with_bad_account_is_decode_error() {
    let body = "{\"uid\":1,\"accounts\":{\"a\":{\"account_id\":\"a\"}}}";
    assert!(matches!(decode_balance_body(body), Err(LnError::Decode)));
}

#[test]
fn add_invoice_body_yields_full_record() {
    let body = "{\"req_id\":\"r9\",\"uid\":7,\"payment_request\":\"lnbc1...\",\
        \"meta\":\"coffee\",\"metadata\":null,\
        \"amount\":{\"value\":\"0.001\",\"currency\":\"BTC\"},\"rate\":\"100\",\
        \"currency\":\"BTC\",\"target_account_currency\":null,\"account_id\":\"acc\",\
        \"error\":null,\"fees\":null}";
    let a = decode_add_invoice_body(body).unwrap();
    assert_eq!(a.req_id, "r9");
    assert_eq!(a.uid, 7);
    assert_eq!(a.payment_request.as_deref(), Some("lnbc1..."));
    assert_eq!(a.meta.as_deref(), Some("coffee"));
    assert_eq!(a.metadata, None);
    assert_eq!(a.amount.value, "0.001");
    assert_eq!(a.amount.currency, "BTC");
    assert_eq!(a.rate.as_deref(), Some("100"));
    assert_eq!(a.currency, "BTC");
    assert_eq!(a.account_id.as_deref(), Some("acc"));
    assert_eq!(a.error, None);
    assert!(a.outcome().is_ok());
}

#[test]
fn add_invoice_service_error_is_application_error() {
    let body = "{\"req_id\":\"r9\",\"uid\":7,\
        \"amount\":{\"value\":\"0.001\",\"currency\":\"BTC\"},\"currency\":\"BTC\",\
        \"error\":\"limit exceeded\"}";
    let a = decode_add_invoice_body(body).unwrap();
    match a.outcome() {
        Err(LnError::Application(msg)) => assert_eq!(msg, "limit exceeded"),
        other => panic!("expected a service-reported error, got {:?}", other),
    }
}

#[test]
fn add_invoice_without_payment_request_or_error_is_incomplete() {
    let body = "{\"req_id\":\"r9\",\"uid\":7,\
        \"amount\":{\"value\":\"0.001\",\"currency\":\"BTC\"},\"currency\":\"BTC\"}";
    let a = decode_add_invoice_body(body).unwrap();
    assert!(matches!(a.outcome(), Err(LnError::Decode)));
}

#[test]
fn add_invoice_missing_required_field_is_decode_error() {
    let body = "{\"uid\":7,\"currency\":\"BTC\"}";
    assert!(matches!(decode_add_invoice_body(body), Err(LnError::Decode)));
}

#[test]
fn pay_invoice_failure_is_surfaced() {
    let body = "{\"payment_hash\":\"9f2a\",\"uid\":3,\"success\":false,\
        \"currency\":\"BTC\",\"error\":\"insufficient funds\"}";
    let p = decode_pay_invoice_body(body).unwrap();
    assert!(p.failed());
    assert_eq!(p.error.as_deref(), Some("insufficient funds"));
}

#[test]
fn pay_invoice_error_field_alone_marks_failure() {
    let body = "{\"payment_hash\":\"9f2a\",\"uid\":3,\"success\":true,\
        \"currency\":\"BTC\",\"error\":\"routing failed\",\"payment_preimage\":\"00\"}";
    let p = decode_pay_invoice_body(body).unwrap();
    assert!(p.failed());
}

#[test]
fn pay_invoice_success_with_preimage_is_consistent() {
    let body = "{\"payment_hash\":\"9f2a\",\"uid\":3,\"success\":true,\
        \"currency\":\"BTC\",\"payment_preimage\":\"00ff\",\
        \"amount\":{\"value\":\"0.001\",\"currency\":\"BTC\"}}";
    let p = decode_pay_invoice_body(body).unwrap();
    assert!(!p.failed());
    assert!(!p.missing_settlement_proof());
    assert_eq!(p.amount.as_ref().unwrap().value, "0.001");
}

#[test]
fn pay_invoice_success_without_preimage_is_flagged() {
    let body = "{\"payment_hash\":\"9f2a\",\"uid\":3,\"success\":true,\"currency\":\"BTC\"}";
    let p = decode_pay_invoice_body(body).unwrap();
    assert!(!p.failed());
    assert!(p.missing_settlement_proof());
}

#[test]
fn pay_invoice_malformed_body_is_decode_error() {
    assert!(matches!(decode_pay_invoice_body("{"), Err(LnError::Decode)));
}

#[test]
fn transactions_body_keeps_order_and_fields() {
    let one = "{\"txid\":\"t1\",\"created_at\":200,\
        \"outbound_amount\":\"1\",\"inbound_amount\":\"1\",\
        \"outbound_account_id\":\"oa\",\"inbound_account_id\":\"ia\",\
        \"outbound_uid\":1,\"inbound_uid\":2,\
        \"outbound_currency\":\"BTC\",\"inbound_currency\":\"BTC\",\
        \"exchange_rate\":\"1\",\"tx_type\":\"ln\",\"fees\":\"0\",\
        \"reference\":\"invoice 1\"}";
    let two = "{\"txid\":\"t2\",\"created_at\":100,\
        \"outbound_amount\":\"2\",\"inbound_amount\":\"2\",\
        \"outbound_account_id\":\"oa\",\"inbound_account_id\":\"ia\",\
        \"outbound_uid\":1,\"inbound_uid\":2,\
        \"outbound_currency\":\"BTC\",\"inbound_currency\":\"BTC\",\
        \"exchange_rate\":\"1\",\"tx_type\":\"ln\",\"fees\":\"0\"}";
    let body = format!("[{},{}]", one, two);
    let txs = decode_txs_body(&body).unwrap();
    assert_eq!(txs.len(), 2);
    assert_eq!(txs[0].txid, "t1");
    assert_eq!(txs[0].created_at, 200);
    assert_eq!(txs[0].reference.as_deref(), Some("invoice 1"));
    assert_eq!(txs[1].txid, "t2");
    assert_eq!(txs[1].reference, None);
}

#[test]
fn transactions_body_must_be_an_array() {
    assert!(matches!(decode_txs_body("{\"txid\":\"t1\"}"), Err(LnError::Decode)));
}

#[test]
fn transactions_bad_element_is_decode_error() {
    assert!(matches!(decode_txs_body("[{\"txid\":\"t1\"}]"), Err(LnError::Decode)));
}
