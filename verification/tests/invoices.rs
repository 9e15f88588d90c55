use lnclient::bolt11::decode_invoice;
use lnclient::errors::LnError;

// A mainnet invoice from the BOLT11 test vectors: 25 milli-BTC for
// "coffee beans", created 2017-06-01, with a payment secret.
const COFFEE_BEANS: &str = "lnbc25m1pvjluezpp5qqqsyqcyq5rqwzqfqqqsyqcyq5rqwzqfqqqsyqcyq5rqwzqfqyp\
    qdq5vdhkven9v5sxyetpdeessp5zyg3zyg3zyg3zyg3zyg3zyg3zyg3zyg3zyg3zyg3zyg3zyg3zygs9q5sqqqqqqqqqq\
    qqqqqpqsq67gye39hfg3zd8rgc80k32tvy9xk2xunwm5lzexnvpx6fd77en8qaq424dxgt56cag2dpt359k3ssyhetktk\
    pqh24jqnjyw6uqd08sgptq44qu";

#[test]
fn invalid_string_fails_with_invalid_invoice() {
    let r = decode_invoice("not-an-invoice");
    assert!(matches!(r, Err(LnError::InvalidInvoice)));
}

#[test]
fn empty_string_fails_with_invalid_invoice() {
    assert!(matches!(decode_invoice(""), Err(LnError::InvalidInvoice)));
}

#[test]
fn corrupted_checksum_fails_with_invalid_invoice() {
    // The valid invoice below with its last character changed.
    let mut bad = COFFEE_BEANS.to_string();
    bad.pop();
    bad.push('p');
    assert!(matches!(decode_invoice(&bad), Err(LnError::InvalidInvoice)));
}

#[test]
fn known_invoice_decodes_to_published_fields() {
    let d = decode_invoice(COFFEE_BEANS).unwrap();
    assert_eq!(
        d.payment_hash,
        "0001020304050607080900010203040506070809000102030405060708090102"
    );
    // 25 milli-BTC.
    assert_eq!(d.amount_msat, Some(2_500_000_000));
    assert_eq!(d.timestamp_secs, 1496314658);
    assert_eq!(d.description.as_deref(), Some("coffee beans"));
    assert_eq!(
        d.payee_pubkey,
        "03e7156ae33b0a208d0744199163177e909e80176e55d97a2f221ede0f934dd9ad"
    );
    // No expiry is named in the invoice, so the standard default applies.
    assert_eq!(d.expiry_secs, 3600);
}
