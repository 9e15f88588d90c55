use vstd::prelude::*;

use crate::errors::LnError;
use crate::hex::{hex_of, to_hex};
use crate::types::opt_str_view;
use std::str::FromStr;

verus! {

/// The fields a BOLT11 payment request carries, as the parser hands them
/// over: the payment hash and payee key still as bytes, the amount in
/// millisatoshis where the invoice names one, the direct description where
/// it carries one (`None` when only a description hash is present), the
/// expiry in seconds (the standard default where the invoice names none),
/// and the invoice's timestamp as seconds since the Unix epoch.
#[derive(Debug)]
pub struct RawBolt11 {
    pub payment_hash: Vec<u8>,
    pub amount_msat: Option<u64>,
    pub description: Option<String>,
    pub expiry_secs: u64,
    pub timestamp_secs: u64,
    pub payee_pubkey: Vec<u8>,
}

/// What the BOLT11 parser makes of a payment-request string: `None` when
/// the string is not a valid invoice (bad checksum, bad prefix, truncated
/// data, unsupported version), the extracted fields otherwise.
pub uninterp spec fn bolt11_of(s: Seq<char>) -> Option<RawBolt11>;

/// Relies on `lightning_invoice::Bolt11Invoice::from_str` and its field
/// accessors: whether a string parses as a BOLT11 invoice, and every field
/// read here — payment hash, amount, description, expiry, timestamp and
/// payee key (recovered from the signature when not explicit) — depend on
/// the string alone.
#[verifier::external_body]
fn parse_bolt11(s: &str) -> (r: Option<RawBolt11>)
    ensures
        r == bolt11_of(s@),
{
    match lightning_invoice::Bolt11Invoice::from_str(s) {
        Err(_) => None,
        Ok(inv) => Some(RawBolt11 {
            payment_hash: AsRef::<[u8]>::as_ref(inv.payment_hash()).to_vec(),
            amount_msat: inv.amount_milli_satoshis(),
            description: match inv.description() {
                lightning_invoice::Bolt11InvoiceDescriptionRef::Direct(d) => Some(d.as_inner().0.clone()),
                lightning_invoice::Bolt11InvoiceDescriptionRef::Hash(_) => None,
            },
            expiry_secs: inv.expiry_time().as_secs(),
            timestamp_secs: inv.duration_since_epoch().as_secs(),
            payee_pubkey: inv.get_payee_pub_key().serialize().to_vec(),
        }),
    }
}

/// A decoded invoice, every field a plain value: the payment hash and the
/// payee's public key in lower-case hexadecimal, the amount in
/// millisatoshis where the invoice names one, the direct description where
/// it carries one, the expiry in seconds, and the timestamp as seconds
/// since the Unix epoch.
#[derive(Debug, Clone)]
pub struct DecodedInvoice {
    pub payment_hash: String,
    pub amount_msat: Option<u64>,
    pub description: Option<String>,
    pub expiry_secs: u64,
    pub timestamp_secs: u64,
    pub payee_pubkey: String,
}

pub struct DecodedInvoiceV {
    pub payment_hash: Seq<char>,
    pub amount_msat: Option<u64>,
    pub description: Option<Seq<char>>,
    pub expiry_secs: u64,
    pub timestamp_secs: u64,
    pub payee_pubkey: Seq<char>,
}

impl View for DecodedInvoice {
    type V = DecodedInvoiceV;

    open spec fn view(&self) -> DecodedInvoiceV {
        DecodedInvoiceV {
            payment_hash: self.payment_hash@,
            amount_msat: self.amount_msat,
            description: opt_str_view(self.description),
            expiry_secs: self.expiry_secs,
            timestamp_secs: self.timestamp_secs,
            payee_pubkey: self.payee_pubkey@,
        }
    }
}

/// What a decoded invoice holds for given raw fields: the byte strings in
/// lower-case hexadecimal, everything else unchanged.
pub open spec fn decoded_of(raw: RawBolt11) -> DecodedInvoiceV {
    DecodedInvoiceV {
        payment_hash: hex_of(raw.payment_hash@),
        amount_msat: raw.amount_msat,
        description: opt_str_view(raw.description),
        expiry_secs: raw.expiry_secs,
        timestamp_secs: raw.timestamp_secs,
        payee_pubkey: hex_of(raw.payee_pubkey@),
    }
}

/// Renders raw invoice fields as a decoded invoice: the payment hash and
/// payee key become lower-case hexadecimal, everything else is kept.
pub fn invoice_from_raw(raw: RawBolt11) -> (r: DecodedInvoice)
    ensures
        r@ == decoded_of(raw),
{
    let payment_hash = to_hex(&raw.payment_hash);
    let payee_pubkey = to_hex(&raw.payee_pubkey);
    DecodedInvoice {
        payment_hash,
        amount_msat: raw.amount_msat,
        description: raw.description,
        expiry_secs: raw.expiry_secs,
        timestamp_secs: raw.timestamp_secs,
        payee_pubkey,
    }
}

/// Decodes a BOLT11 payment-request string. This is a pure parse: no
/// network call is made, and a string that is not a valid invoice fails
/// with `InvalidInvoice` and nothing else.
pub fn decode_invoice(payment_request: &str) -> (r: Result<DecodedInvoice, LnError>)
    ensures
        match r {
            Ok(d) => bolt11_of(payment_request@) matches Some(raw) && d@ == decoded_of(raw),
            Err(e) => bolt11_of(payment_request@) is None && e == LnError::InvalidInvoice,
        },
{
    match parse_bolt11(payment_request) {
        Some(raw) => Ok(invoice_from_raw(raw)),
        None => Err(LnError::InvalidInvoice),
    }
}

} // verus!
