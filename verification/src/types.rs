use vstd::prelude::*;

use crate::errors::LnError;

verus! {

/// The view of an optional owned string: the character sequence it holds,
/// if any.
pub open spec fn opt_str_view(o: Option<String>) -> Option<Seq<char>> {
    match o {
        Some(s) => Some(s@),
        None => None,
    }
}

/// Wallet credentials, sent once to provision a wallet or to authenticate;
/// never retained after the call returns.
#[derive(Debug, Clone)]
pub struct Credentials {
    pub username: String,
    pub password: String,
}

pub struct CredentialsV {
    pub username: Seq<char>,
    pub password: Seq<char>,
}

impl View for Credentials {
    type V = CredentialsV;

    open spec fn view(&self) -> CredentialsV {
        CredentialsV { username: self.username@, password: self.password@ }
    }
}

impl Credentials {
    /// The JSON body these credentials travel in, for the provisioning and
    /// auth endpoints.
    pub fn body(&self) -> (r: String)
        ensures
            r@ == crate::encode::credentials_body_spec(self@.username, self@.password),
    {
        crate::encode::credentials_body(self.username.as_str(), self.password.as_str())
    }
}

/// The two shapes a wallet-creation response takes, distinguished only by
/// which field the service sent.
#[derive(Debug, Clone)]
pub enum CreateWalletResponse {
    Username { username: String },
    Error { error: String },
}

/// Bearer and refresh tokens returned by the auth endpoint.
#[derive(Debug)]
pub struct Tokens {
    pub refresh: String,
    pub token: String,
}

pub struct TokensV {
    pub refresh: Seq<char>,
    pub token: Seq<char>,
}

impl View for Tokens {
    type V = TokensV;

    open spec fn view(&self) -> TokensV {
        TokensV { refresh: self.refresh@, token: self.token@ }
    }
}

/// An amount with its currency. The value is a decimal string, never a
/// binary float, so amounts round-trip exactly.
#[derive(Debug, Clone, PartialEq, Eq)]
pub struct Money {
    pub value: String,
    pub currency: String,
}

pub struct MoneyV {
    pub value: Seq<char>,
    pub currency: Seq<char>,
}

impl View for Money {
    type V = MoneyV;

    open spec fn view(&self) -> MoneyV {
        MoneyV { value: self.value@, currency: self.currency@ }
    }
}

pub open spec fn opt_money_view(o: Option<Money>) -> Option<MoneyV> {
    match o {
        Some(m) => Some(m@),
        None => None,
    }
}

/// The response to an invoice-creation request. A present `error` means the
/// invoice was not created; an absent `payment_request` without an `error`
/// is an incomplete response that `outcome` reports rather than accepts.
#[derive(Debug, Clone)]
pub struct AddInvoiceResponse {
    pub req_id: String,
    pub uid: u32,
    pub payment_request: Option<String>,
    pub meta: Option<String>,
    pub metadata: Option<String>,
    pub amount: Money,
    pub rate: Option<String>,
    pub currency: String,
    pub target_account_currency: Option<String>,
    pub account_id: Option<String>,
    pub error: Option<String>,
    pub fees: Option<String>,
}

pub struct AddInvoiceResponseV {
    pub req_id: Seq<char>,
    pub uid: u32,
    pub payment_request: Option<Seq<char>>,
    pub meta: Option<Seq<char>>,
    pub metadata: Option<Seq<char>>,
    pub amount: MoneyV,
    pub rate: Option<Seq<char>>,
    pub currency: Seq<char>,
    pub target_account_currency: Option<Seq<char>>,
    pub account_id: Option<Seq<char>>,
    pub error: Option<Seq<char>>,
    pub fees: Option<Seq<char>>,
}

impl AddInvoiceResponse {
    /// Classifies this response. A non-empty `error` is the service
    /// refusing the invoice, a recoverable condition of its own. Otherwise
    /// a missing `payment_request` is an incomplete response that must be
    /// surfaced, not accepted as success. Otherwise the invoice stands.
    pub fn outcome(&self) -> (r: Result<(), LnError>)
        ensures
            match r {
                Ok(()) => !(self@.error matches Some(e) && e.len() > 0) && self@.payment_request
                    is Some,
                Err(LnError::Application(msg)) => self@.error == Some(msg@) && msg@.len() > 0,
                Err(LnError::Decode) => !(self@.error matches Some(e) && e.len() > 0)
                    && self@.payment_request is None,
                Err(_) => false,
            },
    {
        match &self.error {
            Some(e) if !e.as_str().is_empty() => Err(LnError::Application(e.clone())),
            _ => match &self.payment_request {
                Some(_) => Ok(()),
                None => Err(LnError::Decode),
            },
        }
    }
}

impl View for AddInvoiceResponse {
    type V = AddInvoiceResponseV;

    open spec fn view(&self) -> AddInvoiceResponseV {
        AddInvoiceResponseV {
            req_id: self.req_id@,
            uid: self.uid,
            payment_request: opt_str_view(self.payment_request),
            meta: opt_str_view(self.meta),
            metadata: opt_str_view(self.metadata),
            amount: self.amount@,
            rate: opt_str_view(self.rate),
            currency: self.currency@,
            target_account_currency: opt_str_view(self.target_account_currency),
            account_id: opt_str_view(self.account_id),
            error: opt_str_view(self.error),
            fees: opt_str_view(self.fees),
        }
    }
}

/// One sub-account of a wallet, as the balance endpoint reports it.
#[derive(Debug, Clone)]
pub struct Account {
    pub account_id: String,
    pub balance: String,
    pub currency: String,
}

pub struct AccountV {
    pub account_id: Seq<char>,
    pub balance: Seq<char>,
    pub currency: Seq<char>,
}

impl View for Account {
    type V = AccountV;

    open spec fn view(&self) -> AccountV {
        AccountV {
            account_id: self.account_id@,
            balance: self.balance@,
            currency: self.currency@,
        }
    }
}

impl Account {
    /// An equal copy of this account.
    pub fn duplicate(&self) -> (r: Account)
        ensures
            r@ == self@,
    {
        Account {
            account_id: self.account_id.clone(),
            balance: self.balance.clone(),
            currency: self.currency.clone(),
        }
    }
}

/// The balance endpoint's response: sub-accounts keyed by identifier. The
/// entries stand in the order the decoded body presented them; the service
/// guarantees no order.
#[derive(Debug, Clone)]
pub struct BalancesResponse {
    pub uid: u32,
    pub accounts: Vec<(String, Account)>,
    pub error: Option<String>,
}

pub struct BalancesResponseV {
    pub uid: u32,
    pub accounts: Seq<(Seq<char>, AccountV)>,
    pub error: Option<Seq<char>>,
}

/// The invariant a decoded balance record keeps from the JSON object it
/// came from: its account keys are pairwise distinct.
pub open spec fn balance_keys_unique(b: BalancesResponseV) -> bool {
    forall|i: int, q: int|
        0 <= i < q < b.accounts.len() ==> (#[trigger] b.accounts[i]).0 != (
        #[trigger] b.accounts[q]).0
}

impl View for BalancesResponse {
    type V = BalancesResponseV;

    open spec fn view(&self) -> BalancesResponseV {
        BalancesResponseV {
            uid: self.uid,
            accounts: Seq::new(
                self.accounts@.len(),
                |i: int| (self.accounts@[i].0@, self.accounts@[i].1@),
            ),
            error: opt_str_view(self.error),
        }
    }
}

impl BalancesResponse {
    /// Classifies this response. A non-empty `error` is the service
    /// reporting a failure, a recoverable condition of its own that must be
    /// surfaced, never dropped; an absent or empty `error` leaves the
    /// record good.
    pub fn outcome(&self) -> (r: Result<(), LnError>)
        ensures
            match r {
                Ok(()) => !(self@.error matches Some(e) && e.len() > 0),
                Err(LnError::Application(msg)) => self@.error == Some(msg@) && msg@.len() > 0,
                Err(_) => false,
            },
    {
        match &self.error {
            Some(e) if !e.as_str().is_empty() => Err(LnError::Application(e.clone())),
            _ => Ok(()),
        }
    }

    /// The accounts alone, in the order this record holds them. The keys
    /// are dropped: each account carries its own identifier.
    pub fn account_list(&self) -> (r: Vec<Account>)
        ensures
            r@.len() == self@.accounts.len(),
            forall|i: int| 0 <= i < r@.len() ==> r@[i]@ == self@.accounts[i].1,
    {
        let mut out: Vec<Account> = Vec::new();
        let n = self.accounts.len();
        let mut i: usize = 0;
        while i < n
            invariant
                n == self.accounts.len(),
                0 <= i <= n,
                out@.len() == i,
                forall|q: int| 0 <= q < i ==> out@[q]@ == self@.accounts[q].1,
            decreases n - i,
        {
            out.push(self.accounts[i].1.duplicate());
            i = i + 1;
        }
        out
    }
}

/// The body of a payment request: the BOLT11 string to pay.
#[derive(Debug)]
pub struct PayInvoiceRequest {
    pub payment_request: String,
}

pub struct PayInvoiceRequestV {
    pub payment_request: Seq<char>,
}

impl View for PayInvoiceRequest {
    type V = PayInvoiceRequestV;

    open spec fn view(&self) -> PayInvoiceRequestV {
        PayInvoiceRequestV { payment_request: self.payment_request@ }
    }
}

impl PayInvoiceRequest {
    /// The JSON body this request travels in, for the payment endpoint.
    pub fn body(&self) -> (r: String)
        ensures
            r@ == crate::encode::pay_invoice_body_spec(self@.payment_request),
    {
        crate::encode::pay_invoice_body(self.payment_request.as_str())
    }
}

/// One settled ledger entry. The service returns entries newest first; this
/// client keeps that order and does not re-sort.
#[derive(Debug)]
pub struct Transaction {
    pub txid: String,
    pub fee_txid: Option<String>,
    pub outbound_txid: Option<String>,
    pub inbound_txid: Option<String>,
    pub created_at: u64,
    pub outbound_amount: String,
    pub inbound_amount: String,
    pub outbound_account_id: String,
    pub inbound_account_id: String,
    pub outbound_uid: u32,
    pub inbound_uid: u32,
    pub outbound_currency: String,
    pub inbound_currency: String,
    pub exchange_rate: String,
    pub tx_type: String,
    pub fees: String,
    pub reference: Option<String>,
}

pub struct TransactionV {
    pub txid: Seq<char>,
    pub fee_txid: Option<Seq<char>>,
    pub outbound_txid: Option<Seq<char>>,
    pub inbound_txid: Option<Seq<char>>,
    pub created_at: u64,
    pub outbound_amount: Seq<char>,
    pub inbound_amount: Seq<char>,
    pub outbound_account_id: Seq<char>,
    pub inbound_account_id: Seq<char>,
    pub outbound_uid: u32,
    pub inbound_uid: u32,
    pub outbound_currency: Seq<char>,
    pub inbound_currency: Seq<char>,
    pub exchange_rate: Seq<char>,
    pub tx_type: Seq<char>,
    pub fees: Seq<char>,
    pub reference: Option<Seq<char>>,
}

impl View for Transaction {
    type V = TransactionV;

    open spec fn view(&self) -> TransactionV {
        TransactionV {
            txid: self.txid@,
            fee_txid: opt_str_view(self.fee_txid),
            outbound_txid: opt_str_view(self.outbound_txid),
            inbound_txid: opt_str_view(self.inbound_txid),
            created_at: self.created_at,
            outbound_amount: self.outbound_amount@,
            inbound_amount: self.inbound_amount@,
            outbound_account_id: self.outbound_account_id@,
            inbound_account_id: self.inbound_account_id@,
            outbound_uid: self.outbound_uid,
            inbound_uid: self.inbound_uid,
            outbound_currency: self.outbound_currency@,
            inbound_currency: self.inbound_currency@,
            exchange_rate: self.exchange_rate@,
            tx_type: self.tx_type@,
            fees: self.fees@,
            reference: opt_str_view(self.reference),
        }
    }
}

/// The payment endpoint's response. `success` is authoritative, but a
/// present non-empty `error` also marks the payment as failed, and a
/// success without a preimage is inconsistent; `failed` and
/// `missing_settlement_proof` read those rules off the record.
#[derive(Debug, Clone, PartialEq, Eq)]
pub struct PayInvoiceResponse {
    pub payment_hash: String,
    pub uid: u32,
    pub success: bool,
    pub currency: String,
    pub payment_request: Option<String>,
    pub amount: Option<Money>,
    pub fees: Option<Money>,
    pub error: Option<String>,
    pub payment_preimage: Option<String>,
    pub destination: Option<String>,
    pub description: Option<String>,
}

pub struct PayInvoiceResponseV {
    pub payment_hash: Seq<char>,
    pub uid: u32,
    pub success: bool,
    pub currency: Seq<char>,
    pub payment_request: Option<Seq<char>>,
    pub amount: Option<MoneyV>,
    pub fees: Option<MoneyV>,
    pub error: Option<Seq<char>>,
    pub payment_preimage: Option<Seq<char>>,
    pub destination: Option<Seq<char>>,
    pub description: Option<Seq<char>>,
}

impl View for PayInvoiceResponse {
    type V = PayInvoiceResponseV;

    open spec fn view(&self) -> PayInvoiceResponseV {
        PayInvoiceResponseV {
            payment_hash: self.payment_hash@,
            uid: self.uid,
            success: self.success,
            currency: self.currency@,
            payment_request: opt_str_view(self.payment_request),
            amount: opt_money_view(self.amount),
            fees: opt_money_view(self.fees),
            error: opt_str_view(self.error),
            payment_preimage: opt_str_view(self.payment_preimage),
            destination: opt_str_view(self.destination),
            description: opt_str_view(self.description),
        }
    }
}

/// Whether a payment response reports failure: the payment failed if the
/// service said `success == false`, or if it attached a non-empty `error`,
/// even when the two are inconsistent with each other.
pub open spec fn spec_payment_failed(p: PayInvoiceResponseV) -> bool {
    !p.success || (p.error matches Some(e) && e.len() > 0)
}

impl PayInvoiceResponse {
    /// Whether this response must be treated as a failed payment.
    pub fn failed(&self) -> (r: bool)
        ensures
            r == spec_payment_failed(self@),
    {
        if !self.success {
            true
        } else {
            match &self.error {
                Some(e) => !e.as_str().is_empty(),
                None => false,
            }
        }
    }

    /// Whether the response claims success without revealing a preimage.
    /// Such a record is inconsistent and should not be trusted blindly.
    pub fn missing_settlement_proof(&self) -> (r: bool)
        ensures
            r == (self@.success && self@.payment_preimage is None),
    {
        self.success && match &self.payment_preimage {
            Some(_) => false,
            None => true,
        }
    }
}

} // verus!
