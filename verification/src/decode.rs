use vstd::prelude::*;

use crate::errors::LnError;
use crate::json::{
    bool_field, field_of, json_of, opt_str_field, parse_json, str_field, u64_field, JsonValue,
};
use crate::types::{
    Account, AccountV, AddInvoiceResponse, AddInvoiceResponseV, BalancesResponse,
    BalancesResponseV, CreateWalletResponse, Money, MoneyV, PayInvoiceResponse,
    PayInvoiceResponseV, Tokens, TokensV, Transaction, TransactionV,
};

verus! {

// ---------------------------------------------------------------------------
// Shared field readers
// ---------------------------------------------------------------------------

/// The integer under `key`, where it fits in `u32`.
pub open spec fn u32_field(j: JsonValue, key: Seq<char>) -> Option<u32> {
    match u64_field(j, key) {
        Some(n) => if n <= u32::MAX as u64 {
            Some(n as u32)
        } else {
            None
        },
        None => None,
    }
}

fn get_u32(j: &JsonValue, key: &str) -> (r: Option<u32>)
    ensures
        r == u32_field(*j, key@),
{
    match j.get_u64(key) {
        Some(n) => if n <= u32::MAX as u64 {
            Some(n as u32)
        } else {
            None
        },
        None => None,
    }
}

/// An amount record: an object holding a decimal `value` string and a
/// `currency` string.
pub open spec fn money_of(j: JsonValue) -> Option<MoneyV> {
    match (str_field(j, "value"@), str_field(j, "currency"@)) {
        (Some(v), Some(c)) => Some(MoneyV { value: v, currency: c }),
        _ => None,
    }
}

pub fn decode_money(j: &JsonValue) -> (r: Option<Money>)
    ensures
        match r {
            Some(m) => money_of(*j) == Some(m@),
            None => money_of(*j) is None,
        },
{
    match (j.get_str("value"), j.get_str("currency")) {
        (Some(value), Some(currency)) => Some(Money { value, currency }),
        _ => None,
    }
}

/// An optional amount field: `Some(None)` when the key is absent or null,
/// `Some(Some(m))` when it holds an amount record, and `None` when it holds
/// anything else (a shape error).
pub open spec fn opt_money_field(j: JsonValue, key: Seq<char>) -> Option<Option<MoneyV>> {
    match field_of(j, key) {
        None => Some(None),
        Some(JsonValue::Null) => Some(None),
        Some(v) => match money_of(v) {
            Some(m) => Some(Some(m)),
            None => None,
        },
    }
}

fn get_opt_money(j: &JsonValue, key: &str) -> (r: Option<Option<Money>>)
    ensures
        match r {
            Some(Some(m)) => opt_money_field(*j, key@) == Some(Some(m@)),
            Some(None) => opt_money_field(*j, key@) == Some(None::<MoneyV>),
            None => opt_money_field(*j, key@) is None,
        },
{
    match j.get(key) {
        None => Some(None),
        Some(JsonValue::Null) => Some(None),
        Some(v) => match decode_money(v) {
            Some(m) => Some(Some(m)),
            None => None,
        },
    }
}

// ---------------------------------------------------------------------------
// Wallet creation
// ---------------------------------------------------------------------------

/// The wallet-creation response, classified by key presence: `(true,
/// username)` when the `username` key alone is present and holds a string,
/// `(false, error)` when the `error` key alone is present and holds a
/// string, and `None` otherwise — neither key, both keys (whatever their
/// values), or a present key of the wrong type are shapes this client
/// rejects rather than guesses about.
pub open spec fn create_wallet_of(j: JsonValue) -> Option<(bool, Seq<char>)> {
    match (field_of(j, "username"@), field_of(j, "error"@)) {
        (Some(JsonValue::Text(u)), None) => Some((true, u@)),
        (None, Some(JsonValue::Text(e))) => Some((false, e@)),
        _ => None,
    }
}

pub fn decode_create_wallet(j: &JsonValue) -> (r: Result<CreateWalletResponse, LnError>)
    ensures
        match r {
            Ok(CreateWalletResponse::Username { username }) => create_wallet_of(*j) == Some(
                (true, username@),
            ),
            Ok(CreateWalletResponse::Error { error }) => create_wallet_of(*j) == Some(
                (false, error@),
            ),
            Err(e) => create_wallet_of(*j) is None && e == LnError::Decode,
        },
{
    match (j.get("username"), j.get("error")) {
        (Some(JsonValue::Text(u)), None) => Ok(
            CreateWalletResponse::Username { username: u.clone() },
        ),
        (None, Some(JsonValue::Text(e))) => Ok(CreateWalletResponse::Error { error: e.clone() }),
        _ => Err(LnError::Decode),
    }
}

/// Decodes a wallet-creation response body. Both shapes the service sends
/// are tried, selected by key presence; a body that is not JSON, or that
/// carries neither or both of the distinguishing keys, is a `Decode`
/// failure.
pub fn decode_create_wallet_body(body: &str) -> (r: Result<CreateWalletResponse, LnError>)
    ensures
        match json_of(body@) {
            Some(j) => match r {
                Ok(CreateWalletResponse::Username { username }) => create_wallet_of(j) == Some(
                    (true, username@),
                ),
                Ok(CreateWalletResponse::Error { error }) => create_wallet_of(j) == Some(
                    (false, error@),
                ),
                Err(e) => create_wallet_of(j) is None && e == LnError::Decode,
            },
            None => r matches Err(e) && e == LnError::Decode,
        },
{
    match parse_json(body) {
        Some(j) => decode_create_wallet(&j),
        None => Err(LnError::Decode),
    }
}

// ---------------------------------------------------------------------------
// Authentication
// ---------------------------------------------------------------------------

/// A usable token pair: both strings present and non-empty. Anything less
/// is no authentication.
pub open spec fn tokens_of(j: JsonValue) -> Option<TokensV> {
    match (str_field(j, "refresh"@), str_field(j, "token"@)) {
        (Some(r), Some(t)) => if r.len() > 0 && t.len() > 0 {
            Some(TokensV { refresh: r, token: t })
        } else {
            None
        },
        _ => None,
    }
}

pub fn decode_tokens(j: &JsonValue) -> (r: Result<Tokens, LnError>)
    ensures
        match r {
            Ok(t) => tokens_of(*j) == Some(t@),
            Err(e) => tokens_of(*j) is None && e == LnError::Auth,
        },
{
    match (j.get_str("refresh"), j.get_str("token")) {
        (Some(refresh), Some(token)) => {
            if refresh.as_str().is_empty() || token.as_str().is_empty() {
                Err(LnError::Auth)
            } else {
                Ok(Tokens { refresh, token })
            }
        },
        _ => Err(LnError::Auth),
    }
}

/// Decodes an authentication response body. Every shortfall — a body that
/// is not JSON, a missing field, or an empty token — is an `Auth` failure:
/// the exchange yielded no usable token pair.
pub fn decode_auth_body(body: &str) -> (r: Result<Tokens, LnError>)
    ensures
        match json_of(body@) {
            Some(j) => match r {
                Ok(t) => tokens_of(j) == Some(t@),
                Err(e) => tokens_of(j) is None && e == LnError::Auth,
            },
            None => r matches Err(e) && e == LnError::Auth,
        },
        r matches Ok(t) ==> t@.refresh.len() > 0 && t@.token.len() > 0,
{
    match parse_json(body) {
        Some(j) => decode_tokens(&j),
        None => Err(LnError::Auth),
    }
}

// ---------------------------------------------------------------------------
// Invoice creation
// ---------------------------------------------------------------------------

/// The full invoice-creation record: `req_id`, `uid`, `amount` and
/// `currency` are required, the rest may be absent or null.
pub open spec fn add_invoice_of(j: JsonValue) -> Option<AddInvoiceResponseV> {
    match (str_field(j, "req_id"@), u32_field(j, "uid"@), field_of(j, "amount"@), str_field(j, "currency"@)) {
        (Some(req_id), Some(uid), Some(amount_json), Some(currency)) => match (
            money_of(amount_json),
            opt_str_field(j, "payment_request"@),
            opt_str_field(j, "meta"@),
            opt_str_field(j, "metadata"@),
        ) {
            (Some(amount), Some(payment_request), Some(meta), Some(metadata)) => match (
                opt_str_field(j, "rate"@),
                opt_str_field(j, "target_account_currency"@),
                opt_str_field(j, "account_id"@),
            ) {
                (Some(rate), Some(target_account_currency), Some(account_id)) => match (
                    opt_str_field(j, "error"@),
                    opt_str_field(j, "fees"@),
                ) {
                    (Some(error), Some(fees)) => Some(
                        AddInvoiceResponseV {
                            req_id,
                            uid,
                            payment_request,
                            meta,
                            metadata,
                            amount,
                            rate,
                            currency,
                            target_account_currency,
                            account_id,
                            error,
                            fees,
                        },
                    ),
                    _ => None,
                },
                _ => None,
            },
            _ => None,
        },
        _ => None,
    }
}

pub fn decode_add_invoice(j: &JsonValue) -> (r: Result<AddInvoiceResponse, LnError>)
    ensures
        match r {
            Ok(a) => add_invoice_of(*j) == Some(a@),
            Err(e) => add_invoice_of(*j) is None && e == LnError::Decode,
        },
{
    let req_id = match j.get_str("req_id") {
        Some(s) => s,
        None => return Err(LnError::Decode),
    };
    let uid = match get_u32(j, "uid") {
        Some(n) => n,
        None => return Err(LnError::Decode),
    };
    let amount = match j.get("amount") {
        Some(v) => match decode_money(v) {
            Some(m) => m,
            None => return Err(LnError::Decode),
        },
        None => return Err(LnError::Decode),
    };
    let currency = match j.get_str("currency") {
        Some(s) => s,
        None => return Err(LnError::Decode),
    };
    let payment_request = match j.get_opt_str("payment_request") {
        Some(o) => o,
        None => return Err(LnError::Decode),
    };
    let meta = match j.get_opt_str("meta") {
        Some(o) => o,
        None => return Err(LnError::Decode),
    };
    let metadata = match j.get_opt_str("metadata") {
        Some(o) => o,
        None => return Err(LnError::Decode),
    };
    let rate = match j.get_opt_str("rate") {
        Some(o) => o,
        None => return Err(LnError::Decode),
    };
    let target_account_currency = match j.get_opt_str("target_account_currency") {
        Some(o) => o,
        None => return Err(LnError::Decode),
    };
    let account_id = match j.get_opt_str("account_id") {
        Some(o) => o,
        None => return Err(LnError::Decode),
    };
    let error = match j.get_opt_str("error") {
        Some(o) => o,
        None => return Err(LnError::Decode),
    };
    let fees = match j.get_opt_str("fees") {
        Some(o) => o,
        None => return Err(LnError::Decode),
    };
    Ok(
        AddInvoiceResponse {
            req_id,
            uid,
            payment_request,
            meta,
            metadata,
            amount,
            rate,
            currency,
            target_account_currency,
            account_id,
            error,
            fees,
        },
    )
}

/// Decodes an invoice-creation response body; a body that is not JSON or
/// does not have the expected shape is a `Decode` failure.
pub fn decode_add_invoice_body(body: &str) -> (r: Result<AddInvoiceResponse, LnError>)
    ensures
        match json_of(body@) {
            Some(j) => match r {
                Ok(a) => add_invoice_of(j) == Some(a@),
                Err(e) => add_invoice_of(j) is None && e == LnError::Decode,
            },
            None => r matches Err(e) && e == LnError::Decode,
        },
{
    match parse_json(body) {
        Some(j) => decode_add_invoice(&j),
        None => Err(LnError::Decode),
    }
}

// ---------------------------------------------------------------------------
// Balances
// ---------------------------------------------------------------------------

/// One sub-account record: three required strings.
pub open spec fn account_of(j: JsonValue) -> Option<AccountV> {
    match (str_field(j, "account_id"@), str_field(j, "balance"@), str_field(j, "currency"@)) {
        (Some(a), Some(b), Some(c)) => Some(AccountV { account_id: a, balance: b, currency: c }),
        _ => None,
    }
}

pub fn decode_account(j: &JsonValue) -> (r: Option<Account>)
    ensures
        match r {
            Some(a) => account_of(*j) == Some(a@),
            None => account_of(*j) is None,
        },
{
    match (j.get_str("account_id"), j.get_str("balance"), j.get_str("currency")) {
        (Some(account_id), Some(balance), Some(currency)) => Some(
            Account { account_id, balance, currency },
        ),
        _ => None,
    }
}

/// The accounts object decoded entry by entry, keys kept, order kept.
pub open spec fn accounts_of(entries: Seq<(String, JsonValue)>) -> Option<
    Seq<(Seq<char>, AccountV)>,
>
    decreases entries.len(),
{
    if entries.len() == 0 {
        Some(Seq::empty())
    } else {
        match (account_of(entries[0].1), accounts_of(entries.drop_first())) {
            (Some(a), Some(rest)) => Some(seq![(entries[0].0@, a)] + rest),
            _ => None,
        }
    }
}

/// The view of a decoded account list, entry by entry.
pub open spec fn account_entries_view(v: Seq<(String, Account)>) -> Seq<(Seq<char>, AccountV)> {
    Seq::new(v.len(), |i: int| (v[i].0@, v[i].1@))
}

fn decode_accounts_from(fs: &Vec<(String, JsonValue)>, i: usize) -> (r: Result<
    Vec<(String, Account)>,
    LnError,
>)
    requires
        i <= fs.len(),
    ensures
        match r {
            Ok(v) => accounts_of(fs@.skip(i as int)) == Some(account_entries_view(v@)),
            Err(e) => accounts_of(fs@.skip(i as int)) is None && e == LnError::Decode,
        },
    decreases fs.len() - i,
{
    if i == fs.len() {
        proof {
            assert(fs@.skip(i as int).len() == 0);
            assert(account_entries_view(Seq::empty()) =~= Seq::<(Seq<char>, AccountV)>::empty());
        }
        Ok(Vec::new())
    } else {
        proof {
            assert(fs@.skip(i as int)[0] == fs@[i as int]);
            assert(fs@.skip(i as int).drop_first() =~= fs@.skip(i as int + 1));
        }
        match decode_account(&fs[i].1) {
            None => Err(LnError::Decode),
            Some(a) => match decode_accounts_from(fs, i + 1) {
                Err(e) => Err(e),
                Ok(mut rest) => {
                    rest.insert(0, (fs[i].0.clone(), a));
                    proof {
                        assert(account_entries_view(rest@) =~= seq![
                            (fs@[i as int].0@, account_of(fs@[i as int].1)->Some_0),
                        ] + account_entries_view(rest@.drop_first()));
                    }
                    Ok(rest)
                },
            },
        }
    }
}

/// The full balance record: a `uid`, an `accounts` object whose every entry
/// is a sub-account record, and an optional `error` string.
pub open spec fn balances_of(j: JsonValue) -> Option<BalancesResponseV> {
    match (u32_field(j, "uid"@), opt_str_field(j, "error"@), field_of(j, "accounts"@)) {
        (Some(uid), Some(error), Some(JsonValue::Obj(fs))) => match accounts_of(fs@) {
            Some(accounts) => Some(BalancesResponseV { uid, accounts, error }),
            None => None,
        },
        _ => None,
    }
}

proof fn lemma_accounts_of_keys(fs: Seq<(String, JsonValue)>)
    requires
        accounts_of(fs) is Some,
    ensures
        accounts_of(fs)->Some_0.len() == fs.len(),
        forall|q: int|
            0 <= q < fs.len() ==> (#[trigger] accounts_of(fs)->Some_0[q]).0 == fs[q].0@,
    decreases fs.len(),
{
    if fs.len() == 0 {
    } else {
        lemma_accounts_of_keys(fs.drop_first());
        let s = accounts_of(fs)->Some_0;
        let rest = accounts_of(fs.drop_first())->Some_0;
        assert(s == seq![(fs[0].0@, account_of(fs[0].1)->Some_0)] + rest);
        assert forall|q: int| 0 <= q < fs.len() implies (#[trigger] s[q]).0 == fs[q].0@ by {
            if q > 0 {
                assert(s[q] == rest[q - 1]);
                assert(fs.drop_first()[q - 1] == fs[q]);
            }
        }
    }
}

/// Decodes a balance record. On a tree with distinct object keys — every
/// tree a parsed body yields — the record keeps the `accounts` object's
/// key-uniqueness.
pub fn decode_balances(j: &JsonValue) -> (r: Result<BalancesResponse, LnError>)
    ensures
        match r {
            Ok(b) => balances_of(*j) == Some(b@),
            Err(e) => balances_of(*j) is None && e == LnError::Decode,
        },
        crate::json::distinct_keys(*j) ==> (r matches Ok(b) ==> crate::types::balance_keys_unique(
            b@,
        )),
{
    let uid = match get_u32(j, "uid") {
        Some(n) => n,
        None => return Err(LnError::Decode),
    };
    let error = match j.get_opt_str("error") {
        Some(o) => o,
        None => return Err(LnError::Decode),
    };
    let fs = match j.get("accounts") {
        Some(v) => match v.entries() {
            Some(fs) => fs,
            None => return Err(LnError::Decode),
        },
        None => return Err(LnError::Decode),
    };
    proof {
        assert(fs@.skip(0) =~= fs@);
    }
    match decode_accounts_from(fs, 0) {
        Ok(accounts) => {
            proof {
                if crate::json::distinct_keys(*j) {
                    crate::json::lemma_field_distinct(*j, "accounts"@);
                    lemma_accounts_of_keys(fs@);
                }
            }
            Ok(BalancesResponse { uid, accounts, error })
        },
        Err(e) => Err(e),
    }
}

/// Decodes a balance response body into the sub-account list the caller
/// wants: the map's values in the order the decoded body presented them,
/// each key dropped as redundant with the account's own identifier. A
/// well-formed record whose `error` is a non-empty string is a service-
/// reported failure and comes back as an `Application` error, never as a
/// plain account list.
pub fn decode_balance_body(body: &str) -> (r: Result<Vec<Account>, LnError>)
    ensures
        match json_of(body@) {
            Some(j) => match r {
                Ok(v) => balances_of(j) matches Some(b) && !(b.error matches Some(msg)
                    && msg.len() > 0) && v@.len() == b.accounts.len() && (forall|q: int|
                    0 <= q < v@.len() ==> v@[q]@ == b.accounts[q].1),
                Err(e) => match balances_of(j) {
                    Some(b) => e matches LnError::Application(m) && b.error == Some(m@)
                        && m@.len() > 0,
                    None => e == LnError::Decode,
                },
            },
            None => r matches Err(e) && e == LnError::Decode,
        },
{
    match parse_json(body) {
        Some(j) => match decode_balances(&j) {
            Ok(b) => match b.outcome() {
                Ok(()) => Ok(b.account_list()),
                Err(e) => Err(e),
            },
            Err(e) => Err(e),
        },
        None => Err(LnError::Decode),
    }
}

// ---------------------------------------------------------------------------
// Payment
// ---------------------------------------------------------------------------

/// The full payment record: `payment_hash`, `uid`, `success` and `currency`
/// are required, the rest may be absent or null; `amount` and `fees`, when
/// present, are amount records.
pub open spec fn pay_invoice_of(j: JsonValue) -> Option<PayInvoiceResponseV> {
    match (str_field(j, "payment_hash"@), u32_field(j, "uid"@), bool_field(j, "success"@), str_field(j, "currency"@)) {
        (Some(payment_hash), Some(uid), Some(success), Some(currency)) => match (
            opt_str_field(j, "payment_request"@),
            opt_money_field(j, "amount"@),
            opt_money_field(j, "fees"@),
            opt_str_field(j, "error"@),
        ) {
            (Some(payment_request), Some(amount), Some(fees), Some(error)) => match (
                opt_str_field(j, "payment_preimage"@),
                opt_str_field(j, "destination"@),
                opt_str_field(j, "description"@),
            ) {
                (Some(payment_preimage), Some(destination), Some(description)) => Some(
                    PayInvoiceResponseV {
                        payment_hash,
                        uid,
                        success,
                        currency,
                        payment_request,
                        amount,
                        fees,
                        error,
                        payment_preimage,
                        destination,
                        description,
                    },
                ),
                _ => None,
            },
            _ => None,
        },
        _ => None,
    }
}

pub fn decode_pay_invoice(j: &JsonValue) -> (r: Result<PayInvoiceResponse, LnError>)
    ensures
        match r {
            Ok(p) => pay_invoice_of(*j) == Some(p@),
            Err(e) => pay_invoice_of(*j) is None && e == LnError::Decode,
        },
{
    let payment_hash = match j.get_str("payment_hash") {
        Some(s) => s,
        None => return Err(LnError::Decode),
    };
    let uid = match get_u32(j, "uid") {
        Some(n) => n,
        None => return Err(LnError::Decode),
    };
    let success = match j.get_bool("success") {
        Some(b) => b,
        None => return Err(LnError::Decode),
    };
    let currency = match j.get_str("currency") {
        Some(s) => s,
        None => return Err(LnError::Decode),
    };
    let payment_request = match j.get_opt_str("payment_request") {
        Some(o) => o,
        None => return Err(LnError::Decode),
    };
    let amount = match get_opt_money(j, "amount") {
        Some(o) => o,
        None => return Err(LnError::Decode),
    };
    let fees = match get_opt_money(j, "fees") {
        Some(o) => o,
        None => return Err(LnError::Decode),
    };
    let error = match j.get_opt_str("error") {
        Some(o) => o,
        None => return Err(LnError::Decode),
    };
    let payment_preimage = match j.get_opt_str("payment_preimage") {
        Some(o) => o,
        None => return Err(LnError::Decode),
    };
    let destination = match j.get_opt_str("destination") {
        Some(o) => o,
        None => return Err(LnError::Decode),
    };
    let description = match j.get_opt_str("description") {
        Some(o) => o,
        None => return Err(LnError::Decode),
    };
    Ok(
        PayInvoiceResponse {
            payment_hash,
            uid,
            success,
            currency,
            payment_request,
            amount,
            fees,
            error,
            payment_preimage,
            destination,
            description,
        },
    )
}

/// Decodes a payment response body; a body that is not JSON or does not
/// have the expected shape is a `Decode` failure. Whether the payment
/// succeeded is a separate question the caller must put to
/// `PayInvoiceResponse::failed`.
pub fn decode_pay_invoice_body(body: &str) -> (r: Result<PayInvoiceResponse, LnError>)
    ensures
        match json_of(body@) {
            Some(j) => match r {
                Ok(p) => pay_invoice_of(j) == Some(p@),
                Err(e) => pay_invoice_of(j) is None && e == LnError::Decode,
            },
            None => r matches Err(e) && e == LnError::Decode,
        },
{
    match parse_json(body) {
        Some(j) => decode_pay_invoice(&j),
        None => Err(LnError::Decode),
    }
}

// ---------------------------------------------------------------------------
// Transaction history
// ---------------------------------------------------------------------------

/// One settled ledger entry; thirteen required fields, four optional.
pub open spec fn transaction_of(j: JsonValue) -> Option<TransactionV> {
    match (str_field(j, "txid"@), u64_field(j, "created_at"@), u32_field(j, "outbound_uid"@), u32_field(j, "inbound_uid"@)) {
        (Some(txid), Some(created_at), Some(outbound_uid), Some(inbound_uid)) => match (
            str_field(j, "outbound_amount"@),
            str_field(j, "inbound_amount"@),
            str_field(j, "outbound_account_id"@),
            str_field(j, "inbound_account_id"@),
        ) {
            (
                Some(outbound_amount),
                Some(inbound_amount),
                Some(outbound_account_id),
                Some(inbound_account_id),
            ) => match (
                str_field(j, "outbound_currency"@),
                str_field(j, "inbound_currency"@),
                str_field(j, "exchange_rate"@),
                str_field(j, "tx_type"@),
            ) {
                (
                    Some(outbound_currency),
                    Some(inbound_currency),
                    Some(exchange_rate),
                    Some(tx_type),
                ) => match (
                    str_field(j, "fees"@),
                    opt_str_field(j, "fee_txid"@),
                    opt_str_field(j, "outbound_txid"@),
                    opt_str_field(j, "inbound_txid"@),
                ) {
                    (Some(fees), Some(fee_txid), Some(outbound_txid), Some(inbound_txid)) => match opt_str_field(
                        j,
                        "reference"@,
                    ) {
                        Some(reference) => Some(
                            TransactionV {
                                txid,
                                fee_txid,
                                outbound_txid,
                                inbound_txid,
                                created_at,
                                outbound_amount,
                                inbound_amount,
                                outbound_account_id,
                                inbound_account_id,
                                outbound_uid,
                                inbound_uid,
                                outbound_currency,
                                inbound_currency,
                                exchange_rate,
                                tx_type,
                                fees,
                                reference,
                            },
                        ),
                        None => None,
                    },
                    _ => None,
                },
                _ => None,
            },
            _ => None,
        },
        _ => None,
    }
}

pub fn decode_transaction(j: &JsonValue) -> (r: Result<Transaction, LnError>)
    ensures
        match r {
            Ok(t) => transaction_of(*j) == Some(t@),
            Err(e) => transaction_of(*j) is None && e == LnError::Decode,
        },
{
    let txid = match j.get_str("txid") {
        Some(s) => s,
        None => return Err(LnError::Decode),
    };
    let created_at = match j.get_u64("created_at") {
        Some(n) => n,
        None => return Err(LnError::Decode),
    };
    let outbound_uid = match get_u32(j, "outbound_uid") {
        Some(n) => n,
        None => return Err(LnError::Decode),
    };
    let inbound_uid = match get_u32(j, "inbound_uid") {
        Some(n) => n,
        None => return Err(LnError::Decode),
    };
    let outbound_amount = match j.get_str("outbound_amount") {
        Some(s) => s,
        None => return Err(LnError::Decode),
    };
    let inbound_amount = match j.get_str("inbound_amount") {
        Some(s) => s,
        None => return Err(LnError::Decode),
    };
    let outbound_account_id = match j.get_str("outbound_account_id") {
        Some(s) => s,
        None => return Err(LnError::Decode),
    };
    let inbound_account_id = match j.get_str("inbound_account_id") {
        Some(s) => s,
        None => return Err(LnError::Decode),
    };
    let outbound_currency = match j.get_str("outbound_currency") {
        Some(s) => s,
        None => return Err(LnError::Decode),
    };
    let inbound_currency = match j.get_str("inbound_currency") {
        Some(s) => s,
        None => return Err(LnError::Decode),
    };
    let exchange_rate = match j.get_str("exchange_rate") {
        Some(s) => s,
        None => return Err(LnError::Decode),
    };
    let tx_type = match j.get_str("tx_type") {
        Some(s) => s,
        None => return Err(LnError::Decode),
    };
    let fees = match j.get_str("fees") {
        Some(s) => s,
        None => return Err(LnError::Decode),
    };
    let fee_txid = match j.get_opt_str("fee_txid") {
        Some(o) => o,
        None => return Err(LnError::Decode),
    };
    let outbound_txid = match j.get_opt_str("outbound_txid") {
        Some(o) => o,
        None => return Err(LnError::Decode),
    };
    let inbound_txid = match j.get_opt_str("inbound_txid") {
        Some(o) => o,
        None => return Err(LnError::Decode),
    };
    let reference = match j.get_opt_str("reference") {
        Some(o) => o,
        None => return Err(LnError::Decode),
    };
    Ok(
        Transaction {
            txid,
            fee_txid,
            outbound_txid,
            inbound_txid,
            created_at,
            outbound_amount,
            inbound_amount,
            outbound_account_id,
            inbound_account_id,
            outbound_uid,
            inbound_uid,
            outbound_currency,
            inbound_currency,
            exchange_rate,
            tx_type,
            fees,
            reference,
        },
    )
}

/// An array of ledger entries, decoded element by element, order kept.
pub open spec fn transactions_of(es: Seq<JsonValue>) -> Option<Seq<TransactionV>>
    decreases es.len(),
{
    if es.len() == 0 {
        Some(Seq::empty())
    } else {
        match (transaction_of(es[0]), transactions_of(es.drop_first())) {
            (Some(t), Some(rest)) => Some(seq![t] + rest),
            _ => None,
        }
    }
}

/// The transaction list a body holds: a JSON array of ledger entries.
pub open spec fn txs_of(j: JsonValue) -> Option<Seq<TransactionV>> {
    match j {
        JsonValue::Arr(es) => transactions_of(es@),
        _ => None,
    }
}

/// The view of a decoded transaction list, entry by entry.
pub open spec fn transactions_view(v: Seq<Transaction>) -> Seq<TransactionV> {
    Seq::new(v.len(), |i: int| v[i]@)
}

fn decode_transactions_from(es: &Vec<JsonValue>, i: usize) -> (r: Result<Vec<Transaction>, LnError>)
    requires
        i <= es.len(),
    ensures
        match r {
            Ok(v) => transactions_of(es@.skip(i as int)) == Some(transactions_view(v@)),
            Err(e) => transactions_of(es@.skip(i as int)) is None && e == LnError::Decode,
        },
    decreases es.len() - i,
{
    if i == es.len() {
        proof {
            assert(es@.skip(i as int).len() == 0);
            assert(transactions_view(Seq::empty()) =~= Seq::<TransactionV>::empty());
        }
        Ok(Vec::new())
    } else {
        proof {
            assert(es@.skip(i as int)[0] == es@[i as int]);
            assert(es@.skip(i as int).drop_first() =~= es@.skip(i as int + 1));
        }
        match decode_transaction(&es[i]) {
            Err(e) => Err(e),
            Ok(t) => match decode_transactions_from(es, i + 1) {
                Err(e) => Err(e),
                Ok(mut rest) => {
                    rest.insert(0, t);
                    proof {
                        assert(transactions_view(rest@) =~= seq![
                            transaction_of(es@[i as int])->Some_0,
                        ] + transactions_view(rest@.drop_first()));
                    }
                    Ok(rest)
                },
            },
        }
    }
}

/// Decodes a transaction-history body: the service's array, kept as-is in
/// the order it came (the service sends newest first; this client does not
/// re-sort). A body that is not a JSON array of ledger entries is a
/// `Decode` failure.
pub fn decode_txs_body(body: &str) -> (r: Result<Vec<Transaction>, LnError>)
    ensures
        match json_of(body@) {
            Some(j) => match r {
                Ok(v) => txs_of(j) == Some(transactions_view(v@)),
                Err(e) => txs_of(j) is None && e == LnError::Decode,
            },
            None => r matches Err(e) && e == LnError::Decode,
        },
{
    match parse_json(body) {
        Some(j) => match j.elements() {
            Some(es) => {
                proof {
                    assert(es@.skip(0) =~= es@);
                }
                decode_transactions_from(es, 0)
            },
            None => Err(LnError::Decode),
        },
        None => Err(LnError::Decode),
    }
}

} // verus!

