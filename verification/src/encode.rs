use vstd::prelude::*;
use vstd::string::StrSliceExecFns;
use vstd::string::StringExecFns;

use crate::amount::{btc_amount_string, btc_decimal};
use crate::hex::{append_hex_digit, hex_digit};

verus! {

/// The JSON string-literal escape of one character: quote, backslash and
/// the named control characters get a backslash escape, other control
/// characters a `\u00..` escape, and everything else stands as itself.
pub open spec fn escape_char(c: char) -> Seq<char> {
    if c == '"' {
        seq!['\\', '"']
    } else if c == '\\' {
        seq!['\\', '\\']
    } else if c == '\n' {
        seq!['\\', 'n']
    } else if c == '\r' {
        seq!['\\', 'r']
    } else if c == '\t' {
        seq!['\\', 't']
    } else if (c as int) < 32 {
        seq!['\\', 'u', '0', '0', hex_digit((c as int) / 16), hex_digit((c as int) % 16)]
    } else {
        seq![c]
    }
}

/// A string escaped for embedding inside a JSON string literal, character
/// by character.
pub open spec fn escape_str(s: Seq<char>) -> Seq<char>
    decreases s.len(),
{
    if s.len() == 0 {
        Seq::empty()
    } else {
        escape_str(s.drop_last()) + escape_char(s.last())
    }
}

/// Relies on `String::push`: appends the given character to the end of the
/// string.
#[verifier::external_body]
fn push_char(s: &mut String, c: char)
    ensures
        final(s)@ == old(s)@ + seq![c],
{
    s.push(c);
}

fn append_escaped(out: &mut String, c: char)
    ensures
        final(out)@ == old(out)@ + escape_char(c),
{
    if c == '"' {
        let t = "\\\"";
        proof {
            reveal_strlit("\\\"");
            assert(t@ =~= seq!['\\', '"']);
        }
        out.append(t);
    } else if c == '\\' {
        let t = "\\\\";
        proof {
            reveal_strlit("\\\\");
            assert(t@ =~= seq!['\\', '\\']);
        }
        out.append(t);
    } else if c == '\n' {
        let t = "\\n";
        proof {
            reveal_strlit("\\n");
            assert(t@ =~= seq!['\\', 'n']);
        }
        out.append(t);
    } else if c == '\r' {
        let t = "\\r";
        proof {
            reveal_strlit("\\r");
            assert(t@ =~= seq!['\\', 'r']);
        }
        out.append(t);
    } else if c == '\t' {
        let t = "\\t";
        proof {
            reveal_strlit("\\t");
            assert(t@ =~= seq!['\\', 't']);
        }
        out.append(t);
    } else if (c as u32) < 32 {
        let t = "\\u00";
        proof {
            reveal_strlit("\\u00");
            assert(t@ =~= seq!['\\', 'u', '0', '0']);
        }
        out.append(t);
        let v = c as u32;
        append_hex_digit(out, (v / 16) as u8);
        append_hex_digit(out, (v % 16) as u8);
        proof {
            assert(old(out)@ + t@ + seq![hex_digit((c as int) / 16)] + seq![
                hex_digit((c as int) % 16),
            ] =~= old(out)@ + escape_char(c));
        }
    } else {
        push_char(out, c);
    }
}

/// Escapes a string for embedding inside a JSON string literal.
pub fn escape_json(s: &str) -> (r: String)
    ensures
        r@ == escape_str(s@),
{
    let n = s.unicode_len();
    let mut out = String::new();
    let mut i: usize = 0;
    proof {
        assert(s@.take(0) =~= Seq::<char>::empty());
    }
    while i < n
        invariant
            n == s@.len(),
            0 <= i <= n,
            out@ == escape_str(s@.take(i as int)),
        decreases n - i,
    {
        let c = s.get_char(i);
        append_escaped(&mut out, c);
        proof {
            assert(s@.take(i as int + 1).drop_last() =~= s@.take(i as int));
            assert(s@.take(i as int + 1).last() == s@[i as int]);
        }
        i = i + 1;
    }
    proof {
        assert(s@.take(n as int) =~= s@);
    }
    out
}

/// The JSON body carrying wallet credentials: both fields escaped and
/// embedded in the object the provisioning and auth endpoints expect.
pub open spec fn credentials_body_spec(username: Seq<char>, password: Seq<char>) -> Seq<char> {
    "{\"username\":\""@ + escape_str(username) + "\",\"password\":\""@ + escape_str(password)
        + "\"}"@
}

/// The JSON body of a payment request: the BOLT11 string escaped and put
/// under the key the payment endpoint reads.
pub open spec fn pay_invoice_body_spec(payment_request: Seq<char>) -> Seq<char> {
    "{\"payment_request\":\""@ + escape_str(payment_request) + "\"}"@
}

/// The JSON body carrying wallet credentials, exactly as the provisioning
/// and auth endpoints expect it.
pub fn credentials_body(username: &str, password: &str) -> (r: String)
    ensures
        r@ == credentials_body_spec(username@, password@),
{
    let mut out = String::new();
    out.append("{\"username\":\"");
    let u = escape_json(username);
    out.append(u.as_str());
    out.append("\",\"password\":\"");
    let p = escape_json(password);
    out.append(p.as_str());
    out.append("\"}");
    out
}

/// The JSON body of a payment request: the BOLT11 string to pay, under the
/// key the payment endpoint reads.
pub fn pay_invoice_body(payment_request: &str) -> (r: String)
    ensures
        r@ == pay_invoice_body_spec(payment_request@),
{
    let mut out = String::new();
    out.append("{\"payment_request\":\"");
    let e = escape_json(payment_request);
    out.append(e.as_str());
    out.append("\"}");
    out
}

/// The query string for invoice creation: the amount as an exact decimal
/// BTC string, then the description, embedded as-is — the service reads
/// the description raw from the query.
pub fn create_invoice_query(description: &str, amount_sats: u32) -> (r: String)
    ensures
        r@ == "amount="@ + btc_decimal(amount_sats as nat) + "&meta="@ + description@,
{
    let mut out = String::new();
    out.append("amount=");
    let amt = btc_amount_string(amount_sats);
    out.append(amt.as_str());
    out.append("&meta=");
    out.append(description);
    out
}

} // verus!
