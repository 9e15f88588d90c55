use vstd::prelude::*;
use vstd::arithmetic::div_mod::lemma_fundamental_div_mod;
use vstd::string::StringExecFns;

verus! {

/// The decimal digit character for a value below ten.
pub open spec fn dec_digit(d: int) -> char {
    if d == 0 {
        '0'
    } else if d == 1 {
        '1'
    } else if d == 2 {
        '2'
    } else if d == 3 {
        '3'
    } else if d == 4 {
        '4'
    } else if d == 5 {
        '5'
    } else if d == 6 {
        '6'
    } else if d == 7 {
        '7'
    } else if d == 8 {
        '8'
    } else {
        '9'
    }
}

/// The numeric value of a decimal digit character.
pub open spec fn digit_val(c: char) -> nat {
    if c == '0' {
        0
    } else if c == '1' {
        1
    } else if c == '2' {
        2
    } else if c == '3' {
        3
    } else if c == '4' {
        4
    } else if c == '5' {
        5
    } else if c == '6' {
        6
    } else if c == '7' {
        7
    } else if c == '8' {
        8
    } else if c == '9' {
        9
    } else {
        0
    }
}

/// The decimal digits of `n`, most significant first; a single `'0'` for
/// zero, no leading zeros otherwise.
pub open spec fn dec_digits(n: nat) -> Seq<char>
    decreases n,
{
    if n < 10 {
        seq![dec_digit(n as int)]
    } else {
        dec_digits(n / 10) + seq![dec_digit((n % 10) as int)]
    }
}

/// The number a sequence of decimal digit characters denotes.
pub open spec fn digits_val(s: Seq<char>) -> nat
    decreases s.len(),
{
    if s.len() == 0 {
        0
    } else {
        digits_val(s.drop_last()) * 10 + digit_val(s.last())
    }
}

pub open spec fn pow10(k: nat) -> nat
    decreases k,
{
    if k == 0 {
        1
    } else {
        10 * pow10((k - 1) as nat)
    }
}

/// The low `k` decimal digits of `n`, zero-padded on the left to width `k`.
pub open spec fn padded_digits(n: nat, k: nat) -> Seq<char>
    decreases k,
{
    if k == 0 {
        Seq::empty()
    } else {
        padded_digits(n / 10, (k - 1) as nat) + seq![dec_digit((n % 10) as int)]
    }
}

/// `s` with its trailing `'0'` characters removed.
pub open spec fn trim_zeros(s: Seq<char>) -> Seq<char>
    decreases s.len(),
{
    if s.len() == 0 {
        s
    } else if s.last() == '0' {
        trim_zeros(s.drop_last())
    } else {
        s
    }
}

/// The decimal BTC rendering of a satoshi amount: the whole-BTC part in
/// decimal and, where satoshis remain below one BTC, a dot and the
/// eight-digit fraction with its trailing zeros removed.
pub open spec fn btc_decimal(sats: nat) -> Seq<char> {
    let whole = sats / 100000000;
    let frac = sats % 100000000;
    if frac == 0 {
        dec_digits(whole)
    } else {
        dec_digits(whole) + seq!['.'] + trim_zeros(padded_digits(frac, 8))
    }
}

fn append_dec_digit(s: &mut String, d: u32)
    requires
        d < 10,
    ensures
        final(s)@ == old(s)@ + seq![dec_digit(d as int)],
{
    let t: &str = match d {
        0 => "0",
        1 => "1",
        2 => "2",
        3 => "3",
        4 => "4",
        5 => "5",
        6 => "6",
        7 => "7",
        8 => "8",
        _ => "9",
    };
    proof {
        reveal_strlit("0");
        reveal_strlit("1");
        reveal_strlit("2");
        reveal_strlit("3");
        reveal_strlit("4");
        reveal_strlit("5");
        reveal_strlit("6");
        reveal_strlit("7");
        reveal_strlit("8");
        reveal_strlit("9");
        assert(t@ =~= seq![dec_digit(d as int)]);
    }
    s.append(t);
}

fn append_dec(s: &mut String, n: u32)
    ensures
        final(s)@ == old(s)@ + dec_digits(n as nat),
    decreases n,
{
    if n < 10 {
        append_dec_digit(s, n);
    } else {
        append_dec(s, n / 10);
        append_dec_digit(s, n % 10);
        proof {
            assert((old(s)@ + dec_digits((n / 10) as nat)) + seq![dec_digit((n % 10) as int)]
                =~= old(s)@ + dec_digits(n as nat));
        }
    }
}

fn append_padded(s: &mut String, n: u32, k: u32)
    ensures
        final(s)@ == old(s)@ + padded_digits(n as nat, k as nat),
    decreases k,
{
    if k > 0 {
        append_padded(s, n / 10, k - 1);
        append_dec_digit(s, n % 10);
        proof {
            assert((old(s)@ + padded_digits((n / 10) as nat, (k - 1) as nat)) + seq![
                dec_digit((n % 10) as int),
            ] =~= old(s)@ + padded_digits(n as nat, k as nat));
        }
    } else {
        proof {
            assert(old(s)@ + padded_digits(n as nat, 0) =~= old(s)@);
        }
    }
}

proof fn lemma_padded_len(n: nat, k: nat)
    ensures
        padded_digits(n, k).len() == k,
    decreases k,
{
    if k > 0 {
        lemma_padded_len(n / 10, (k - 1) as nat);
    }
}

proof fn lemma_trim_padded_shift(n: nat, k: nat)
    requires
        k > 0,
        n % 10 == 0,
    ensures
        trim_zeros(padded_digits(n, k)) == trim_zeros(padded_digits(n / 10, (k - 1) as nat)),
{
    lemma_padded_len(n, k);
    assert(padded_digits(n, k).last() == dec_digit((n % 10) as int));
    assert(padded_digits(n, k).drop_last() =~= padded_digits(n / 10, (k - 1) as nat));
}

proof fn lemma_trim_padded_stable(n: nat, k: nat)
    requires
        k > 0,
        n % 10 != 0,
    ensures
        trim_zeros(padded_digits(n, k)) == padded_digits(n, k),
{
    lemma_padded_len(n, k);
    assert(padded_digits(n, k).last() == dec_digit((n % 10) as int));
    assert(dec_digit((n % 10) as int) != '0');
}

fn append_trimmed(s: &mut String, n: u32, k: u32)
    ensures
        final(s)@ == old(s)@ + trim_zeros(padded_digits(n as nat, k as nat)),
    decreases k,
{
    if k >= 1 && n % 10 == 0 {
        append_trimmed(s, n / 10, k - 1);
        proof {
            lemma_trim_padded_shift(n as nat, k as nat);
        }
    } else if k >= 1 {
        append_padded(s, n, k);
        proof {
            lemma_trim_padded_stable(n as nat, k as nat);
        }
    } else {
        proof {
            assert(trim_zeros(padded_digits(n as nat, 0)) =~= Seq::<char>::empty());
            assert(old(s)@ + Seq::<char>::empty() =~= old(s)@);
        }
    }
}

/// Renders a satoshi amount as a decimal BTC string: whole bitcoins, then,
/// where satoshis remain, a dot and the remaining hundred-millionths with
/// trailing zeros removed. The conversion is exact decimal arithmetic; no
/// floating point is involved, so no representable-value drift can occur.
pub fn btc_amount_string(amount_sats: u32) -> (r: String)
    ensures
        r@ == btc_decimal(amount_sats as nat),
{
    let whole = amount_sats / 100000000;
    let frac = amount_sats % 100000000;
    let mut s = String::new();
    append_dec(&mut s, whole);
    if frac > 0 {
        let dot = ".";
        proof {
            reveal_strlit(".");
            assert(dot@ =~= seq!['.']);
        }
        s.append(dot);
        append_trimmed(&mut s, frac, 8);
        proof {
            assert(((dec_digits((amount_sats / 100000000) as nat) + seq!['.']) + trim_zeros(
                padded_digits((amount_sats % 100000000) as nat, 8),
            )) =~= btc_decimal(amount_sats as nat));
        }
    }
    s
}

proof fn lemma_dec_digits_val(n: nat)
    ensures
        digits_val(dec_digits(n)) == n,
    decreases n,
{
    if n < 10 {
        assert(seq![dec_digit(n as int)].drop_last() =~= Seq::<char>::empty());
        assert(digits_val(Seq::<char>::empty()) == 0);
        assert(digit_val(dec_digit(n as int)) == n);
    } else {
        lemma_dec_digits_val(n / 10);
        assert((dec_digits(n / 10) + seq![dec_digit((n % 10) as int)]).drop_last() =~= dec_digits(
            n / 10,
        ));
        assert(digit_val(dec_digit((n % 10) as int)) == n % 10);
        lemma_fundamental_div_mod(n as int, 10);
    }
}

proof fn lemma_padded_val(n: nat, k: nat)
    requires
        n < pow10(k),
    ensures
        digits_val(padded_digits(n, k)) == n,
    decreases k,
{
    if k == 0 {
        assert(pow10(0) == 1);
    } else {
        assert(n < 10 * pow10((k - 1) as nat));
        assert(n / 10 < pow10((k - 1) as nat)) by {
            lemma_fundamental_div_mod(n as int, 10);
        }
        lemma_padded_val(n / 10, (k - 1) as nat);
        assert((padded_digits(n / 10, (k - 1) as nat) + seq![dec_digit((n % 10) as int)])
            .drop_last() =~= padded_digits(n / 10, (k - 1) as nat));
        lemma_fundamental_div_mod(n as int, 10);
    }
}

proof fn lemma_trim_val(s: Seq<char>)
    ensures
        trim_zeros(s).len() <= s.len(),
        digits_val(trim_zeros(s)) * pow10((s.len() - trim_zeros(s).len()) as nat) == digits_val(s),
    decreases s.len(),
{
    if s.len() == 0 {
        assert(trim_zeros(s) == s);
        assert(pow10((s.len() - trim_zeros(s).len()) as nat) == 1);
        assert(digits_val(trim_zeros(s)) * pow10((s.len() - trim_zeros(s).len()) as nat)
            == digits_val(trim_zeros(s)) * 1);
    } else if s.last() == '0' {
        lemma_trim_val(s.drop_last());
        let t = trim_zeros(s.drop_last());
        let m = (s.drop_last().len() - t.len()) as nat;
        assert(trim_zeros(s) == t);
        assert((s.len() - trim_zeros(s).len()) as nat == m + 1);
        assert(digit_val('0') == 0);
        assert(digits_val(s) == digits_val(s.drop_last()) * 10);
        assert(pow10((m + 1) as nat) == 10 * pow10(m));
        assert(digits_val(t) * (10 * pow10(m)) == (digits_val(t) * pow10(m)) * 10)
            by (nonlinear_arith);
        assert((digits_val(t) * pow10(m)) * 10 == digits_val(s.drop_last()) * 10);
        assert(digits_val(trim_zeros(s)) * pow10((s.len() - trim_zeros(s).len()) as nat)
            == digits_val(s));
    } else {
        assert(trim_zeros(s) == s);
        assert(pow10((s.len() - trim_zeros(s).len()) as nat) == 1);
        assert(digits_val(trim_zeros(s)) * pow10((s.len() - trim_zeros(s).len()) as nat)
            == digits_val(trim_zeros(s)) * 1);
    }
}

proof fn lemma_dec_digits_no_dot(n: nat)
    ensures
        forall|i: int| 0 <= i < dec_digits(n).len() ==> dec_digits(n)[i] != '.',
    decreases n,
{
    if n < 10 {
        assert(dec_digits(n)[0] == dec_digit(n as int));
    } else {
        lemma_dec_digits_no_dot(n / 10);
        let s = dec_digits(n / 10) + seq![dec_digit((n % 10) as int)];
        assert forall|i: int| 0 <= i < s.len() implies s[i] != '.' by {
            if i < dec_digits(n / 10).len() {
                assert(s[i] == dec_digits(n / 10)[i]);
            } else {
                assert(s[i] == dec_digit((n % 10) as int));
            }
        }
    }
}

/// The unit conversion round-trips exactly: the amount string for `sats`
/// splits as the decimal digits of the whole-BTC part and, where satoshis
/// remain, a dot and one to eight fraction digits; the whole-BTC digits
/// hold no dot, so that split is at the first dot; and reading the digit
/// groups back as numbers and scaling by a hundred million returns `sats`
/// itself, for every amount.
pub proof fn lemma_btc_decimal_round_trip(sats: u32)
    ensures
        forall|i: int|
            0 <= i < dec_digits((sats as nat) / 100000000).len() ==> #[trigger] dec_digits(
                (sats as nat) / 100000000,
            )[i] != '.',
        (sats as nat) % 100000000 == 0 ==> btc_decimal(sats as nat) == dec_digits(
            (sats as nat) / 100000000,
        ) && digits_val(dec_digits((sats as nat) / 100000000)) * 100000000 == sats,
        (sats as nat) % 100000000 != 0 ==> {
            let fd = trim_zeros(padded_digits((sats as nat) % 100000000, 8));
            btc_decimal(sats as nat) == dec_digits((sats as nat) / 100000000) + seq!['.'] + fd
                && 1 <= fd.len() <= 8 && digits_val(dec_digits((sats as nat) / 100000000))
                * 100000000 + digits_val(fd) * pow10((8 - fd.len()) as nat) == sats
        },
{
    let whole = (sats as nat) / 100000000;
    let frac = (sats as nat) % 100000000;
    lemma_dec_digits_val(whole);
    lemma_dec_digits_no_dot(whole);
    lemma_fundamental_div_mod(sats as int, 100000000);
    if frac != 0 {
        assert(pow10(0) == 1);
        assert(pow10(1) == 10);
        assert(pow10(2) == 100);
        assert(pow10(3) == 1000);
        assert(pow10(4) == 10000);
        assert(pow10(5) == 100000);
        assert(pow10(6) == 1000000);
        assert(pow10(7) == 10000000);
        assert(pow10(8) == 100000000);
        lemma_padded_val(frac, 8);
        lemma_padded_len(frac, 8);
        lemma_trim_val(padded_digits(frac, 8));
        let fd = trim_zeros(padded_digits(frac, 8));
        assert(padded_digits(frac, 8).len() == 8);
        assert(digits_val(padded_digits(frac, 8)) == frac);
        assert(digits_val(fd) * pow10((8 - fd.len()) as nat) == frac);
        if fd.len() == 0 {
            assert(fd =~= Seq::<char>::empty());
            assert(digits_val(Seq::<char>::empty()) == 0);
            assert(digits_val(fd) == 0);
            assert(digits_val(fd) * pow10((8 - fd.len()) as nat) == 0 * pow10(
                (8 - fd.len()) as nat,
            ));
            assert(0 * pow10((8 - fd.len()) as nat) == 0);
            assert(frac == 0);
        }
    }
}

} // verus!

