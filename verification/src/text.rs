//! Numbers as text: what the messages bring in and what the replies show.
use vstd::prelude::*;

verus! {

/// The character of a decimal digit.
pub open spec fn digit(d: nat) -> char {
    ('0' as u32 + d) as char
}

/// The decimal notation of `n`, without leading zeros.
pub open spec fn digits(n: nat) -> Seq<char>
    decreases n,
{
    if n < 10 {
        seq![digit(n)]
    } else {
        digits(n / 10).push(digit(n % 10))
    }
}

pub open spec fn is_digit(c: char) -> bool {
    '0' <= c <= '9'
}

/// The number that a row of decimal digits stands for.
pub open spec fn digits_value(s: Seq<char>) -> nat
    decreases s.len(),
{
    if s.len() == 0 {
        0
    } else {
        digits_value(s.drop_last()) * 10 + (s.last() as u32 - '0' as u32) as nat
    }
}

pub open spec fn all_digits(s: Seq<char>) -> bool {
    forall|i: int| 0 <= i < s.len() ==> is_digit(#[trigger] s[i])
}

/// The number that a text stands for: an optional plus sign, then one or more
/// decimal digits and nothing else.
pub open spec fn numeral(s: Seq<char>) -> Option<nat> {
    let body = if s.len() > 0 && s[0] == '+' {
        s.drop_first()
    } else {
        s
    };
    if body.len() > 0 && all_digits(body) {
        Some(digits_value(body))
    } else {
        None
    }
}

/// The atomic units in one whole of a decimal fraction: eighteen places.
pub const DECIMAL_ONE: u128 = 1_000_000_000_000_000_000;

/// One per cent of the whole.
pub const PERCENT: u128 = 10_000_000_000_000_000;

/// The digits of `f` units behind the decimal point, the first of which is
/// worth `unit`; it ends with the last digit that is not zero.
pub open spec fn fraction_digits(f: nat, unit: nat) -> Seq<char>
    decreases unit,
{
    if f == 0 || unit == 0 {
        Seq::empty()
    } else {
        seq![digit(f / unit)] + fraction_digits(f % unit, unit / 10)
    }
}

/// The notation of a decimal fraction of `atomics` units: the whole part, and
/// behind a point, unless it is zero, the rest without trailing zeros.
pub open spec fn decimal_text(atomics: nat) -> Seq<char> {
    let whole = digits(atomics / DECIMAL_ONE as nat);
    let rest = atomics % DECIMAL_ONE as nat;
    if rest == 0 {
        whole
    } else {
        whole + seq!['.'] + fraction_digits(rest, DECIMAL_ONE as nat / 10)
    }
}

pub open spec fn flag_text(b: bool) -> Seq<char> {
    if b {
        "true"@
    } else {
        "false"@
    }
}

/// The text of the error that reading a `u64` out of `s` ends with.
pub uninterp spec fn u64_parse_failure(s: Seq<char>) -> Seq<char>;

/// The text of the error that reading a `u128` out of `s` ends with.
pub uninterp spec fn u128_parse_failure(s: Seq<char>) -> Seq<char>;

/// `str::parse::<u64>`: it reads an optional plus sign and decimal digits, and
/// fails on any other text and on a number that is too large. The error is
/// handed on as its text, of which nothing but its name is known.
#[verifier::external_body]
pub(crate) fn parse_u64(s: &str) -> (res: Result<u64, String>)
    ensures
        match res {
            Ok(v) => numeral(s@) == Some(v as nat),
            Err(text) => {
                &&& text@ == u64_parse_failure(s@)
                &&& numeral(s@) matches Some(n) ==> n > u64::MAX
            },
        },
{
    s.parse::<u64>().map_err(|e| e.to_string())
}

/// `str::parse::<u128>`: it reads an optional plus sign and decimal digits, and
/// fails on any other text and on a number that is too large. The error is
/// handed on as its text, of which nothing but its name is known.
#[verifier::external_body]
pub(crate) fn parse_u128(s: &str) -> (res: Result<u128, String>)
    ensures
        match res {
            Ok(v) => numeral(s@) == Some(v as nat),
            Err(text) => {
                &&& text@ == u128_parse_failure(s@)
                &&& numeral(s@) matches Some(n) ==> n > u128::MAX
            },
        },
{
    s.parse::<u128>().map_err(|e| e.to_string())
}

/// `u128::to_string`: the decimal notation of the number.
#[verifier::external_body]
pub(crate) fn number_to_string(n: u128) -> (s: String)
    ensures
        s@ == digits(n as nat),
{
    n.to_string()
}

/// `to_string` of `cosmwasm_std::Decimal`: its `Display` writes the whole part,
/// and behind a point the eighteen places without the trailing zeros.
#[verifier::external_body]
pub(crate) fn decimal_to_string(atomics: u128) -> (s: String)
    ensures
        s@ == decimal_text(atomics as nat),
{
    cosmwasm_std::Decimal::new(cosmwasm_std::Uint128::new(atomics)).to_string()
}

/// The notation of a flag.
pub fn flag_to_string(b: bool) -> (s: String)
    ensures
        s@ == flag_text(b),
{
    if b {
        "true".to_owned()
    } else {
        "false".to_owned()
    }
}

/// A number survives being written down and read again.
pub proof fn law_number_text_round_trip(n: nat)
    ensures
        numeral(digits(n)) == Some(n),
{
    lemma_digits(n);
}

proof fn lemma_digits(n: nat)
    ensures
        digits(n).len() > 0,
        all_digits(digits(n)),
        digits_value(digits(n)) == n,
    decreases n,
{
    if n < 10 {
        let s = digits(n);
        assert(s.drop_last() =~= Seq::<char>::empty());
        assert(digits_value(s.drop_last()) == 0);
    } else {
        lemma_digits(n / 10);
        let s = digits(n);
        assert(s.drop_last() =~= digits(n / 10));
        assert(n == (n / 10) * 10 + n % 10);
    }
}

} // verus!
