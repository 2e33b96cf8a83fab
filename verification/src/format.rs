//! Decimal and clock-style number formatting (`{}` and `{:02}:{:02}`).
use vstd::prelude::*;
use crate::text::{join_str, push_char, string_from_chars};

verus! {

/// The ASCII digit for `d < 10`.
pub open spec fn digit_char(d: nat) -> char {
    ((d + 48) as u32) as char
}

/// The decimal digits of `n`, most significant first, with no leading zero.
pub open spec fn decimal(n: nat) -> Seq<char>
    decreases n,
{
    if n < 10 {
        seq![digit_char(n)]
    } else {
        decimal(n / 10).push(digit_char(n % 10))
    }
}

/// `{}` of a signed integer: a minus sign before the digits of a negative one.
pub open spec fn signed_decimal(n: int) -> Seq<char> {
    if n < 0 {
        seq!['-'] + decimal((-n) as nat)
    } else {
        decimal(n as nat)
    }
}

/// `{:02}`: at least two digits, padded with a leading zero.
pub open spec fn pad2(n: nat) -> Seq<char> {
    if n < 10 {
        seq!['0', digit_char(n)]
    } else {
        decimal(n)
    }
}

/// `{:02}:{:02}` of whole minutes and the remaining seconds.
pub open spec fn clock(secs: nat) -> Seq<char> {
    pad2(secs / 60) + seq![':'] + pad2(secs % 60)
}

/// The char of one decimal digit.
fn digit(d: u64) -> (c: char)
    requires
        d < 10,
    ensures
        c == digit_char(d as nat),
{
    let b: u8 = (d as u8) + 48;
    b as char
}

/// Appends the decimal digits of `n` to `out`.
fn push_decimal(out: &mut Vec<char>, n: u64)
    ensures
        final(out)@ == old(out)@ + decimal(n as nat),
    decreases n,
{
    if n < 10 {
        out.push(digit(n));
        assert(old(out)@.push(digit_char(n as nat)) =~= old(out)@ + decimal(n as nat));
    } else {
        push_decimal(out, n / 10);
        out.push(digit(n % 10));
        assert((old(out)@ + decimal((n / 10) as nat)).push(digit_char((n % 10) as nat))
            =~= old(out)@ + decimal(n as nat));
    }
}

/// `n.to_string()`.
pub fn decimal_string(n: u64) -> (s: String)
    ensures
        s@ == decimal(n as nat),
{
    let mut cs: Vec<char> = Vec::new();
    push_decimal(&mut cs, n);
    assert(cs@ =~= decimal(n as nat));
    string_from_chars(&cs)
}

/// `n.to_string()` for a signed integer.
pub fn signed_decimal_string(n: i64) -> (s: String)
    ensures
        s@ == signed_decimal(n as int),
{
    let mut cs: Vec<char> = Vec::new();
    if n < 0 {
        cs.push('-');
        let m: u64 = if n == i64::MIN {
            9223372036854775808u64
        } else {
            (-n) as u64
        };
        push_decimal(&mut cs, m);
        assert(cs@ =~= seq!['-'] + decimal((-n) as nat));
    } else {
        push_decimal(&mut cs, n as u64);
        assert(cs@ =~= decimal(n as nat));
    }
    string_from_chars(&cs)
}

/// `format!("{:02}", n)`.
pub fn pad2_string(n: u64) -> (s: String)
    ensures
        s@ == pad2(n as nat),
{
    let mut cs: Vec<char> = Vec::new();
    if n < 10 {
        cs.push('0');
    }
    push_decimal(&mut cs, n);
    assert(cs@ =~= pad2(n as nat));
    string_from_chars(&cs)
}

/// `format!("{:02}:{:02}", secs / 60, secs % 60)`.
pub fn clock_string(secs: u64) -> (s: String)
    ensures
        s@ == clock(secs as nat),
{
    let mut out = pad2_string(secs / 60);
    push_char(&mut out, ':');
    let rest = pad2_string(secs % 60);
    let out = join_str(out.as_str(), rest.as_str());
    assert(out@ =~= clock(secs as nat));
    out
}

} // verus!
