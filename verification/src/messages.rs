//! Human-readable text for values and errors: decimal numbers and the messages built from them.
use vstd::prelude::*;

use vstd::string::StringExecFns;

use crate::text_ops::unicode::string_push;

verus! {

/// The character of decimal digit `d`.
pub open spec fn digit_char(d: nat) -> char {
    (48 + d) as char
}

/// The decimal digits of `n`, most significant first (`0` for zero).
pub open spec fn decimal(n: nat) -> Seq<char>
    decreases n,
{
    if n < 10 {
        seq![digit_char(n)]
    } else {
        decimal(n / 10).push(digit_char(n % 10))
    }
}

/// The character of a decimal digit.
fn digit(d: usize) -> (c: char)
    requires
        d < 10,
    ensures
        c == digit_char(d as nat),
{
    let b: u8 = 48u8 + (d as u8);
    b as char
}

/// Appends the decimal digits of `n`.
pub(crate) fn push_decimal(out: &mut String, n: usize)
    ensures
        final(out)@ == old(out)@ + decimal(n as nat),
    decreases n,
{
    if n >= 10 {
        push_decimal(out, n / 10);
    }
    string_push(out, digit(n % 10));
    assert(old(out)@ + decimal(n as nat) =~= if n >= 10 {
        (old(out)@ + decimal((n / 10) as nat)).push(digit_char((n % 10) as nat))
    } else {
        old(out)@.push(digit_char((n % 10) as nat))
    });
}

/// The text `a{x}b{y}c`, with the numbers in decimal.
pub(crate) fn two_numbers(a: &str, x: usize, b: &str, y: usize, c: &str) -> (r: String)
    ensures
        r@ == a@ + decimal(x as nat) + b@ + decimal(y as nat) + c@,
{
    let mut out = a.to_string();
    push_decimal(&mut out, x);
    out.append(b);
    push_decimal(&mut out, y);
    out.append(c);
    out
}

/// A fixed message as a `String`.
pub(crate) fn fixed_text(msg: &str) -> (r: String)
    ensures
        r@ == msg@,
{
    msg.to_string()
}

} // verus!
