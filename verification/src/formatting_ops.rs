//! Text forms of endian-tagged values: each formats the host-order value.
use vstd::prelude::*;

use core::fmt::{Binary, Display, LowerHex, Octal, UpperHex};

use crate::specific_endian::{BigEndian, LittleEndian, SpecificEndian};
use vstd::arithmetic::div_mod::lemma_div_decreases;

verus! {

/// The character of digit `d` (below sixteen): `0`-`9`, then `A`-`F` when `upper` and `a`-`f`
/// otherwise.
pub open spec fn radix_digit_char(d: nat, upper: bool) -> char {
    if d < 10 {
        (48 + d) as char
    } else if upper {
        (55 + d) as char
    } else {
        (87 + d) as char
    }
}

/// The digits of `n` in base `radix`, most significant first and without leading zeros; zero
/// is a single `0`.
pub open spec fn radix_text(n: nat, radix: nat, upper: bool) -> Seq<char>
    decreases n,
{
    if radix < 2 {
        Seq::empty()
    } else if n < radix {
        seq![radix_digit_char(n, upper)]
    } else {
        proof {
            lemma_div_decreases(n as int, radix as int);
        }
        radix_text(n / radix, radix, upper).push(radix_digit_char(n % radix, upper))
    }
}

/// Formats `v` with `{:X}`. std writes its primitive integers in base 16 with upper-case
/// digits and no prefix or leading zeros, negative values as their two's-complement bits; for
/// those types the contract states that text. Of other types nothing is stated.
#[verifier::external_body]
fn upper_hex_text<T: UpperHex + SpecificEndian<T>>(v: &T) -> (r: String)
    ensures
        T::spec_formats_as_integer() ==> r@ == radix_text(v.spec_radix_value(), 16, true),
{
    format!("{:X}", v)
}

/// Formats `v` with `{:x}`: for std's primitive integers, the base-16 digits in lower case
/// as for `{:X}`. Of other types nothing is stated.
#[verifier::external_body]
fn lower_hex_text<T: LowerHex + SpecificEndian<T>>(v: &T) -> (r: String)
    ensures
        T::spec_formats_as_integer() ==> r@ == radix_text(v.spec_radix_value(), 16, false),
{
    format!("{:x}", v)
}

/// Formats `v` with `{:o}`: for std's primitive integers, the base-8 digits, negative values
/// as their two's-complement bits. Of other types nothing is stated.
#[verifier::external_body]
fn octal_text<T: Octal + SpecificEndian<T>>(v: &T) -> (r: String)
    ensures
        T::spec_formats_as_integer() ==> r@ == radix_text(v.spec_radix_value(), 8, false),
{
    format!("{:o}", v)
}

/// Formats `v` with `{:b}`: for std's primitive integers, the base-2 digits, negative values
/// as their two's-complement bits. Of other types nothing is stated.
#[verifier::external_body]
fn binary_text<T: Binary + SpecificEndian<T>>(v: &T) -> (r: String)
    ensures
        T::spec_formats_as_integer() ==> r@ == radix_text(v.spec_radix_value(), 2, false),
{
    format!("{:b}", v)
}

impl<T: SpecificEndian<T> + Display> BigEndian<T> {
    /// The host-order value as `Display` writes it.
    pub fn to_string(&self) -> (r: String)
        ensures
            vstd::string::to_string_from_display_ensures::<T>(&self.spec_native(), r),
    {
        let v = self.to_native();
        v.to_string()
    }
}

impl<T: SpecificEndian<T> + Display> LittleEndian<T> {
    /// The host-order value as `Display` writes it.
    pub fn to_string(&self) -> (r: String)
        ensures
            vstd::string::to_string_from_display_ensures::<T>(&self.spec_native(), r),
    {
        let v = self.to_native();
        v.to_string()
    }
}

impl<T: SpecificEndian<T> + UpperHex> BigEndian<T> {
    /// The host-order value in upper-case hexadecimal (`{:X}`).
    pub fn to_upper_hex(&self) -> (r: String)
        ensures
            T::spec_formats_as_integer() ==> r@ == radix_text(self.spec_native().spec_radix_value(), 16, true),
    {
        upper_hex_text(&self.to_native())
    }
}

impl<T: SpecificEndian<T> + UpperHex> LittleEndian<T> {
    /// The host-order value in upper-case hexadecimal (`{:X}`).
    pub fn to_upper_hex(&self) -> (r: String)
        ensures
            T::spec_formats_as_integer() ==> r@ == radix_text(self.spec_native().spec_radix_value(), 16, true),
    {
        upper_hex_text(&self.to_native())
    }
}

impl<T: SpecificEndian<T> + LowerHex> BigEndian<T> {
    /// The host-order value in lower-case hexadecimal (`{:x}`).
    pub fn to_lower_hex(&self) -> (r: String)
        ensures
            T::spec_formats_as_integer() ==> r@ == radix_text(self.spec_native().spec_radix_value(), 16, false),
    {
        lower_hex_text(&self.to_native())
    }
}

impl<T: SpecificEndian<T> + LowerHex> LittleEndian<T> {
    /// The host-order value in lower-case hexadecimal (`{:x}`).
    pub fn to_lower_hex(&self) -> (r: String)
        ensures
            T::spec_formats_as_integer() ==> r@ == radix_text(self.spec_native().spec_radix_value(), 16, false),
    {
        lower_hex_text(&self.to_native())
    }
}

impl<T: SpecificEndian<T> + Octal> BigEndian<T> {
    /// The host-order value in octal (`{:o}`).
    pub fn to_octal(&self) -> (r: String)
        ensures
            T::spec_formats_as_integer() ==> r@ == radix_text(self.spec_native().spec_radix_value(), 8, false),
    {
        octal_text(&self.to_native())
    }
}

impl<T: SpecificEndian<T> + Octal> LittleEndian<T> {
    /// The host-order value in octal (`{:o}`).
    pub fn to_octal(&self) -> (r: String)
        ensures
            T::spec_formats_as_integer() ==> r@ == radix_text(self.spec_native().spec_radix_value(), 8, false),
    {
        octal_text(&self.to_native())
    }
}

impl<T: SpecificEndian<T> + Binary> BigEndian<T> {
    /// The host-order value in binary (`{:b}`).
    pub fn to_binary(&self) -> (r: String)
        ensures
            T::spec_formats_as_integer() ==> r@ == radix_text(self.spec_native().spec_radix_value(), 2, false),
    {
        binary_text(&self.to_native())
    }
}

impl<T: SpecificEndian<T> + Binary> LittleEndian<T> {
    /// The host-order value in binary (`{:b}`).
    pub fn to_binary(&self) -> (r: String)
        ensures
            T::spec_formats_as_integer() ==> r@ == radix_text(self.spec_native().spec_radix_value(), 2, false),
    {
        binary_text(&self.to_native())
    }
}

} // verus!
