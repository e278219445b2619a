//! UTF-32 code-unit buffers with explicit byte order.
use vstd::prelude::*;

use crate::messages::fixed_text;
use crate::specific_endian::{
    BigEndian, LittleEndian, SpecificEndianOwned, big_natives, big_stored, little_natives,
    little_stored, natives_of_big, law_round_trip_u32, lemma_natives_of_stored, round_trips, natives_of_little, store_big, store_little,
};
use crate::text_ops::unicode::{decode_utf32_units, encode_str_utf32};
use crate::text_ops::unicode;

verus! {

/// Errors returned when decoding UTF-32.
#[derive(Clone, Copy, Debug, Eq, PartialEq)]
pub enum Utf32Error {
    /// UTF-32 input contained a value that is not a Unicode scalar value.
    InvalidUtf32,
}

impl Utf32Error {
    /// The error's message (what `Display` writes).
    pub fn to_string(&self) -> (r: String)
        ensures
            r@ == "invalid UTF-32"@,
    {
        fixed_text("invalid UTF-32")
    }
}

/// Borrowed UTF-32 code units, each stored big-endian.
#[derive(Clone, Copy, Debug, Eq, PartialEq)]
pub struct Utf32StrBE<'a>(pub &'a [BigEndian<u32>]);

impl<'a> From<&'a [BigEndian<u32>]> for Utf32StrBE<'a> {
    fn from(v: &'a [BigEndian<u32>]) -> (r: Self) {
        Utf32StrBE(v)
    }
}

impl<'a> vstd::std_specs::convert::FromSpecImpl<&'a [BigEndian<u32>]> for Utf32StrBE<'a> {
    open spec fn obeys_from_spec() -> bool {
        true
    }

    open spec fn from_spec(v: &'a [BigEndian<u32>]) -> Utf32StrBE<'a> {
        Utf32StrBE(v)
    }
}

impl AsRef<[BigEndian<u32>]> for Utf32StrBE<'_> {
    fn as_ref(&self) -> (r: &[BigEndian<u32>])
        ensures
            r@ == self.0@,
    {
        self.0
    }
}

/// Owned UTF-32 code units, each stored big-endian.
#[derive(Clone, Debug, Eq, PartialEq)]
pub struct Utf32StringBE(pub Vec<BigEndian<u32>>);

impl AsRef<[BigEndian<u32>]> for Utf32StringBE {
    fn as_ref(&self) -> (r: &[BigEndian<u32>])
        ensures
            r@ == self.0@,
    {
        self.0.as_slice()
    }
}

impl From<&str> for Utf32StringBE {
    /// Encodes text as UTF-32 code units (scalar values), each stored big-endian.
    fn from(s: &str) -> (r: Self)
        ensures
            r.0@ == big_stored(unicode::encode_utf32(s@)),
    {
        let units = encode_str_utf32(s);
        Utf32StringBE(store_big(units.as_slice()))
    }
}

impl vstd::std_specs::convert::FromSpecImpl<&str> for Utf32StringBE {
    /// The result holds a vector, which no specification function can build, so the
    /// contract is the `ensures` of `from` itself.
    open spec fn obeys_from_spec() -> bool {
        false
    }

    open spec fn from_spec(s: &str) -> Utf32StringBE {
        vstd::pervasive::arbitrary()
    }
}

impl<'a> TryFrom<Utf32StrBE<'a>> for String {
    type Error = Utf32Error;

    /// Decodes the host-order code units.
    fn try_from(v: Utf32StrBE<'a>) -> (r: Result<String, Utf32Error>)
        ensures
            match r {
                Ok(s) => unicode::decode_utf32(big_natives(v.0@)) == Some(s@),
                Err(e) => e == Utf32Error::InvalidUtf32 && unicode::decode_utf32(big_natives(v.0@)) is None,
            },
    {
        let natives = natives_of_big(v.0);
        decode_utf32(natives.as_slice())
    }
}

impl<'a> vstd::std_specs::convert::TryFromSpecImpl<Utf32StrBE<'a>> for String {
    /// The result holds a `String`, which no specification function can build, so the
    /// contract is the `ensures` of `try_from` itself.
    open spec fn obeys_try_from_spec() -> bool {
        false
    }

    open spec fn try_from_spec(v: Utf32StrBE<'a>) -> Result<String, Utf32Error> {
        Err(Utf32Error::InvalidUtf32)
    }
}

impl<'a> TryFrom<&'a Utf32StringBE> for String {
    type Error = Utf32Error;

    /// Decodes the host-order code units.
    fn try_from(v: &'a Utf32StringBE) -> (r: Result<String, Utf32Error>)
        ensures
            match r {
                Ok(s) => unicode::decode_utf32(big_natives(v.0@)) == Some(s@),
                Err(e) => e == Utf32Error::InvalidUtf32 && unicode::decode_utf32(big_natives(v.0@)) is None,
            },
    {
        String::try_from(Utf32StrBE::from(v.0.as_slice()))
    }
}

impl<'a> vstd::std_specs::convert::TryFromSpecImpl<&'a Utf32StringBE> for String {
    /// The result holds a `String`, which no specification function can build, so the
    /// contract is the `ensures` of `try_from` itself.
    open spec fn obeys_try_from_spec() -> bool {
        false
    }

    open spec fn try_from_spec(v: &'a Utf32StringBE) -> Result<String, Utf32Error> {
        Err(Utf32Error::InvalidUtf32)
    }
}

/// Borrowed UTF-32 code units, each stored little-endian.
#[derive(Clone, Copy, Debug, Eq, PartialEq)]
pub struct Utf32StrLE<'a>(pub &'a [LittleEndian<u32>]);

impl<'a> From<&'a [LittleEndian<u32>]> for Utf32StrLE<'a> {
    fn from(v: &'a [LittleEndian<u32>]) -> (r: Self) {
        Utf32StrLE(v)
    }
}

impl<'a> vstd::std_specs::convert::FromSpecImpl<&'a [LittleEndian<u32>]> for Utf32StrLE<'a> {
    open spec fn obeys_from_spec() -> bool {
        true
    }

    open spec fn from_spec(v: &'a [LittleEndian<u32>]) -> Utf32StrLE<'a> {
        Utf32StrLE(v)
    }
}

impl AsRef<[LittleEndian<u32>]> for Utf32StrLE<'_> {
    fn as_ref(&self) -> (r: &[LittleEndian<u32>])
        ensures
            r@ == self.0@,
    {
        self.0
    }
}

/// Owned UTF-32 code units, each stored little-endian.
#[derive(Clone, Debug, Eq, PartialEq)]
pub struct Utf32StringLE(pub Vec<LittleEndian<u32>>);

impl AsRef<[LittleEndian<u32>]> for Utf32StringLE {
    fn as_ref(&self) -> (r: &[LittleEndian<u32>])
        ensures
            r@ == self.0@,
    {
        self.0.as_slice()
    }
}

impl From<&str> for Utf32StringLE {
    /// Encodes text as UTF-32 code units (scalar values), each stored little-endian.
    fn from(s: &str) -> (r: Self)
        ensures
            r.0@ == little_stored(unicode::encode_utf32(s@)),
    {
        let units = encode_str_utf32(s);
        Utf32StringLE(store_little(units.as_slice()))
    }
}

impl vstd::std_specs::convert::FromSpecImpl<&str> for Utf32StringLE {
    /// The result holds a vector, which no specification function can build, so the
    /// contract is the `ensures` of `from` itself.
    open spec fn obeys_from_spec() -> bool {
        false
    }

    open spec fn from_spec(s: &str) -> Utf32StringLE {
        vstd::pervasive::arbitrary()
    }
}

impl<'a> TryFrom<Utf32StrLE<'a>> for String {
    type Error = Utf32Error;

    /// Decodes the host-order code units.
    fn try_from(v: Utf32StrLE<'a>) -> (r: Result<String, Utf32Error>)
        ensures
            match r {
                Ok(s) => unicode::decode_utf32(little_natives(v.0@)) == Some(s@),
                Err(e) => e == Utf32Error::InvalidUtf32 && unicode::decode_utf32(little_natives(v.0@)) is None,
            },
    {
        let natives = natives_of_little(v.0);
        decode_utf32(natives.as_slice())
    }
}

impl<'a> vstd::std_specs::convert::TryFromSpecImpl<Utf32StrLE<'a>> for String {
    /// The result holds a `String`, which no specification function can build, so the
    /// contract is the `ensures` of `try_from` itself.
    open spec fn obeys_try_from_spec() -> bool {
        false
    }

    open spec fn try_from_spec(v: Utf32StrLE<'a>) -> Result<String, Utf32Error> {
        Err(Utf32Error::InvalidUtf32)
    }
}

impl<'a> TryFrom<&'a Utf32StringLE> for String {
    type Error = Utf32Error;

    /// Decodes the host-order code units.
    fn try_from(v: &'a Utf32StringLE) -> (r: Result<String, Utf32Error>)
        ensures
            match r {
                Ok(s) => unicode::decode_utf32(little_natives(v.0@)) == Some(s@),
                Err(e) => e == Utf32Error::InvalidUtf32 && unicode::decode_utf32(little_natives(v.0@)) is None,
            },
    {
        String::try_from(Utf32StrLE::from(v.0.as_slice()))
    }
}

impl<'a> vstd::std_specs::convert::TryFromSpecImpl<&'a Utf32StringLE> for String {
    /// The result holds a `String`, which no specification function can build, so the
    /// contract is the `ensures` of `try_from` itself.
    open spec fn obeys_try_from_spec() -> bool {
        false
    }

    open spec fn try_from_spec(v: &'a Utf32StringLE) -> Result<String, Utf32Error> {
        Err(Utf32Error::InvalidUtf32)
    }
}

impl core::ops::Deref for Utf32StrBE<'_> {
    type Target = [BigEndian<u32>];

    fn deref(&self) -> (r: &[BigEndian<u32>])
        ensures
            r@ == self.0@,
    {
        self.0
    }
}

impl core::ops::Deref for Utf32StringBE {
    type Target = [BigEndian<u32>];

    fn deref(&self) -> (r: &[BigEndian<u32>])
        ensures
            r@ == self.0@,
    {
        self.0.as_slice()
    }
}

impl<'a> IntoIterator for Utf32StrBE<'a> {
    type Item = &'a BigEndian<u32>;

    type IntoIter = core::slice::Iter<'a, BigEndian<u32>>;

    /// Iterates over the stored code units.
    fn into_iter(self) -> (r: core::slice::Iter<'a, BigEndian<u32>>)
        ensures
            r == vstd::std_specs::slice::spec_slice_iter(self.0),
    {
        self.0.iter()
    }
}

impl<'a> IntoIterator for &'a Utf32StringBE {
    type Item = &'a BigEndian<u32>;

    type IntoIter = core::slice::Iter<'a, BigEndian<u32>>;

    /// Iterates over the stored code units.
    fn into_iter(self) -> (r: core::slice::Iter<'a, BigEndian<u32>>)
        ensures
            vstd::std_specs::iter::IteratorSpec::remaining(&r) == self.0@.as_ref(),
    {
        self.0.as_slice().iter()
    }
}

impl IntoIterator for Utf32StringBE {
    type Item = BigEndian<u32>;

    type IntoIter = std::vec::IntoIter<BigEndian<u32>>;

    /// Iterates over the stored code units, taking ownership.
    fn into_iter(self) -> (r: std::vec::IntoIter<BigEndian<u32>>)
        ensures
            r == vstd::std_specs::vec::spec_into_iter(self.0),
    {
        self.0.into_iter()
    }
}

impl core::ops::Deref for Utf32StrLE<'_> {
    type Target = [LittleEndian<u32>];

    fn deref(&self) -> (r: &[LittleEndian<u32>])
        ensures
            r@ == self.0@,
    {
        self.0
    }
}

impl core::ops::Deref for Utf32StringLE {
    type Target = [LittleEndian<u32>];

    fn deref(&self) -> (r: &[LittleEndian<u32>])
        ensures
            r@ == self.0@,
    {
        self.0.as_slice()
    }
}

impl<'a> IntoIterator for Utf32StrLE<'a> {
    type Item = &'a LittleEndian<u32>;

    type IntoIter = core::slice::Iter<'a, LittleEndian<u32>>;

    /// Iterates over the stored code units.
    fn into_iter(self) -> (r: core::slice::Iter<'a, LittleEndian<u32>>)
        ensures
            r == vstd::std_specs::slice::spec_slice_iter(self.0),
    {
        self.0.iter()
    }
}

impl<'a> IntoIterator for &'a Utf32StringLE {
    type Item = &'a LittleEndian<u32>;

    type IntoIter = core::slice::Iter<'a, LittleEndian<u32>>;

    /// Iterates over the stored code units.
    fn into_iter(self) -> (r: core::slice::Iter<'a, LittleEndian<u32>>)
        ensures
            vstd::std_specs::iter::IteratorSpec::remaining(&r) == self.0@.as_ref(),
    {
        self.0.as_slice().iter()
    }
}

impl IntoIterator for Utf32StringLE {
    type Item = LittleEndian<u32>;

    type IntoIter = std::vec::IntoIter<LittleEndian<u32>>;

    /// Iterates over the stored code units, taking ownership.
    fn into_iter(self) -> (r: std::vec::IntoIter<LittleEndian<u32>>)
        ensures
            r == vstd::std_specs::vec::spec_into_iter(self.0),
    {
        self.0.into_iter()
    }
}

/// Host-endian borrowed UTF-32 code units (the little-endian form).
pub type Utf32Str<'a> = Utf32StrLE<'a>;

/// Host-endian owned UTF-32 code units (the little-endian form).
pub type Utf32String = Utf32StringLE;

impl SpecificEndianOwned for Utf32StringBE {
    type Big = Utf32StringBE;

    type Little = Utf32StringLE;

    open spec fn spec_is_big_form(&self, b: Utf32StringBE) -> bool {
        b.0@ == self.0@
    }

    open spec fn spec_is_little_form(&self, l: Utf32StringLE) -> bool {
        l.0@ == little_stored(big_natives(self.0@))
    }

    fn to_big_endian(&self) -> (r: Utf32StringBE) {
        Utf32StringBE(vstd::slice::slice_to_vec(self.0.as_slice()))
    }

    fn to_little_endian(&self) -> (r: Utf32StringLE) {
        let natives = natives_of_big(self.0.as_slice());
        Utf32StringLE(store_little(natives.as_slice()))
    }

    fn from_big_endian(&self) -> (r: Utf32StringBE) {
        Utf32StringBE(vstd::slice::slice_to_vec(self.0.as_slice()))
    }

    fn from_little_endian(&self) -> (r: Utf32StringLE) {
        self.to_little_endian()
    }
}

impl SpecificEndianOwned for Utf32StringLE {
    type Big = Utf32StringBE;

    type Little = Utf32StringLE;

    open spec fn spec_is_big_form(&self, b: Utf32StringBE) -> bool {
        b.0@ == big_stored(little_natives(self.0@))
    }

    open spec fn spec_is_little_form(&self, l: Utf32StringLE) -> bool {
        l.0@ == self.0@
    }

    fn to_big_endian(&self) -> (r: Utf32StringBE) {
        let natives = natives_of_little(self.0.as_slice());
        Utf32StringBE(store_big(natives.as_slice()))
    }

    fn to_little_endian(&self) -> (r: Utf32StringLE) {
        Utf32StringLE(vstd::slice::slice_to_vec(self.0.as_slice()))
    }

    fn from_big_endian(&self) -> (r: Utf32StringBE) {
        self.to_big_endian()
    }

    fn from_little_endian(&self) -> (r: Utf32StringLE) {
        Utf32StringLE(vstd::slice::slice_to_vec(self.0.as_slice()))
    }
}

/// Decodes host-order UTF-32 code units.
fn decode_utf32(units: &[u32]) -> (r: Result<String, Utf32Error>)
    ensures
        match r {
            Ok(s) => unicode::decode_utf32(units@) == Some(s@),
            Err(e) => e == Utf32Error::InvalidUtf32 && unicode::decode_utf32(units@) is None,
        },
{
    match decode_utf32_units(units) {
        Some(s) => Ok(s),
        None => Err(Utf32Error::InvalidUtf32),
    }
}

/// Text stored as big- or little-endian UTF-32 code units decodes back to the same text: what
/// `String::try_from` gives back of `Utf32StringBE::from(s)` or `Utf32StringLE::from(s)` is `s`.
pub proof fn law_utf32_text_round_trip(s: Seq<char>)
    ensures
        unicode::decode_utf32(big_natives(big_stored(unicode::encode_utf32(s)))) == Some(s),
        unicode::decode_utf32(little_natives(little_stored(unicode::encode_utf32(s)))) == Some(s),
{
    let u = unicode::encode_utf32(s);
    assert forall|i: int| 0 <= i < u.len() implies round_trips(#[trigger] u[i]) by {
        law_round_trip_u32(u[i]);
    }
    lemma_natives_of_stored(u);
    unicode::lemma_decode_encode_utf32(s);
}

/// Changing the byte order of a code-unit buffer keeps its host-order code units, so both
/// forms decode to the same text.
pub proof fn law_utf32_byte_order_change(b: Utf32StringBE, l: Utf32StringLE)
    ensures
        b.spec_is_little_form(l) ==> little_natives(l.0@) == big_natives(b.0@),
        l.spec_is_big_form(b) ==> big_natives(b.0@) == little_natives(l.0@),
{
    let bn = big_natives(b.0@);
    let ln = little_natives(l.0@);
    assert forall|i: int| 0 <= i < bn.len() implies round_trips(#[trigger] bn[i]) by {
        law_round_trip_u32(bn[i]);
    }
    assert forall|i: int| 0 <= i < ln.len() implies round_trips(#[trigger] ln[i]) by {
        law_round_trip_u32(ln[i]);
    }
    lemma_natives_of_stored(bn);
    lemma_natives_of_stored(ln);
}

} // verus!
