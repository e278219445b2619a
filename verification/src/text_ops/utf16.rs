//! UTF-16 code-unit buffers with explicit byte order.
use vstd::prelude::*;

use crate::messages::fixed_text;
use crate::specific_endian::{
    BigEndian, LittleEndian, SpecificEndianOwned, big_natives, big_stored, little_natives,
    little_stored, natives_of_big, law_round_trip_u16, lemma_natives_of_stored, round_trips, natives_of_little, store_big, store_little,
};
use crate::text_ops::unicode::{decode_utf16_units, encode_str_utf16};
use crate::text_ops::unicode;

verus! {

/// Errors returned when decoding UTF-16.
#[derive(Clone, Copy, Debug, Eq, PartialEq)]
pub enum Utf16Error {
    /// UTF-16 input contained an unpaired surrogate.
    InvalidUtf16,
}

impl Utf16Error {
    /// The error's message (what `Display` writes).
    pub fn to_string(&self) -> (r: String)
        ensures
            r@ == "invalid UTF-16"@,
    {
        fixed_text("invalid UTF-16")
    }
}

/// Borrowed UTF-16 code units, each stored big-endian.
#[derive(Clone, Copy, Debug, Eq, PartialEq, Hash, PartialOrd)]
pub struct Utf16StrBE<'a>(pub &'a [BigEndian<u16>]);

impl<'a> From<&'a [BigEndian<u16>]> for Utf16StrBE<'a> {
    fn from(v: &'a [BigEndian<u16>]) -> (r: Self) {
        Utf16StrBE(v)
    }
}

impl<'a> vstd::std_specs::convert::FromSpecImpl<&'a [BigEndian<u16>]> for Utf16StrBE<'a> {
    open spec fn obeys_from_spec() -> bool {
        true
    }

    open spec fn from_spec(v: &'a [BigEndian<u16>]) -> Utf16StrBE<'a> {
        Utf16StrBE(v)
    }
}

impl AsRef<[BigEndian<u16>]> for Utf16StrBE<'_> {
    fn as_ref(&self) -> (r: &[BigEndian<u16>])
        ensures
            r@ == self.0@,
    {
        self.0
    }
}

/// Owned UTF-16 code units, each stored big-endian.
#[derive(Clone, Debug, Eq, PartialEq, Hash, PartialOrd)]
pub struct Utf16StringBE(pub Vec<BigEndian<u16>>);

impl AsRef<[BigEndian<u16>]> for Utf16StringBE {
    fn as_ref(&self) -> (r: &[BigEndian<u16>])
        ensures
            r@ == self.0@,
    {
        self.0.as_slice()
    }
}

impl From<&str> for Utf16StringBE {
    /// Encodes text as UTF-16 code units, each stored big-endian.
    fn from(s: &str) -> (r: Self)
        ensures
            r.0@ == big_stored(unicode::encode_utf16(s@)),
    {
        let units = encode_str_utf16(s);
        Utf16StringBE(store_big(units.as_slice()))
    }
}

impl vstd::std_specs::convert::FromSpecImpl<&str> for Utf16StringBE {
    /// The result holds a vector, which no specification function can build, so the
    /// contract is the `ensures` of `from` itself.
    open spec fn obeys_from_spec() -> bool {
        false
    }

    open spec fn from_spec(s: &str) -> Utf16StringBE {
        vstd::pervasive::arbitrary()
    }
}

impl<'a> TryFrom<Utf16StrBE<'a>> for String {
    type Error = Utf16Error;

    /// Decodes the host-order code units.
    fn try_from(v: Utf16StrBE<'a>) -> (r: Result<String, Utf16Error>)
        ensures
            match r {
                Ok(s) => unicode::decode_utf16(big_natives(v.0@)) == Some(s@),
                Err(e) => e == Utf16Error::InvalidUtf16 && unicode::decode_utf16(big_natives(v.0@)) is None,
            },
    {
        let natives = natives_of_big(v.0);
        decode_utf16(natives.as_slice())
    }
}

impl<'a> vstd::std_specs::convert::TryFromSpecImpl<Utf16StrBE<'a>> for String {
    /// The result holds a `String`, which no specification function can build, so the
    /// contract is the `ensures` of `try_from` itself.
    open spec fn obeys_try_from_spec() -> bool {
        false
    }

    open spec fn try_from_spec(v: Utf16StrBE<'a>) -> Result<String, Utf16Error> {
        Err(Utf16Error::InvalidUtf16)
    }
}

impl<'a> TryFrom<&'a Utf16StringBE> for String {
    type Error = Utf16Error;

    /// Decodes the host-order code units.
    fn try_from(v: &'a Utf16StringBE) -> (r: Result<String, Utf16Error>)
        ensures
            match r {
                Ok(s) => unicode::decode_utf16(big_natives(v.0@)) == Some(s@),
                Err(e) => e == Utf16Error::InvalidUtf16 && unicode::decode_utf16(big_natives(v.0@)) is None,
            },
    {
        String::try_from(Utf16StrBE::from(v.0.as_slice()))
    }
}

impl<'a> vstd::std_specs::convert::TryFromSpecImpl<&'a Utf16StringBE> for String {
    /// The result holds a `String`, which no specification function can build, so the
    /// contract is the `ensures` of `try_from` itself.
    open spec fn obeys_try_from_spec() -> bool {
        false
    }

    open spec fn try_from_spec(v: &'a Utf16StringBE) -> Result<String, Utf16Error> {
        Err(Utf16Error::InvalidUtf16)
    }
}

/// Borrowed UTF-16 code units, each stored little-endian.
#[derive(Clone, Copy, Debug, Eq, PartialEq, Hash, PartialOrd)]
pub struct Utf16StrLE<'a>(pub &'a [LittleEndian<u16>]);

impl<'a> From<&'a [LittleEndian<u16>]> for Utf16StrLE<'a> {
    fn from(v: &'a [LittleEndian<u16>]) -> (r: Self) {
        Utf16StrLE(v)
    }
}

impl<'a> vstd::std_specs::convert::FromSpecImpl<&'a [LittleEndian<u16>]> for Utf16StrLE<'a> {
    open spec fn obeys_from_spec() -> bool {
        true
    }

    open spec fn from_spec(v: &'a [LittleEndian<u16>]) -> Utf16StrLE<'a> {
        Utf16StrLE(v)
    }
}

impl AsRef<[LittleEndian<u16>]> for Utf16StrLE<'_> {
    fn as_ref(&self) -> (r: &[LittleEndian<u16>])
        ensures
            r@ == self.0@,
    {
        self.0
    }
}

/// Owned UTF-16 code units, each stored little-endian.
#[derive(Clone, Debug, Eq, PartialEq, Hash, PartialOrd)]
pub struct Utf16StringLE(pub Vec<LittleEndian<u16>>);

impl AsRef<[LittleEndian<u16>]> for Utf16StringLE {
    fn as_ref(&self) -> (r: &[LittleEndian<u16>])
        ensures
            r@ == self.0@,
    {
        self.0.as_slice()
    }
}

impl From<&str> for Utf16StringLE {
    /// Encodes text as UTF-16 code units, each stored little-endian.
    fn from(s: &str) -> (r: Self)
        ensures
            r.0@ == little_stored(unicode::encode_utf16(s@)),
    {
        let units = encode_str_utf16(s);
        Utf16StringLE(store_little(units.as_slice()))
    }
}

impl vstd::std_specs::convert::FromSpecImpl<&str> for Utf16StringLE {
    /// The result holds a vector, which no specification function can build, so the
    /// contract is the `ensures` of `from` itself.
    open spec fn obeys_from_spec() -> bool {
        false
    }

    open spec fn from_spec(s: &str) -> Utf16StringLE {
        vstd::pervasive::arbitrary()
    }
}

impl<'a> TryFrom<Utf16StrLE<'a>> for String {
    type Error = Utf16Error;

    /// Decodes the host-order code units.
    fn try_from(v: Utf16StrLE<'a>) -> (r: Result<String, Utf16Error>)
        ensures
            match r {
                Ok(s) => unicode::decode_utf16(little_natives(v.0@)) == Some(s@),
                Err(e) => e == Utf16Error::InvalidUtf16 && unicode::decode_utf16(little_natives(v.0@)) is None,
            },
    {
        let natives = natives_of_little(v.0);
        decode_utf16(natives.as_slice())
    }
}

impl<'a> vstd::std_specs::convert::TryFromSpecImpl<Utf16StrLE<'a>> for String {
    /// The result holds a `String`, which no specification function can build, so the
    /// contract is the `ensures` of `try_from` itself.
    open spec fn obeys_try_from_spec() -> bool {
        false
    }

    open spec fn try_from_spec(v: Utf16StrLE<'a>) -> Result<String, Utf16Error> {
        Err(Utf16Error::InvalidUtf16)
    }
}

impl<'a> TryFrom<&'a Utf16StringLE> for String {
    type Error = Utf16Error;

    /// Decodes the host-order code units.
    fn try_from(v: &'a Utf16StringLE) -> (r: Result<String, Utf16Error>)
        ensures
            match r {
                Ok(s) => unicode::decode_utf16(little_natives(v.0@)) == Some(s@),
                Err(e) => e == Utf16Error::InvalidUtf16 && unicode::decode_utf16(little_natives(v.0@)) is None,
            },
    {
        String::try_from(Utf16StrLE::from(v.0.as_slice()))
    }
}

impl<'a> vstd::std_specs::convert::TryFromSpecImpl<&'a Utf16StringLE> for String {
    /// The result holds a `String`, which no specification function can build, so the
    /// contract is the `ensures` of `try_from` itself.
    open spec fn obeys_try_from_spec() -> bool {
        false
    }

    open spec fn try_from_spec(v: &'a Utf16StringLE) -> Result<String, Utf16Error> {
        Err(Utf16Error::InvalidUtf16)
    }
}

impl core::ops::Deref for Utf16StrBE<'_> {
    type Target = [BigEndian<u16>];

    fn deref(&self) -> (r: &[BigEndian<u16>])
        ensures
            r@ == self.0@,
    {
        self.0
    }
}

impl core::ops::Deref for Utf16StringBE {
    type Target = [BigEndian<u16>];

    fn deref(&self) -> (r: &[BigEndian<u16>])
        ensures
            r@ == self.0@,
    {
        self.0.as_slice()
    }
}

impl<'a> IntoIterator for Utf16StrBE<'a> {
    type Item = &'a BigEndian<u16>;

    type IntoIter = core::slice::Iter<'a, BigEndian<u16>>;

    /// Iterates over the stored code units.
    fn into_iter(self) -> (r: core::slice::Iter<'a, BigEndian<u16>>)
        ensures
            r == vstd::std_specs::slice::spec_slice_iter(self.0),
    {
        self.0.iter()
    }
}

impl<'a> IntoIterator for &'a Utf16StringBE {
    type Item = &'a BigEndian<u16>;

    type IntoIter = core::slice::Iter<'a, BigEndian<u16>>;

    /// Iterates over the stored code units.
    fn into_iter(self) -> (r: core::slice::Iter<'a, BigEndian<u16>>)
        ensures
            vstd::std_specs::iter::IteratorSpec::remaining(&r) == self.0@.as_ref(),
    {
        self.0.as_slice().iter()
    }
}

impl IntoIterator for Utf16StringBE {
    type Item = BigEndian<u16>;

    type IntoIter = std::vec::IntoIter<BigEndian<u16>>;

    /// Iterates over the stored code units, taking ownership.
    fn into_iter(self) -> (r: std::vec::IntoIter<BigEndian<u16>>)
        ensures
            r == vstd::std_specs::vec::spec_into_iter(self.0),
    {
        self.0.into_iter()
    }
}

impl core::ops::Deref for Utf16StrLE<'_> {
    type Target = [LittleEndian<u16>];

    fn deref(&self) -> (r: &[LittleEndian<u16>])
        ensures
            r@ == self.0@,
    {
        self.0
    }
}

impl core::ops::Deref for Utf16StringLE {
    type Target = [LittleEndian<u16>];

    fn deref(&self) -> (r: &[LittleEndian<u16>])
        ensures
            r@ == self.0@,
    {
        self.0.as_slice()
    }
}

impl<'a> IntoIterator for Utf16StrLE<'a> {
    type Item = &'a LittleEndian<u16>;

    type IntoIter = core::slice::Iter<'a, LittleEndian<u16>>;

    /// Iterates over the stored code units.
    fn into_iter(self) -> (r: core::slice::Iter<'a, LittleEndian<u16>>)
        ensures
            r == vstd::std_specs::slice::spec_slice_iter(self.0),
    {
        self.0.iter()
    }
}

impl<'a> IntoIterator for &'a Utf16StringLE {
    type Item = &'a LittleEndian<u16>;

    type IntoIter = core::slice::Iter<'a, LittleEndian<u16>>;

    /// Iterates over the stored code units.
    fn into_iter(self) -> (r: core::slice::Iter<'a, LittleEndian<u16>>)
        ensures
            vstd::std_specs::iter::IteratorSpec::remaining(&r) == self.0@.as_ref(),
    {
        self.0.as_slice().iter()
    }
}

impl IntoIterator for Utf16StringLE {
    type Item = LittleEndian<u16>;

    type IntoIter = std::vec::IntoIter<LittleEndian<u16>>;

    /// Iterates over the stored code units, taking ownership.
    fn into_iter(self) -> (r: std::vec::IntoIter<LittleEndian<u16>>)
        ensures
            r == vstd::std_specs::vec::spec_into_iter(self.0),
    {
        self.0.into_iter()
    }
}

/// Host-endian borrowed UTF-16 code units (the little-endian form).
pub type Utf16Str<'a> = Utf16StrLE<'a>;

/// Host-endian owned UTF-16 code units (the little-endian form).
pub type Utf16String = Utf16StringLE;

impl SpecificEndianOwned for Utf16StringBE {
    type Big = Utf16StringBE;

    type Little = Utf16StringLE;

    open spec fn spec_is_big_form(&self, b: Utf16StringBE) -> bool {
        b.0@ == self.0@
    }

    open spec fn spec_is_little_form(&self, l: Utf16StringLE) -> bool {
        l.0@ == little_stored(big_natives(self.0@))
    }

    fn to_big_endian(&self) -> (r: Utf16StringBE) {
        Utf16StringBE(vstd::slice::slice_to_vec(self.0.as_slice()))
    }

    fn to_little_endian(&self) -> (r: Utf16StringLE) {
        let natives = natives_of_big(self.0.as_slice());
        Utf16StringLE(store_little(natives.as_slice()))
    }

    fn from_big_endian(&self) -> (r: Utf16StringBE) {
        Utf16StringBE(vstd::slice::slice_to_vec(self.0.as_slice()))
    }

    fn from_little_endian(&self) -> (r: Utf16StringLE) {
        self.to_little_endian()
    }
}

impl SpecificEndianOwned for Utf16StringLE {
    type Big = Utf16StringBE;

    type Little = Utf16StringLE;

    open spec fn spec_is_big_form(&self, b: Utf16StringBE) -> bool {
        b.0@ == big_stored(little_natives(self.0@))
    }

    open spec fn spec_is_little_form(&self, l: Utf16StringLE) -> bool {
        l.0@ == self.0@
    }

    fn to_big_endian(&self) -> (r: Utf16StringBE) {
        let natives = natives_of_little(self.0.as_slice());
        Utf16StringBE(store_big(natives.as_slice()))
    }

    fn to_little_endian(&self) -> (r: Utf16StringLE) {
        Utf16StringLE(vstd::slice::slice_to_vec(self.0.as_slice()))
    }

    fn from_big_endian(&self) -> (r: Utf16StringBE) {
        self.to_big_endian()
    }

    fn from_little_endian(&self) -> (r: Utf16StringLE) {
        Utf16StringLE(vstd::slice::slice_to_vec(self.0.as_slice()))
    }
}

/// Decodes host-order UTF-16 code units.
fn decode_utf16(units: &[u16]) -> (r: Result<String, Utf16Error>)
    ensures
        match r {
            Ok(s) => unicode::decode_utf16(units@) == Some(s@),
            Err(e) => e == Utf16Error::InvalidUtf16 && unicode::decode_utf16(units@) is None,
        },
{
    match decode_utf16_units(units) {
        Some(s) => Ok(s),
        None => Err(Utf16Error::InvalidUtf16),
    }
}

/// Text stored as big- or little-endian UTF-16 code units decodes back to the same text: what
/// `String::try_from` gives back of `Utf16StringBE::from(s)` or `Utf16StringLE::from(s)` is `s`.
pub proof fn law_utf16_text_round_trip(s: Seq<char>)
    ensures
        unicode::decode_utf16(big_natives(big_stored(unicode::encode_utf16(s)))) == Some(s),
        unicode::decode_utf16(little_natives(little_stored(unicode::encode_utf16(s)))) == Some(s),
{
    let u = unicode::encode_utf16(s);
    assert forall|i: int| 0 <= i < u.len() implies round_trips(#[trigger] u[i]) by {
        law_round_trip_u16(u[i]);
    }
    lemma_natives_of_stored(u);
    unicode::lemma_decode_encode_utf16(s);
}

/// Changing the byte order of a code-unit buffer keeps its host-order code units, so both
/// forms decode to the same text.
pub proof fn law_utf16_byte_order_change(b: Utf16StringBE, l: Utf16StringLE)
    ensures
        b.spec_is_little_form(l) ==> little_natives(l.0@) == big_natives(b.0@),
        l.spec_is_big_form(b) ==> big_natives(b.0@) == little_natives(l.0@),
{
    let bn = big_natives(b.0@);
    let ln = little_natives(l.0@);
    assert forall|i: int| 0 <= i < bn.len() implies round_trips(#[trigger] bn[i]) by {
        law_round_trip_u16(bn[i]);
    }
    assert forall|i: int| 0 <= i < ln.len() implies round_trips(#[trigger] ln[i]) by {
        law_round_trip_u16(ln[i]);
    }
    lemma_natives_of_stored(bn);
    lemma_natives_of_stored(ln);
}

} // verus!
