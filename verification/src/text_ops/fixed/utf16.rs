//! Fixed-size UTF-16 code-unit storage with explicit byte order, and the packed, NUL-padded
//! and space-padded conventions for reading text out of it.
use vstd::prelude::*;

use crate::specific_endian::{
    BigEndian, LittleEndian, SpecificEndian, SpecificEndianOwned, big_bits, big_natives,
    big_stored, little_bits, little_natives, little_stored, natives_of_big, natives_of_little,
    spec_u16_to_be, spec_u16_to_le, store_big, store_little, wrap_big_bits, wrap_little_bits,
    round_trips,
};
use crate::byte_order::{
    le_bytes, be_bytes, le_value, be_value, lemma_be_value_of_be_bytes, lemma_le_bytes_len,
    lemma_le_value_bound, lemma_le_value_of_le_bytes, lemma_swap16_involution, pow256,
    spec_host_big,
};
use crate::io::{FromSlice, be_value_of, le_value_of, push_be_bytes, push_le_bytes};
use crate::messages::{decimal, fixed_text, two_numbers};
use crate::text_ops::fixed::arrays::{
    array_from_slice, array_of, fill_then_copy, lemma_array_eq, lemma_array_of,
};
use crate::text_ops::fixed::padding::{
    before_first, lemma_before_first, lemma_before_first_pad, lemma_trim_end_done,
    lemma_trim_end_pad, lemma_trim_end_step, pad_to, trim_end,
};
use crate::text_ops::fixed::FixedUtf16Error;
use crate::text_ops::unicode;
use crate::text_ops::unicode::{decode_utf16_units, encode_str_utf16};
use crate::text_ops::utf16::{Utf16StrBE, Utf16StrLE, Utf16StringBE, Utf16StringLE};

verus! {

/// Inline storage of exactly `N` UTF-16 code units, each stored in the byte order of `E`.
#[derive(Clone, Copy, Debug, Eq, PartialEq, Hash, PartialOrd)]
pub struct FixedUtf16CodeUnitsEndian<E, const N: usize> {
    pub(crate) units: [E; N],
}

/// A borrowed reference to exactly `N` UTF-16 code units stored in the byte order of `E`.
#[derive(Clone, Copy, Debug, Eq, PartialEq, Hash, PartialOrd)]
pub struct FixedUtf16CodeUnitsRefEndian<'a, E, const N: usize>(pub &'a [E; N]);

/// Little-endian fixed UTF-16 code units.
pub type FixedUtf16LeCodeUnits<const N: usize> = FixedUtf16CodeUnitsEndian<LittleEndian<u16>, N>;

/// Big-endian fixed UTF-16 code units.
pub type FixedUtf16BeCodeUnits<const N: usize> = FixedUtf16CodeUnitsEndian<BigEndian<u16>, N>;

/// A borrowed reference to exactly `N` UTF-16LE code units.
pub type FixedUtf16LeCodeUnitsRef<'a, const N: usize> = FixedUtf16CodeUnitsRefEndian<'a, LittleEndian<u16>, N>;

/// A borrowed reference to exactly `N` UTF-16BE code units.
pub type FixedUtf16BeCodeUnitsRef<'a, const N: usize> = FixedUtf16CodeUnitsRefEndian<'a, BigEndian<u16>, N>;

/// Host-endian fixed UTF-16 code units (the little-endian form).
pub type FixedUtf16CodeUnits<const N: usize> = FixedUtf16LeCodeUnits<N>;

/// A borrowed reference to exactly `N` host-endian UTF-16 code units (the little-endian form).
pub type FixedUtf16CodeUnitsRef<'a, const N: usize> = FixedUtf16LeCodeUnitsRef<'a, N>;

impl<E, const N: usize> View for FixedUtf16CodeUnitsEndian<E, N> {
    type V = Seq<E>;

    /// The stored code units.
    closed spec fn view(&self) -> Seq<E> {
        self.units@
    }
}

impl<E, const N: usize> FixedUtf16CodeUnitsEndian<E, N> {
    /// Returns the stored code units.
    pub fn as_units(&self) -> (r: &[E; N])
        ensures
            r@ == self@,
    {
        &self.units
    }
}

impl<'a, E, const N: usize> FixedUtf16CodeUnitsRefEndian<'a, E, N> {
    /// Returns the referenced code units.
    pub fn as_units(&self) -> (r: &'a [E; N])
        ensures
            r@ == self.0@,
    {
        self.0
    }
}

impl<E, const N: usize> From<[E; N]> for FixedUtf16CodeUnitsEndian<E, N> {
    fn from(units: [E; N]) -> (r: Self)
        ensures
            r@ == units@,
    {
        FixedUtf16CodeUnitsEndian { units }
    }
}

impl<E, const N: usize> vstd::std_specs::convert::FromSpecImpl<[E; N]> for FixedUtf16CodeUnitsEndian<E, N> {
    open spec fn obeys_from_spec() -> bool {
        true
    }

    closed spec fn from_spec(units: [E; N]) -> FixedUtf16CodeUnitsEndian<E, N> {
        FixedUtf16CodeUnitsEndian { units }
    }
}

impl<'a, E, const N: usize> From<&'a [E; N]> for FixedUtf16CodeUnitsRefEndian<'a, E, N> {
    fn from(v: &'a [E; N]) -> (r: Self) {
        FixedUtf16CodeUnitsRefEndian(v)
    }
}

impl<'a, E, const N: usize> vstd::std_specs::convert::FromSpecImpl<&'a [E; N]> for FixedUtf16CodeUnitsRefEndian<'a, E, N> {
    open spec fn obeys_from_spec() -> bool {
        true
    }

    open spec fn from_spec(v: &'a [E; N]) -> FixedUtf16CodeUnitsRefEndian<'a, E, N> {
        FixedUtf16CodeUnitsRefEndian(v)
    }
}

/// The error for text of `count` code units that must fill exactly `n`: past `n` the count
/// stops at `n + 1`, the first unit that does not fit.
pub open spec fn unit_count_error16(n: usize, count: nat) -> FixedUtf16Error {
    if count > n {
        FixedUtf16Error::WrongCodeUnitCount { expected: n, found: (n + 1) as usize }
    } else {
        FixedUtf16Error::WrongCodeUnitCount { expected: n, found: count as usize }
    }
}

impl<const N: usize> TryFrom<&[u16]> for FixedUtf16LeCodeUnits<N> {
    type Error = FixedUtf16Error;

    /// Takes exactly `N` code units as raw stored bits, without conversion.
    fn try_from(v: &[u16]) -> (r: Result<FixedUtf16LeCodeUnits<N>, FixedUtf16Error>)
        ensures
            match r {
                Ok(f) => v@.len() == N && f@ == little_bits(v@),
                Err(e) => v@.len() != N && e == (FixedUtf16Error::WrongCodeUnitCount {
                    expected: N,
                    found: v@.len() as usize,
                }),
            },
    {
        if v.len() != N {
            return Err(FixedUtf16Error::WrongCodeUnitCount { expected: N, found: v.len() });
        }
        let bits = wrap_little_bits(v);
        let units: [LittleEndian<u16>; N] = array_from_slice(LittleEndian::from_bits(0u16), bits.as_slice());
        Ok(FixedUtf16CodeUnitsEndian { units })
    }
}

impl<const N: usize> vstd::std_specs::convert::TryFromSpecImpl<&[u16]> for FixedUtf16LeCodeUnits<N> {
    /// The contract is the `ensures` of `try_from` itself.
    open spec fn obeys_try_from_spec() -> bool {
        false
    }

    open spec fn try_from_spec(v: &[u16]) -> Result<FixedUtf16LeCodeUnits<N>, FixedUtf16Error> {
        vstd::pervasive::arbitrary()
    }
}

impl<const N: usize> TryFrom<&[LittleEndian<u16>]> for FixedUtf16LeCodeUnits<N> {
    type Error = FixedUtf16Error;

    /// Copies exactly `N` stored code units.
    fn try_from(v: &[LittleEndian<u16>]) -> (r: Result<FixedUtf16LeCodeUnits<N>, FixedUtf16Error>)
        ensures
            match r {
                Ok(f) => v@.len() == N && f@ == v@,
                Err(e) => v@.len() != N && e == (FixedUtf16Error::WrongCodeUnitCount {
                    expected: N,
                    found: v@.len() as usize,
                }),
            },
    {
        if v.len() != N {
            return Err(FixedUtf16Error::WrongCodeUnitCount { expected: N, found: v.len() });
        }
        let units: [LittleEndian<u16>; N] = array_from_slice(LittleEndian::from_bits(0u16), v);
        Ok(FixedUtf16CodeUnitsEndian { units })
    }
}

impl<const N: usize> vstd::std_specs::convert::TryFromSpecImpl<&[LittleEndian<u16>]> for FixedUtf16LeCodeUnits<N> {
    /// The contract is the `ensures` of `try_from` itself.
    open spec fn obeys_try_from_spec() -> bool {
        false
    }

    open spec fn try_from_spec(v: &[LittleEndian<u16>]) -> Result<FixedUtf16LeCodeUnits<N>, FixedUtf16Error> {
        vstd::pervasive::arbitrary()
    }
}

impl<const N: usize> TryFrom<&str> for FixedUtf16LeCodeUnits<N> {
    type Error = FixedUtf16Error;

    /// Stores the UTF-16 code units of `s`, which must number exactly `N`, each converted to
    /// the little-endian stored byte order.
    fn try_from(s: &str) -> (r: Result<FixedUtf16LeCodeUnits<N>, FixedUtf16Error>)
        ensures
            match r {
                Ok(f) => unicode::encode_utf16(s@).len() == N && f@ == little_stored(unicode::encode_utf16(s@)),
                Err(e) => unicode::encode_utf16(s@).len() != N && e == unit_count_error16(
                    N,
                    unicode::encode_utf16(s@).len(),
                ),
            },
    {
        let units = encode_str_utf16(s);
        if units.len() > N {
            return Err(FixedUtf16Error::WrongCodeUnitCount { expected: N, found: N + 1 });
        }
        if units.len() != N {
            return Err(FixedUtf16Error::WrongCodeUnitCount { expected: N, found: units.len() });
        }
        let stored = store_little(units.as_slice());
        let arr: [LittleEndian<u16>; N] = array_from_slice(LittleEndian::from_bits(0u16), stored.as_slice());
        Ok(FixedUtf16CodeUnitsEndian { units: arr })
    }
}

impl<const N: usize> vstd::std_specs::convert::TryFromSpecImpl<&str> for FixedUtf16LeCodeUnits<N> {
    /// The contract is the `ensures` of `try_from` itself.
    open spec fn obeys_try_from_spec() -> bool {
        false
    }

    open spec fn try_from_spec(s: &str) -> Result<FixedUtf16LeCodeUnits<N>, FixedUtf16Error> {
        vstd::pervasive::arbitrary()
    }
}

impl<const N: usize> TryFrom<String> for FixedUtf16LeCodeUnits<N> {
    type Error = FixedUtf16Error;

    /// As for `&str`.
    fn try_from(s: String) -> (r: Result<FixedUtf16LeCodeUnits<N>, FixedUtf16Error>)
        ensures
            match r {
                Ok(f) => unicode::encode_utf16(s@).len() == N && f@ == little_stored(unicode::encode_utf16(s@)),
                Err(e) => unicode::encode_utf16(s@).len() != N && e == unit_count_error16(
                    N,
                    unicode::encode_utf16(s@).len(),
                ),
            },
    {
        FixedUtf16LeCodeUnits::<N>::try_from(s.as_str())
    }
}

impl<const N: usize> vstd::std_specs::convert::TryFromSpecImpl<String> for FixedUtf16LeCodeUnits<N> {
    /// The contract is the `ensures` of `try_from` itself.
    open spec fn obeys_try_from_spec() -> bool {
        false
    }

    open spec fn try_from_spec(s: String) -> Result<FixedUtf16LeCodeUnits<N>, FixedUtf16Error> {
        vstd::pervasive::arbitrary()
    }
}

impl<const N: usize> TryFrom<Utf16StringLE> for FixedUtf16LeCodeUnits<N> {
    type Error = FixedUtf16Error;

    /// Copies exactly `N` stored code units.
    fn try_from(v: Utf16StringLE) -> (r: Result<FixedUtf16LeCodeUnits<N>, FixedUtf16Error>)
        ensures
            match r {
                Ok(f) => v.0@.len() == N && f@ == v.0@,
                Err(e) => v.0@.len() != N && e == (FixedUtf16Error::WrongCodeUnitCount {
                    expected: N,
                    found: v.0@.len() as usize,
                }),
            },
    {
        FixedUtf16LeCodeUnits::<N>::try_from(v.0.as_slice())
    }
}

impl<const N: usize> vstd::std_specs::convert::TryFromSpecImpl<Utf16StringLE> for FixedUtf16LeCodeUnits<N> {
    /// The contract is the `ensures` of `try_from` itself.
    open spec fn obeys_try_from_spec() -> bool {
        false
    }

    open spec fn try_from_spec(v: Utf16StringLE) -> Result<FixedUtf16LeCodeUnits<N>, FixedUtf16Error> {
        vstd::pervasive::arbitrary()
    }
}

impl<const N: usize> TryFrom<&FixedUtf16LeCodeUnits<N>> for String {
    type Error = FixedUtf16Error;

    /// Decodes all `N` host-order code units.
    fn try_from(v: &FixedUtf16LeCodeUnits<N>) -> (r: Result<String, FixedUtf16Error>)
        ensures
            match r {
                Ok(s) => unicode::decode_utf16(little_natives(v@)) == Some(s@),
                Err(e) => e == FixedUtf16Error::InvalidUtf16 && unicode::decode_utf16(little_natives(v@)) is None,
            },
    {
        let native = natives_of_little(v.units.as_slice());
        match decode_utf16_units(native.as_slice()) {
            Some(s) => Ok(s),
            None => Err(FixedUtf16Error::InvalidUtf16),
        }
    }
}

impl<const N: usize> vstd::std_specs::convert::TryFromSpecImpl<&FixedUtf16LeCodeUnits<N>> for String {
    /// A `String` cannot be built in a specification, so the contract is the `ensures` of
    /// `try_from` itself.
    open spec fn obeys_try_from_spec() -> bool {
        false
    }

    open spec fn try_from_spec(v: &FixedUtf16LeCodeUnits<N>) -> Result<String, FixedUtf16Error> {
        vstd::pervasive::arbitrary()
    }
}

impl<const N: usize> FixedUtf16LeCodeUnits<N> {
    /// The decoded text, or `<invalid UTF-16>` where the units do not decode (what `Display`
    /// writes).
    pub fn to_string(&self) -> (r: String)
        ensures
            match unicode::decode_utf16(little_natives(self@)) {
                Some(t) => r@ == t,
                None => r@ == "<invalid UTF-16>"@,
            },
    {
        match String::try_from(self) {
            Ok(s) => s,
            Err(_) => fixed_text("<invalid UTF-16>"),
        }
    }
}

impl<const N: usize> TryFrom<&[u16]> for FixedUtf16BeCodeUnits<N> {
    type Error = FixedUtf16Error;

    /// Takes exactly `N` code units as raw stored bits, without conversion.
    fn try_from(v: &[u16]) -> (r: Result<FixedUtf16BeCodeUnits<N>, FixedUtf16Error>)
        ensures
            match r {
                Ok(f) => v@.len() == N && f@ == big_bits(v@),
                Err(e) => v@.len() != N && e == (FixedUtf16Error::WrongCodeUnitCount {
                    expected: N,
                    found: v@.len() as usize,
                }),
            },
    {
        if v.len() != N {
            return Err(FixedUtf16Error::WrongCodeUnitCount { expected: N, found: v.len() });
        }
        let bits = wrap_big_bits(v);
        let units: [BigEndian<u16>; N] = array_from_slice(BigEndian::from_bits(0u16), bits.as_slice());
        Ok(FixedUtf16CodeUnitsEndian { units })
    }
}

impl<const N: usize> vstd::std_specs::convert::TryFromSpecImpl<&[u16]> for FixedUtf16BeCodeUnits<N> {
    /// The contract is the `ensures` of `try_from` itself.
    open spec fn obeys_try_from_spec() -> bool {
        false
    }

    open spec fn try_from_spec(v: &[u16]) -> Result<FixedUtf16BeCodeUnits<N>, FixedUtf16Error> {
        vstd::pervasive::arbitrary()
    }
}

impl<const N: usize> TryFrom<&[BigEndian<u16>]> for FixedUtf16BeCodeUnits<N> {
    type Error = FixedUtf16Error;

    /// Copies exactly `N` stored code units.
    fn try_from(v: &[BigEndian<u16>]) -> (r: Result<FixedUtf16BeCodeUnits<N>, FixedUtf16Error>)
        ensures
            match r {
                Ok(f) => v@.len() == N && f@ == v@,
                Err(e) => v@.len() != N && e == (FixedUtf16Error::WrongCodeUnitCount {
                    expected: N,
                    found: v@.len() as usize,
                }),
            },
    {
        if v.len() != N {
            return Err(FixedUtf16Error::WrongCodeUnitCount { expected: N, found: v.len() });
        }
        let units: [BigEndian<u16>; N] = array_from_slice(BigEndian::from_bits(0u16), v);
        Ok(FixedUtf16CodeUnitsEndian { units })
    }
}

impl<const N: usize> vstd::std_specs::convert::TryFromSpecImpl<&[BigEndian<u16>]> for FixedUtf16BeCodeUnits<N> {
    /// The contract is the `ensures` of `try_from` itself.
    open spec fn obeys_try_from_spec() -> bool {
        false
    }

    open spec fn try_from_spec(v: &[BigEndian<u16>]) -> Result<FixedUtf16BeCodeUnits<N>, FixedUtf16Error> {
        vstd::pervasive::arbitrary()
    }
}

impl<const N: usize> TryFrom<&str> for FixedUtf16BeCodeUnits<N> {
    type Error = FixedUtf16Error;

    /// Stores the UTF-16 code units of `s`, which must number exactly `N`, each converted to
    /// the big-endian stored byte order.
    fn try_from(s: &str) -> (r: Result<FixedUtf16BeCodeUnits<N>, FixedUtf16Error>)
        ensures
            match r {
                Ok(f) => unicode::encode_utf16(s@).len() == N && f@ == big_stored(unicode::encode_utf16(s@)),
                Err(e) => unicode::encode_utf16(s@).len() != N && e == unit_count_error16(
                    N,
                    unicode::encode_utf16(s@).len(),
                ),
            },
    {
        let units = encode_str_utf16(s);
        if units.len() > N {
            return Err(FixedUtf16Error::WrongCodeUnitCount { expected: N, found: N + 1 });
        }
        if units.len() != N {
            return Err(FixedUtf16Error::WrongCodeUnitCount { expected: N, found: units.len() });
        }
        let stored = store_big(units.as_slice());
        let arr: [BigEndian<u16>; N] = array_from_slice(BigEndian::from_bits(0u16), stored.as_slice());
        Ok(FixedUtf16CodeUnitsEndian { units: arr })
    }
}

impl<const N: usize> vstd::std_specs::convert::TryFromSpecImpl<&str> for FixedUtf16BeCodeUnits<N> {
    /// The contract is the `ensures` of `try_from` itself.
    open spec fn obeys_try_from_spec() -> bool {
        false
    }

    open spec fn try_from_spec(s: &str) -> Result<FixedUtf16BeCodeUnits<N>, FixedUtf16Error> {
        vstd::pervasive::arbitrary()
    }
}

impl<const N: usize> TryFrom<String> for FixedUtf16BeCodeUnits<N> {
    type Error = FixedUtf16Error;

    /// As for `&str`.
    fn try_from(s: String) -> (r: Result<FixedUtf16BeCodeUnits<N>, FixedUtf16Error>)
        ensures
            match r {
                Ok(f) => unicode::encode_utf16(s@).len() == N && f@ == big_stored(unicode::encode_utf16(s@)),
                Err(e) => unicode::encode_utf16(s@).len() != N && e == unit_count_error16(
                    N,
                    unicode::encode_utf16(s@).len(),
                ),
            },
    {
        FixedUtf16BeCodeUnits::<N>::try_from(s.as_str())
    }
}

impl<const N: usize> vstd::std_specs::convert::TryFromSpecImpl<String> for FixedUtf16BeCodeUnits<N> {
    /// The contract is the `ensures` of `try_from` itself.
    open spec fn obeys_try_from_spec() -> bool {
        false
    }

    open spec fn try_from_spec(s: String) -> Result<FixedUtf16BeCodeUnits<N>, FixedUtf16Error> {
        vstd::pervasive::arbitrary()
    }
}

impl<const N: usize> TryFrom<Utf16StringBE> for FixedUtf16BeCodeUnits<N> {
    type Error = FixedUtf16Error;

    /// Copies exactly `N` stored code units.
    fn try_from(v: Utf16StringBE) -> (r: Result<FixedUtf16BeCodeUnits<N>, FixedUtf16Error>)
        ensures
            match r {
                Ok(f) => v.0@.len() == N && f@ == v.0@,
                Err(e) => v.0@.len() != N && e == (FixedUtf16Error::WrongCodeUnitCount {
                    expected: N,
                    found: v.0@.len() as usize,
                }),
            },
    {
        FixedUtf16BeCodeUnits::<N>::try_from(v.0.as_slice())
    }
}

impl<const N: usize> vstd::std_specs::convert::TryFromSpecImpl<Utf16StringBE> for FixedUtf16BeCodeUnits<N> {
    /// The contract is the `ensures` of `try_from` itself.
    open spec fn obeys_try_from_spec() -> bool {
        false
    }

    open spec fn try_from_spec(v: Utf16StringBE) -> Result<FixedUtf16BeCodeUnits<N>, FixedUtf16Error> {
        vstd::pervasive::arbitrary()
    }
}

impl<const N: usize> TryFrom<&FixedUtf16BeCodeUnits<N>> for String {
    type Error = FixedUtf16Error;

    /// Decodes all `N` host-order code units.
    fn try_from(v: &FixedUtf16BeCodeUnits<N>) -> (r: Result<String, FixedUtf16Error>)
        ensures
            match r {
                Ok(s) => unicode::decode_utf16(big_natives(v@)) == Some(s@),
                Err(e) => e == FixedUtf16Error::InvalidUtf16 && unicode::decode_utf16(big_natives(v@)) is None,
            },
    {
        let native = natives_of_big(v.units.as_slice());
        match decode_utf16_units(native.as_slice()) {
            Some(s) => Ok(s),
            None => Err(FixedUtf16Error::InvalidUtf16),
        }
    }
}

impl<const N: usize> vstd::std_specs::convert::TryFromSpecImpl<&FixedUtf16BeCodeUnits<N>> for String {
    /// A `String` cannot be built in a specification, so the contract is the `ensures` of
    /// `try_from` itself.
    open spec fn obeys_try_from_spec() -> bool {
        false
    }

    open spec fn try_from_spec(v: &FixedUtf16BeCodeUnits<N>) -> Result<String, FixedUtf16Error> {
        vstd::pervasive::arbitrary()
    }
}

impl<const N: usize> FixedUtf16BeCodeUnits<N> {
    /// The decoded text, or `<invalid UTF-16>` where the units do not decode (what `Display`
    /// writes).
    pub fn to_string(&self) -> (r: String)
        ensures
            match unicode::decode_utf16(big_natives(self@)) {
                Some(t) => r@ == t,
                None => r@ == "<invalid UTF-16>"@,
            },
    {
        match String::try_from(self) {
            Ok(s) => s,
            Err(_) => fixed_text("<invalid UTF-16>"),
        }
    }
}


/// Fixed little-endian UTF-16 code units read as a packed string: decoding uses all `N` units.
#[derive(Clone, Copy, Debug, Eq, PartialEq, Hash, PartialOrd)]
pub struct FixedUtf16LePacked<const N: usize>(pub FixedUtf16LeCodeUnits<N>);

/// Fixed little-endian UTF-16 code units read as a NUL-padded string: decoding stops at the
/// first zero code unit.
#[derive(Clone, Copy, Debug, Eq, PartialEq, Hash, PartialOrd)]
pub struct FixedUtf16LeNullPadded<const N: usize>(pub FixedUtf16LeCodeUnits<N>);

/// Fixed little-endian UTF-16 code units read as a space-padded string: decoding drops
/// trailing space code units.
#[derive(Clone, Copy, Debug, Eq, PartialEq, Hash, PartialOrd)]
pub struct FixedUtf16LeSpacePadded<const N: usize>(pub FixedUtf16LeCodeUnits<N>);

/// The earlier name of `FixedUtf16LeNullPadded` (these fields are NUL-padded; no final terminator is required).
pub type FixedUtf16LeNullTerminated<const N: usize> = FixedUtf16LeNullPadded<N>;

impl<const N: usize> From<FixedUtf16LeCodeUnits<N>> for FixedUtf16LePacked<N> {
    fn from(v: FixedUtf16LeCodeUnits<N>) -> (r: Self) {
        FixedUtf16LePacked(v)
    }
}

impl<const N: usize> vstd::std_specs::convert::FromSpecImpl<FixedUtf16LeCodeUnits<N>> for FixedUtf16LePacked<N> {
    open spec fn obeys_from_spec() -> bool {
        true
    }

    open spec fn from_spec(v: FixedUtf16LeCodeUnits<N>) -> FixedUtf16LePacked<N> {
        FixedUtf16LePacked(v)
    }
}

impl<const N: usize> From<FixedUtf16LePacked<N>> for FixedUtf16LeCodeUnits<N> {
    fn from(v: FixedUtf16LePacked<N>) -> (r: Self) {
        v.0
    }
}

impl<const N: usize> vstd::std_specs::convert::FromSpecImpl<FixedUtf16LePacked<N>> for FixedUtf16LeCodeUnits<N> {
    open spec fn obeys_from_spec() -> bool {
        true
    }

    open spec fn from_spec(v: FixedUtf16LePacked<N>) -> FixedUtf16LeCodeUnits<N> {
        v.0
    }
}

impl<const N: usize> From<FixedUtf16LeCodeUnits<N>> for FixedUtf16LeNullPadded<N> {
    fn from(v: FixedUtf16LeCodeUnits<N>) -> (r: Self) {
        FixedUtf16LeNullPadded(v)
    }
}

impl<const N: usize> vstd::std_specs::convert::FromSpecImpl<FixedUtf16LeCodeUnits<N>> for FixedUtf16LeNullPadded<N> {
    open spec fn obeys_from_spec() -> bool {
        true
    }

    open spec fn from_spec(v: FixedUtf16LeCodeUnits<N>) -> FixedUtf16LeNullPadded<N> {
        FixedUtf16LeNullPadded(v)
    }
}

impl<const N: usize> From<FixedUtf16LeNullPadded<N>> for FixedUtf16LeCodeUnits<N> {
    fn from(v: FixedUtf16LeNullPadded<N>) -> (r: Self) {
        v.0
    }
}

impl<const N: usize> vstd::std_specs::convert::FromSpecImpl<FixedUtf16LeNullPadded<N>> for FixedUtf16LeCodeUnits<N> {
    open spec fn obeys_from_spec() -> bool {
        true
    }

    open spec fn from_spec(v: FixedUtf16LeNullPadded<N>) -> FixedUtf16LeCodeUnits<N> {
        v.0
    }
}

impl<const N: usize> From<FixedUtf16LeCodeUnits<N>> for FixedUtf16LeSpacePadded<N> {
    fn from(v: FixedUtf16LeCodeUnits<N>) -> (r: Self) {
        FixedUtf16LeSpacePadded(v)
    }
}

impl<const N: usize> vstd::std_specs::convert::FromSpecImpl<FixedUtf16LeCodeUnits<N>> for FixedUtf16LeSpacePadded<N> {
    open spec fn obeys_from_spec() -> bool {
        true
    }

    open spec fn from_spec(v: FixedUtf16LeCodeUnits<N>) -> FixedUtf16LeSpacePadded<N> {
        FixedUtf16LeSpacePadded(v)
    }
}

impl<const N: usize> From<FixedUtf16LeSpacePadded<N>> for FixedUtf16LeCodeUnits<N> {
    fn from(v: FixedUtf16LeSpacePadded<N>) -> (r: Self) {
        v.0
    }
}

impl<const N: usize> vstd::std_specs::convert::FromSpecImpl<FixedUtf16LeSpacePadded<N>> for FixedUtf16LeCodeUnits<N> {
    open spec fn obeys_from_spec() -> bool {
        true
    }

    open spec fn from_spec(v: FixedUtf16LeSpacePadded<N>) -> FixedUtf16LeCodeUnits<N> {
        v.0
    }
}

impl<const N: usize> TryFrom<&str> for FixedUtf16LePacked<N> {
    type Error = FixedUtf16Error;

    /// Stores the UTF-16 code units of `s`, which must number exactly `N`, each converted to
    /// the stored byte order.
    fn try_from(s: &str) -> (r: Result<FixedUtf16LePacked<N>, FixedUtf16Error>)
        ensures
            match r {
                Ok(f) => unicode::encode_utf16(s@).len() == N && f.0@ == little_stored(unicode::encode_utf16(s@)),
                Err(e) => unicode::encode_utf16(s@).len() != N && e == unit_count_error16(
                    N,
                    unicode::encode_utf16(s@).len(),
                ),
            },
    {
        match FixedUtf16LeCodeUnits::<N>::try_from(s) {
            Ok(v) => Ok(FixedUtf16LePacked(v)),
            Err(e) => Err(e),
        }
    }
}

impl<const N: usize> vstd::std_specs::convert::TryFromSpecImpl<&str> for FixedUtf16LePacked<N> {
    /// The contract is the `ensures` of `try_from` itself.
    open spec fn obeys_try_from_spec() -> bool {
        false
    }

    open spec fn try_from_spec(s: &str) -> Result<FixedUtf16LePacked<N>, FixedUtf16Error> {
        vstd::pervasive::arbitrary()
    }
}

impl<const N: usize> TryFrom<String> for FixedUtf16LePacked<N> {
    type Error = FixedUtf16Error;

    /// As for `&str`.
    fn try_from(s: String) -> (r: Result<FixedUtf16LePacked<N>, FixedUtf16Error>)
        ensures
            match r {
                Ok(f) => unicode::encode_utf16(s@).len() == N && f.0@ == little_stored(unicode::encode_utf16(s@)),
                Err(e) => unicode::encode_utf16(s@).len() != N && e == unit_count_error16(
                    N,
                    unicode::encode_utf16(s@).len(),
                ),
            },
    {
        match FixedUtf16LeCodeUnits::<N>::try_from(s) {
            Ok(v) => Ok(FixedUtf16LePacked(v)),
            Err(e) => Err(e),
        }
    }
}

impl<const N: usize> vstd::std_specs::convert::TryFromSpecImpl<String> for FixedUtf16LePacked<N> {
    /// The contract is the `ensures` of `try_from` itself.
    open spec fn obeys_try_from_spec() -> bool {
        false
    }

    open spec fn try_from_spec(s: String) -> Result<FixedUtf16LePacked<N>, FixedUtf16Error> {
        vstd::pervasive::arbitrary()
    }
}

impl<const N: usize> TryFrom<&str> for FixedUtf16LeNullPadded<N> {
    type Error = FixedUtf16Error;

    /// Stores the UTF-16 code units of `s`, followed by zero units up to `N`, each converted
    /// to the stored byte order.
    fn try_from(s: &str) -> (r: Result<FixedUtf16LeNullPadded<N>, FixedUtf16Error>)
        ensures
            match r {
                Ok(f) => unicode::encode_utf16(s@).len() <= N && f.0@ == little_stored(
                    pad_to(unicode::encode_utf16(s@), N as nat, 0u16),
                ),
                Err(e) => unicode::encode_utf16(s@).len() > N && e == (FixedUtf16Error::WrongCodeUnitCount {
                    expected: N,
                    found: (N + 1) as usize,
                }),
            },
    {
        let units = encode_str_utf16(s);
        if units.len() > N {
            return Err(FixedUtf16Error::WrongCodeUnitCount { expected: N, found: N + 1 });
        }
        let padded: [u16; N] = fill_then_copy(0u16, units.as_slice());
        let stored = store_little(padded.as_slice());
        let arr: [LittleEndian<u16>; N] = array_from_slice(LittleEndian::from_bits(0u16), stored.as_slice());
        assert(padded@ =~= pad_to(units@, N as nat, 0u16));
        Ok(FixedUtf16LeNullPadded(FixedUtf16CodeUnitsEndian { units: arr }))
    }
}

impl<const N: usize> vstd::std_specs::convert::TryFromSpecImpl<&str> for FixedUtf16LeNullPadded<N> {
    /// The contract is the `ensures` of `try_from` itself.
    open spec fn obeys_try_from_spec() -> bool {
        false
    }

    open spec fn try_from_spec(s: &str) -> Result<FixedUtf16LeNullPadded<N>, FixedUtf16Error> {
        vstd::pervasive::arbitrary()
    }
}

impl<const N: usize> TryFrom<&str> for FixedUtf16LeSpacePadded<N> {
    type Error = FixedUtf16Error;

    /// Stores the UTF-16 code units of `s`, followed by space units up to `N`, each
    /// converted to the stored byte order.
    fn try_from(s: &str) -> (r: Result<FixedUtf16LeSpacePadded<N>, FixedUtf16Error>)
        ensures
            match r {
                Ok(f) => unicode::encode_utf16(s@).len() <= N && f.0@ == little_stored(
                    pad_to(unicode::encode_utf16(s@), N as nat, 0x20u16),
                ),
                Err(e) => unicode::encode_utf16(s@).len() > N && e == (FixedUtf16Error::WrongCodeUnitCount {
                    expected: N,
                    found: (N + 1) as usize,
                }),
            },
    {
        let units = encode_str_utf16(s);
        if units.len() > N {
            return Err(FixedUtf16Error::WrongCodeUnitCount { expected: N, found: N + 1 });
        }
        let padded: [u16; N] = fill_then_copy(0x20u16, units.as_slice());
        let stored = store_little(padded.as_slice());
        let arr: [LittleEndian<u16>; N] = array_from_slice(LittleEndian::from_bits(0u16), stored.as_slice());
        assert(padded@ =~= pad_to(units@, N as nat, 0x20u16));
        Ok(FixedUtf16LeSpacePadded(FixedUtf16CodeUnitsEndian { units: arr }))
    }
}

impl<const N: usize> vstd::std_specs::convert::TryFromSpecImpl<&str> for FixedUtf16LeSpacePadded<N> {
    /// The contract is the `ensures` of `try_from` itself.
    open spec fn obeys_try_from_spec() -> bool {
        false
    }

    open spec fn try_from_spec(s: &str) -> Result<FixedUtf16LeSpacePadded<N>, FixedUtf16Error> {
        vstd::pervasive::arbitrary()
    }
}

impl<const N: usize> TryFrom<String> for FixedUtf16LeNullPadded<N> {
    type Error = FixedUtf16Error;

    /// As for `&str`.
    fn try_from(s: String) -> (r: Result<FixedUtf16LeNullPadded<N>, FixedUtf16Error>)
        ensures
            match r {
                Ok(f) => unicode::encode_utf16(s@).len() <= N && f.0@ == little_stored(
                    pad_to(unicode::encode_utf16(s@), N as nat, 0u16),
                ),
                Err(e) => unicode::encode_utf16(s@).len() > N && e == (FixedUtf16Error::WrongCodeUnitCount {
                    expected: N,
                    found: (N + 1) as usize,
                }),
            },
    {
        FixedUtf16LeNullPadded::<N>::try_from(s.as_str())
    }
}

impl<const N: usize> vstd::std_specs::convert::TryFromSpecImpl<String> for FixedUtf16LeNullPadded<N> {
    /// The contract is the `ensures` of `try_from` itself.
    open spec fn obeys_try_from_spec() -> bool {
        false
    }

    open spec fn try_from_spec(s: String) -> Result<FixedUtf16LeNullPadded<N>, FixedUtf16Error> {
        vstd::pervasive::arbitrary()
    }
}

impl<const N: usize> TryFrom<String> for FixedUtf16LeSpacePadded<N> {
    type Error = FixedUtf16Error;

    /// As for `&str`.
    fn try_from(s: String) -> (r: Result<FixedUtf16LeSpacePadded<N>, FixedUtf16Error>)
        ensures
            match r {
                Ok(f) => unicode::encode_utf16(s@).len() <= N && f.0@ == little_stored(
                    pad_to(unicode::encode_utf16(s@), N as nat, 0x20u16),
                ),
                Err(e) => unicode::encode_utf16(s@).len() > N && e == (FixedUtf16Error::WrongCodeUnitCount {
                    expected: N,
                    found: (N + 1) as usize,
                }),
            },
    {
        FixedUtf16LeSpacePadded::<N>::try_from(s.as_str())
    }
}

impl<const N: usize> vstd::std_specs::convert::TryFromSpecImpl<String> for FixedUtf16LeSpacePadded<N> {
    /// The contract is the `ensures` of `try_from` itself.
    open spec fn obeys_try_from_spec() -> bool {
        false
    }

    open spec fn try_from_spec(s: String) -> Result<FixedUtf16LeSpacePadded<N>, FixedUtf16Error> {
        vstd::pervasive::arbitrary()
    }
}

impl<const N: usize> TryFrom<&FixedUtf16LePacked<N>> for String {
    type Error = FixedUtf16Error;

    /// Decodes all `N` host-order code units.
    fn try_from(v: &FixedUtf16LePacked<N>) -> (r: Result<String, FixedUtf16Error>)
        ensures
            match r {
                Ok(s) => unicode::decode_utf16(little_natives(v.0@)) == Some(s@),
                Err(e) => e == FixedUtf16Error::InvalidUtf16 && unicode::decode_utf16(little_natives(v.0@)) is None,
            },
    {
        String::try_from(&v.0)
    }
}

impl<const N: usize> vstd::std_specs::convert::TryFromSpecImpl<&FixedUtf16LePacked<N>> for String {
    /// A `String` cannot be built in a specification, so the contract is the `ensures` of
    /// `try_from` itself.
    open spec fn obeys_try_from_spec() -> bool {
        false
    }

    open spec fn try_from_spec(v: &FixedUtf16LePacked<N>) -> Result<String, FixedUtf16Error> {
        vstd::pervasive::arbitrary()
    }
}

impl<const N: usize> TryFrom<&FixedUtf16LeNullPadded<N>> for String {
    type Error = FixedUtf16Error;

    /// Decodes the host-order code units before the first zero unit.
    fn try_from(v: &FixedUtf16LeNullPadded<N>) -> (r: Result<String, FixedUtf16Error>)
        ensures
            match r {
                Ok(s) => unicode::decode_utf16(before_first(little_natives(v.0@), 0u16)) == Some(s@),
                Err(e) => e == FixedUtf16Error::InvalidUtf16 && unicode::decode_utf16(
                    before_first(little_natives(v.0@), 0u16),
                ) is None,
            },
    {
        let units = v.0.as_units();
        let ghost n = little_natives(v.0@);
        let mut end: usize = 0;
        while end < N && units[end].to_native() != 0
            invariant
                end <= N,
                units@ == v.0@,
                units@.len() == N,
                n == little_natives(v.0@),
                forall|j: int| 0 <= j < end ==> n[j] != 0u16,
            decreases N - end,
        {
            end = end + 1;
        }
        proof {
            lemma_before_first(n, 0u16, end as int);
        }
        let prefix = vstd::slice::slice_subrange(units.as_slice(), 0, end);
        assert(little_natives(prefix@) =~= n.take(end as int));
        match String::try_from(Utf16StrLE::from(prefix)) {
            Ok(s) => Ok(s),
            Err(_) => Err(FixedUtf16Error::InvalidUtf16),
        }
    }
}

impl<const N: usize> vstd::std_specs::convert::TryFromSpecImpl<&FixedUtf16LeNullPadded<N>> for String {
    /// A `String` cannot be built in a specification, so the contract is the `ensures` of
    /// `try_from` itself.
    open spec fn obeys_try_from_spec() -> bool {
        false
    }

    open spec fn try_from_spec(v: &FixedUtf16LeNullPadded<N>) -> Result<String, FixedUtf16Error> {
        vstd::pervasive::arbitrary()
    }
}

impl<const N: usize> TryFrom<&FixedUtf16LeSpacePadded<N>> for String {
    type Error = FixedUtf16Error;

    /// Decodes the host-order code units left after dropping trailing spaces.
    fn try_from(v: &FixedUtf16LeSpacePadded<N>) -> (r: Result<String, FixedUtf16Error>)
        ensures
            match r {
                Ok(s) => unicode::decode_utf16(trim_end(little_natives(v.0@), 0x20u16)) == Some(s@),
                Err(e) => e == FixedUtf16Error::InvalidUtf16 && unicode::decode_utf16(
                    trim_end(little_natives(v.0@), 0x20u16),
                ) is None,
            },
    {
        let units = v.0.as_units();
        let ghost n = little_natives(v.0@);
        let mut end: usize = N;
        assert(n.take(N as int) =~= n);
        while end > 0 && units[end - 1].to_native() == 0x20
            invariant
                end <= N,
                units@ == v.0@,
                units@.len() == N,
                n == little_natives(v.0@),
                trim_end(n, 0x20u16) == trim_end(n.take(end as int), 0x20u16),
            decreases end,
        {
            proof {
                lemma_trim_end_step(n, 0x20u16, end as int);
            }
            end = end - 1;
        }
        proof {
            lemma_trim_end_done(n.take(end as int), 0x20u16);
        }
        let prefix = vstd::slice::slice_subrange(units.as_slice(), 0, end);
        assert(little_natives(prefix@) =~= n.take(end as int));
        match String::try_from(Utf16StrLE::from(prefix)) {
            Ok(s) => Ok(s),
            Err(_) => Err(FixedUtf16Error::InvalidUtf16),
        }
    }
}

impl<const N: usize> vstd::std_specs::convert::TryFromSpecImpl<&FixedUtf16LeSpacePadded<N>> for String {
    /// A `String` cannot be built in a specification, so the contract is the `ensures` of
    /// `try_from` itself.
    open spec fn obeys_try_from_spec() -> bool {
        false
    }

    open spec fn try_from_spec(v: &FixedUtf16LeSpacePadded<N>) -> Result<String, FixedUtf16Error> {
        vstd::pervasive::arbitrary()
    }
}

/// Fixed big-endian UTF-16 code units read as a packed string: decoding uses all `N` units.
#[derive(Clone, Copy, Debug, Eq, PartialEq, Hash, PartialOrd)]
pub struct FixedUtf16BePacked<const N: usize>(pub FixedUtf16BeCodeUnits<N>);

/// Fixed big-endian UTF-16 code units read as a NUL-padded string: decoding stops at the
/// first zero code unit.
#[derive(Clone, Copy, Debug, Eq, PartialEq, Hash, PartialOrd)]
pub struct FixedUtf16BeNullPadded<const N: usize>(pub FixedUtf16BeCodeUnits<N>);

/// Fixed big-endian UTF-16 code units read as a space-padded string: decoding drops
/// trailing space code units.
#[derive(Clone, Copy, Debug, Eq, PartialEq, Hash, PartialOrd)]
pub struct FixedUtf16BeSpacePadded<const N: usize>(pub FixedUtf16BeCodeUnits<N>);

impl<const N: usize> From<FixedUtf16BeCodeUnits<N>> for FixedUtf16BePacked<N> {
    fn from(v: FixedUtf16BeCodeUnits<N>) -> (r: Self) {
        FixedUtf16BePacked(v)
    }
}

impl<const N: usize> vstd::std_specs::convert::FromSpecImpl<FixedUtf16BeCodeUnits<N>> for FixedUtf16BePacked<N> {
    open spec fn obeys_from_spec() -> bool {
        true
    }

    open spec fn from_spec(v: FixedUtf16BeCodeUnits<N>) -> FixedUtf16BePacked<N> {
        FixedUtf16BePacked(v)
    }
}

impl<const N: usize> From<FixedUtf16BePacked<N>> for FixedUtf16BeCodeUnits<N> {
    fn from(v: FixedUtf16BePacked<N>) -> (r: Self) {
        v.0
    }
}

impl<const N: usize> vstd::std_specs::convert::FromSpecImpl<FixedUtf16BePacked<N>> for FixedUtf16BeCodeUnits<N> {
    open spec fn obeys_from_spec() -> bool {
        true
    }

    open spec fn from_spec(v: FixedUtf16BePacked<N>) -> FixedUtf16BeCodeUnits<N> {
        v.0
    }
}

impl<const N: usize> From<FixedUtf16BeCodeUnits<N>> for FixedUtf16BeNullPadded<N> {
    fn from(v: FixedUtf16BeCodeUnits<N>) -> (r: Self) {
        FixedUtf16BeNullPadded(v)
    }
}

impl<const N: usize> vstd::std_specs::convert::FromSpecImpl<FixedUtf16BeCodeUnits<N>> for FixedUtf16BeNullPadded<N> {
    open spec fn obeys_from_spec() -> bool {
        true
    }

    open spec fn from_spec(v: FixedUtf16BeCodeUnits<N>) -> FixedUtf16BeNullPadded<N> {
        FixedUtf16BeNullPadded(v)
    }
}

impl<const N: usize> From<FixedUtf16BeNullPadded<N>> for FixedUtf16BeCodeUnits<N> {
    fn from(v: FixedUtf16BeNullPadded<N>) -> (r: Self) {
        v.0
    }
}

impl<const N: usize> vstd::std_specs::convert::FromSpecImpl<FixedUtf16BeNullPadded<N>> for FixedUtf16BeCodeUnits<N> {
    open spec fn obeys_from_spec() -> bool {
        true
    }

    open spec fn from_spec(v: FixedUtf16BeNullPadded<N>) -> FixedUtf16BeCodeUnits<N> {
        v.0
    }
}

impl<const N: usize> From<FixedUtf16BeCodeUnits<N>> for FixedUtf16BeSpacePadded<N> {
    fn from(v: FixedUtf16BeCodeUnits<N>) -> (r: Self) {
        FixedUtf16BeSpacePadded(v)
    }
}

impl<const N: usize> vstd::std_specs::convert::FromSpecImpl<FixedUtf16BeCodeUnits<N>> for FixedUtf16BeSpacePadded<N> {
    open spec fn obeys_from_spec() -> bool {
        true
    }

    open spec fn from_spec(v: FixedUtf16BeCodeUnits<N>) -> FixedUtf16BeSpacePadded<N> {
        FixedUtf16BeSpacePadded(v)
    }
}

impl<const N: usize> From<FixedUtf16BeSpacePadded<N>> for FixedUtf16BeCodeUnits<N> {
    fn from(v: FixedUtf16BeSpacePadded<N>) -> (r: Self) {
        v.0
    }
}

impl<const N: usize> vstd::std_specs::convert::FromSpecImpl<FixedUtf16BeSpacePadded<N>> for FixedUtf16BeCodeUnits<N> {
    open spec fn obeys_from_spec() -> bool {
        true
    }

    open spec fn from_spec(v: FixedUtf16BeSpacePadded<N>) -> FixedUtf16BeCodeUnits<N> {
        v.0
    }
}

impl<const N: usize> TryFrom<&str> for FixedUtf16BePacked<N> {
    type Error = FixedUtf16Error;

    /// Stores the UTF-16 code units of `s`, which must number exactly `N`, each converted to
    /// the stored byte order.
    fn try_from(s: &str) -> (r: Result<FixedUtf16BePacked<N>, FixedUtf16Error>)
        ensures
            match r {
                Ok(f) => unicode::encode_utf16(s@).len() == N && f.0@ == big_stored(unicode::encode_utf16(s@)),
                Err(e) => unicode::encode_utf16(s@).len() != N && e == unit_count_error16(
                    N,
                    unicode::encode_utf16(s@).len(),
                ),
            },
    {
        match FixedUtf16BeCodeUnits::<N>::try_from(s) {
            Ok(v) => Ok(FixedUtf16BePacked(v)),
            Err(e) => Err(e),
        }
    }
}

impl<const N: usize> vstd::std_specs::convert::TryFromSpecImpl<&str> for FixedUtf16BePacked<N> {
    /// The contract is the `ensures` of `try_from` itself.
    open spec fn obeys_try_from_spec() -> bool {
        false
    }

    open spec fn try_from_spec(s: &str) -> Result<FixedUtf16BePacked<N>, FixedUtf16Error> {
        vstd::pervasive::arbitrary()
    }
}

impl<const N: usize> TryFrom<String> for FixedUtf16BePacked<N> {
    type Error = FixedUtf16Error;

    /// As for `&str`.
    fn try_from(s: String) -> (r: Result<FixedUtf16BePacked<N>, FixedUtf16Error>)
        ensures
            match r {
                Ok(f) => unicode::encode_utf16(s@).len() == N && f.0@ == big_stored(unicode::encode_utf16(s@)),
                Err(e) => unicode::encode_utf16(s@).len() != N && e == unit_count_error16(
                    N,
                    unicode::encode_utf16(s@).len(),
                ),
            },
    {
        match FixedUtf16BeCodeUnits::<N>::try_from(s) {
            Ok(v) => Ok(FixedUtf16BePacked(v)),
            Err(e) => Err(e),
        }
    }
}

impl<const N: usize> vstd::std_specs::convert::TryFromSpecImpl<String> for FixedUtf16BePacked<N> {
    /// The contract is the `ensures` of `try_from` itself.
    open spec fn obeys_try_from_spec() -> bool {
        false
    }

    open spec fn try_from_spec(s: String) -> Result<FixedUtf16BePacked<N>, FixedUtf16Error> {
        vstd::pervasive::arbitrary()
    }
}

impl<const N: usize> TryFrom<&str> for FixedUtf16BeNullPadded<N> {
    type Error = FixedUtf16Error;

    /// Stores the UTF-16 code units of `s`, followed by zero units up to `N`, each converted
    /// to the stored byte order.
    fn try_from(s: &str) -> (r: Result<FixedUtf16BeNullPadded<N>, FixedUtf16Error>)
        ensures
            match r {
                Ok(f) => unicode::encode_utf16(s@).len() <= N && f.0@ == big_stored(
                    pad_to(unicode::encode_utf16(s@), N as nat, 0u16),
                ),
                Err(e) => unicode::encode_utf16(s@).len() > N && e == (FixedUtf16Error::WrongCodeUnitCount {
                    expected: N,
                    found: (N + 1) as usize,
                }),
            },
    {
        let units = encode_str_utf16(s);
        if units.len() > N {
            return Err(FixedUtf16Error::WrongCodeUnitCount { expected: N, found: N + 1 });
        }
        let padded: [u16; N] = fill_then_copy(0u16, units.as_slice());
        let stored = store_big(padded.as_slice());
        let arr: [BigEndian<u16>; N] = array_from_slice(BigEndian::from_bits(0u16), stored.as_slice());
        assert(padded@ =~= pad_to(units@, N as nat, 0u16));
        Ok(FixedUtf16BeNullPadded(FixedUtf16CodeUnitsEndian { units: arr }))
    }
}

impl<const N: usize> vstd::std_specs::convert::TryFromSpecImpl<&str> for FixedUtf16BeNullPadded<N> {
    /// The contract is the `ensures` of `try_from` itself.
    open spec fn obeys_try_from_spec() -> bool {
        false
    }

    open spec fn try_from_spec(s: &str) -> Result<FixedUtf16BeNullPadded<N>, FixedUtf16Error> {
        vstd::pervasive::arbitrary()
    }
}

impl<const N: usize> TryFrom<&str> for FixedUtf16BeSpacePadded<N> {
    type Error = FixedUtf16Error;

    /// Stores the UTF-16 code units of `s`, followed by space units up to `N`, each
    /// converted to the stored byte order.
    fn try_from(s: &str) -> (r: Result<FixedUtf16BeSpacePadded<N>, FixedUtf16Error>)
        ensures
            match r {
                Ok(f) => unicode::encode_utf16(s@).len() <= N && f.0@ == big_stored(
                    pad_to(unicode::encode_utf16(s@), N as nat, 0x20u16),
                ),
                Err(e) => unicode::encode_utf16(s@).len() > N && e == (FixedUtf16Error::WrongCodeUnitCount {
                    expected: N,
                    found: (N + 1) as usize,
                }),
            },
    {
        let units = encode_str_utf16(s);
        if units.len() > N {
            return Err(FixedUtf16Error::WrongCodeUnitCount { expected: N, found: N + 1 });
        }
        let padded: [u16; N] = fill_then_copy(0x20u16, units.as_slice());
        let stored = store_big(padded.as_slice());
        let arr: [BigEndian<u16>; N] = array_from_slice(BigEndian::from_bits(0u16), stored.as_slice());
        assert(padded@ =~= pad_to(units@, N as nat, 0x20u16));
        Ok(FixedUtf16BeSpacePadded(FixedUtf16CodeUnitsEndian { units: arr }))
    }
}

impl<const N: usize> vstd::std_specs::convert::TryFromSpecImpl<&str> for FixedUtf16BeSpacePadded<N> {
    /// The contract is the `ensures` of `try_from` itself.
    open spec fn obeys_try_from_spec() -> bool {
        false
    }

    open spec fn try_from_spec(s: &str) -> Result<FixedUtf16BeSpacePadded<N>, FixedUtf16Error> {
        vstd::pervasive::arbitrary()
    }
}

impl<const N: usize> TryFrom<&FixedUtf16BePacked<N>> for String {
    type Error = FixedUtf16Error;

    /// Decodes all `N` host-order code units.
    fn try_from(v: &FixedUtf16BePacked<N>) -> (r: Result<String, FixedUtf16Error>)
        ensures
            match r {
                Ok(s) => unicode::decode_utf16(big_natives(v.0@)) == Some(s@),
                Err(e) => e == FixedUtf16Error::InvalidUtf16 && unicode::decode_utf16(big_natives(v.0@)) is None,
            },
    {
        String::try_from(&v.0)
    }
}

impl<const N: usize> vstd::std_specs::convert::TryFromSpecImpl<&FixedUtf16BePacked<N>> for String {
    /// A `String` cannot be built in a specification, so the contract is the `ensures` of
    /// `try_from` itself.
    open spec fn obeys_try_from_spec() -> bool {
        false
    }

    open spec fn try_from_spec(v: &FixedUtf16BePacked<N>) -> Result<String, FixedUtf16Error> {
        vstd::pervasive::arbitrary()
    }
}

impl<const N: usize> TryFrom<&FixedUtf16BeNullPadded<N>> for String {
    type Error = FixedUtf16Error;

    /// Decodes the host-order code units before the first zero unit.
    fn try_from(v: &FixedUtf16BeNullPadded<N>) -> (r: Result<String, FixedUtf16Error>)
        ensures
            match r {
                Ok(s) => unicode::decode_utf16(before_first(big_natives(v.0@), 0u16)) == Some(s@),
                Err(e) => e == FixedUtf16Error::InvalidUtf16 && unicode::decode_utf16(
                    before_first(big_natives(v.0@), 0u16),
                ) is None,
            },
    {
        let units = v.0.as_units();
        let ghost n = big_natives(v.0@);
        let mut end: usize = 0;
        while end < N && units[end].to_native() != 0
            invariant
                end <= N,
                units@ == v.0@,
                units@.len() == N,
                n == big_natives(v.0@),
                forall|j: int| 0 <= j < end ==> n[j] != 0u16,
            decreases N - end,
        {
            end = end + 1;
        }
        proof {
            lemma_before_first(n, 0u16, end as int);
        }
        let prefix = vstd::slice::slice_subrange(units.as_slice(), 0, end);
        assert(big_natives(prefix@) =~= n.take(end as int));
        match String::try_from(Utf16StrBE::from(prefix)) {
            Ok(s) => Ok(s),
            Err(_) => Err(FixedUtf16Error::InvalidUtf16),
        }
    }
}

impl<const N: usize> vstd::std_specs::convert::TryFromSpecImpl<&FixedUtf16BeNullPadded<N>> for String {
    /// A `String` cannot be built in a specification, so the contract is the `ensures` of
    /// `try_from` itself.
    open spec fn obeys_try_from_spec() -> bool {
        false
    }

    open spec fn try_from_spec(v: &FixedUtf16BeNullPadded<N>) -> Result<String, FixedUtf16Error> {
        vstd::pervasive::arbitrary()
    }
}

impl<const N: usize> TryFrom<&FixedUtf16BeSpacePadded<N>> for String {
    type Error = FixedUtf16Error;

    /// Decodes the host-order code units left after dropping trailing spaces.
    fn try_from(v: &FixedUtf16BeSpacePadded<N>) -> (r: Result<String, FixedUtf16Error>)
        ensures
            match r {
                Ok(s) => unicode::decode_utf16(trim_end(big_natives(v.0@), 0x20u16)) == Some(s@),
                Err(e) => e == FixedUtf16Error::InvalidUtf16 && unicode::decode_utf16(
                    trim_end(big_natives(v.0@), 0x20u16),
                ) is None,
            },
    {
        let units = v.0.as_units();
        let ghost n = big_natives(v.0@);
        let mut end: usize = N;
        assert(n.take(N as int) =~= n);
        while end > 0 && units[end - 1].to_native() == 0x20
            invariant
                end <= N,
                units@ == v.0@,
                units@.len() == N,
                n == big_natives(v.0@),
                trim_end(n, 0x20u16) == trim_end(n.take(end as int), 0x20u16),
            decreases end,
        {
            proof {
                lemma_trim_end_step(n, 0x20u16, end as int);
            }
            end = end - 1;
        }
        proof {
            lemma_trim_end_done(n.take(end as int), 0x20u16);
        }
        let prefix = vstd::slice::slice_subrange(units.as_slice(), 0, end);
        assert(big_natives(prefix@) =~= n.take(end as int));
        match String::try_from(Utf16StrBE::from(prefix)) {
            Ok(s) => Ok(s),
            Err(_) => Err(FixedUtf16Error::InvalidUtf16),
        }
    }
}

impl<const N: usize> vstd::std_specs::convert::TryFromSpecImpl<&FixedUtf16BeSpacePadded<N>> for String {
    /// A `String` cannot be built in a specification, so the contract is the `ensures` of
    /// `try_from` itself.
    open spec fn obeys_try_from_spec() -> bool {
        false
    }

    open spec fn try_from_spec(v: &FixedUtf16BeSpacePadded<N>) -> Result<String, FixedUtf16Error> {
        vstd::pervasive::arbitrary()
    }
}

/// Little-endian code units whose host-order values are put in big-endian form, kept as raw bits.
pub open spec fn le_units_in_be_form16(u: Seq<LittleEndian<u16>>) -> Seq<LittleEndian<u16>> {
    u.map_values(|x: LittleEndian<u16>| LittleEndian(spec_u16_to_be(x.spec_native())))
}

/// Big-endian code units whose host-order values are put in little-endian form, kept as raw bits.
pub open spec fn be_units_in_le_form16(u: Seq<BigEndian<u16>>) -> Seq<BigEndian<u16>> {
    u.map_values(|x: BigEndian<u16>| BigEndian(spec_u16_to_le(x.spec_native())))
}

/// Converting a host-order value to either byte order twice gives it back.
proof fn lemma_double_conversion16(b: u16)
    ensures
        spec_u16_to_be(spec_u16_to_le(spec_u16_to_be(spec_u16_to_le(b)))) == b,
        spec_u16_to_le(spec_u16_to_be(spec_u16_to_le(spec_u16_to_be(b)))) == b,
        spec_u16_to_le(spec_u16_to_le(b)) == b,
        spec_u16_to_be(spec_u16_to_be(b)) == b,
{
    lemma_swap16_involution(b);
}

/// Puts the host-order value of each little-endian unit in big-endian form, as raw bits.
fn le_units_to_be_form16<const N: usize>(v: &FixedUtf16LeCodeUnits<N>) -> (r: FixedUtf16LeCodeUnits<N>)
    ensures
        r == (FixedUtf16CodeUnitsEndian { units: array_of(v.units, le_units_in_be_form16(v@)) }),
{
    let mut units = v.units;
    let mut i: usize = 0;
    while i < N
        invariant
            i <= N,
            units@.len() == N,
            v.units@.len() == N,
            forall|j: int| 0 <= j < i ==> units@[j] == le_units_in_be_form16(v@)[j],
        decreases N - i,
    {
        let native = v.units[i].to_native();
        units[i] = LittleEndian::from_bits(native.to_big_endian());
        i = i + 1;
    }
    proof {
        lemma_array_of(v.units, le_units_in_be_form16(v@));
        assert(units@ =~= le_units_in_be_form16(v@));
        lemma_array_eq(units, array_of(v.units, le_units_in_be_form16(v@)));
    }
    FixedUtf16CodeUnitsEndian { units }
}

/// Puts the host-order value of each big-endian unit in little-endian form, as raw bits.
fn be_units_to_le_form16<const N: usize>(v: &FixedUtf16BeCodeUnits<N>) -> (r: FixedUtf16BeCodeUnits<N>)
    ensures
        r == (FixedUtf16CodeUnitsEndian { units: array_of(v.units, be_units_in_le_form16(v@)) }),
{
    let mut units = v.units;
    let mut i: usize = 0;
    while i < N
        invariant
            i <= N,
            units@.len() == N,
            v.units@.len() == N,
            forall|j: int| 0 <= j < i ==> units@[j] == be_units_in_le_form16(v@)[j],
        decreases N - i,
    {
        let native = v.units[i].to_native();
        units[i] = BigEndian::from_bits(native.to_little_endian());
        i = i + 1;
    }
    proof {
        lemma_array_of(v.units, be_units_in_le_form16(v@));
        assert(units@ =~= be_units_in_le_form16(v@));
        lemma_array_eq(units, array_of(v.units, be_units_in_le_form16(v@)));
    }
    FixedUtf16CodeUnitsEndian { units }
}

impl<const N: usize> SpecificEndian<FixedUtf16LeCodeUnits<N>> for FixedUtf16LeCodeUnits<N> {
    /// Each unit's host-order value in big-endian form, kept as raw little-endian bits.
    closed spec fn spec_to_big_endian(&self) -> FixedUtf16LeCodeUnits<N> {
        FixedUtf16CodeUnitsEndian { units: array_of(self.units, le_units_in_be_form16(self@)) }
    }

    closed spec fn spec_to_little_endian(&self) -> FixedUtf16LeCodeUnits<N> {
        *self
    }

    /// Each unit's host-order value read as big-endian, kept as raw little-endian bits.
    closed spec fn spec_from_big_endian(&self) -> FixedUtf16LeCodeUnits<N> {
        FixedUtf16CodeUnitsEndian { units: array_of(self.units, le_units_in_be_form16(self@)) }
    }

    closed spec fn spec_from_little_endian(&self) -> FixedUtf16LeCodeUnits<N> {
        *self
    }

    fn to_big_endian(&self) -> (r: FixedUtf16LeCodeUnits<N>) {
        le_units_to_be_form16(self)
    }

    fn to_little_endian(&self) -> (r: FixedUtf16LeCodeUnits<N>) {
        *self
    }

    fn from_big_endian(&self) -> (r: FixedUtf16LeCodeUnits<N>) {
        le_units_to_be_form16(self)
    }

    fn from_little_endian(&self) -> (r: FixedUtf16LeCodeUnits<N>) {
        *self
    }
}

impl<const N: usize> SpecificEndian<FixedUtf16BeCodeUnits<N>> for FixedUtf16BeCodeUnits<N> {
    closed spec fn spec_to_big_endian(&self) -> FixedUtf16BeCodeUnits<N> {
        *self
    }

    /// Each unit's host-order value in little-endian form, kept as raw big-endian bits.
    closed spec fn spec_to_little_endian(&self) -> FixedUtf16BeCodeUnits<N> {
        FixedUtf16CodeUnitsEndian { units: array_of(self.units, be_units_in_le_form16(self@)) }
    }

    closed spec fn spec_from_big_endian(&self) -> FixedUtf16BeCodeUnits<N> {
        *self
    }

    /// Each unit's host-order value read as little-endian, kept as raw big-endian bits.
    closed spec fn spec_from_little_endian(&self) -> FixedUtf16BeCodeUnits<N> {
        FixedUtf16CodeUnitsEndian { units: array_of(self.units, be_units_in_le_form16(self@)) }
    }

    fn to_big_endian(&self) -> (r: FixedUtf16BeCodeUnits<N>) {
        *self
    }

    fn to_little_endian(&self) -> (r: FixedUtf16BeCodeUnits<N>) {
        be_units_to_le_form16(self)
    }

    fn from_big_endian(&self) -> (r: FixedUtf16BeCodeUnits<N>) {
        *self
    }

    fn from_little_endian(&self) -> (r: FixedUtf16BeCodeUnits<N>) {
        be_units_to_le_form16(self)
    }
}

/// Fixed code units stored through `BigEndian` or `LittleEndian` read back unchanged, in both
/// byte orders.
pub proof fn law_fixed_utf16_round_trip<const N: usize>(l: FixedUtf16LeCodeUnits<N>, b: FixedUtf16BeCodeUnits<N>)
    ensures
        round_trips(l),
        round_trips(b),
{
    let s1 = le_units_in_be_form16(l@);
    let once = FixedUtf16CodeUnitsEndian { units: array_of(l.units, s1) };
    lemma_array_of(l.units, s1);
    let s2 = le_units_in_be_form16(once@);
    lemma_array_of(once.units, s2);
    assert forall|j: int| 0 <= j < N implies s2[j] == l@[j] by {
        lemma_double_conversion16(l@[j].0);
    }
    assert(s2 =~= l@);
    lemma_array_eq(array_of(once.units, s2), l.units);
    let t1 = be_units_in_le_form16(b@);
    let bonce = FixedUtf16CodeUnitsEndian { units: array_of(b.units, t1) };
    lemma_array_of(b.units, t1);
    let t2 = be_units_in_le_form16(bonce@);
    lemma_array_of(bonce.units, t2);
    assert forall|j: int| 0 <= j < N implies t2[j] == b@[j] by {
        lemma_double_conversion16(b@[j].0);
    }
    assert(t2 =~= b@);
    lemma_array_eq(array_of(bonce.units, t2), b.units);
}

impl<const N: usize> SpecificEndianOwned for FixedUtf16LeCodeUnits<N> {
    type Big = FixedUtf16BeCodeUnits<N>;

    type Little = FixedUtf16LeCodeUnits<N>;

    /// `b` holds the host-order values of `self`, each stored in big-endian form.
    open spec fn spec_is_big_form(&self, b: FixedUtf16BeCodeUnits<N>) -> bool {
        b@ == big_stored(little_natives(self@))
    }

    open spec fn spec_is_little_form(&self, l: FixedUtf16LeCodeUnits<N>) -> bool {
        l@ == self@
    }

    fn to_big_endian(&self) -> (r: FixedUtf16BeCodeUnits<N>) {
        let natives = natives_of_little(self.units.as_slice());
        let stored = store_big(natives.as_slice());
        let units: [BigEndian<u16>; N] = array_from_slice(BigEndian::from_bits(0u16), stored.as_slice());
        FixedUtf16CodeUnitsEndian { units }
    }

    fn to_little_endian(&self) -> (r: FixedUtf16LeCodeUnits<N>) {
        *self
    }

    fn from_big_endian(&self) -> (r: FixedUtf16BeCodeUnits<N>) {
        SpecificEndianOwned::to_big_endian(self)
    }

    fn from_little_endian(&self) -> (r: FixedUtf16LeCodeUnits<N>) {
        *self
    }
}

impl<const N: usize> SpecificEndianOwned for FixedUtf16BeCodeUnits<N> {
    type Big = FixedUtf16BeCodeUnits<N>;

    type Little = FixedUtf16LeCodeUnits<N>;

    open spec fn spec_is_big_form(&self, b: FixedUtf16BeCodeUnits<N>) -> bool {
        b@ == self@
    }

    /// `l` holds the host-order values of `self`, each stored in little-endian form.
    open spec fn spec_is_little_form(&self, l: FixedUtf16LeCodeUnits<N>) -> bool {
        l@ == little_stored(big_natives(self@))
    }

    fn to_big_endian(&self) -> (r: FixedUtf16BeCodeUnits<N>) {
        *self
    }

    fn to_little_endian(&self) -> (r: FixedUtf16LeCodeUnits<N>) {
        let natives = natives_of_big(self.units.as_slice());
        let stored = store_little(natives.as_slice());
        let units: [LittleEndian<u16>; N] = array_from_slice(
            LittleEndian::from_bits(0u16),
            stored.as_slice(),
        );
        FixedUtf16CodeUnitsEndian { units }
    }

    fn from_big_endian(&self) -> (r: FixedUtf16BeCodeUnits<N>) {
        *self
    }

    fn from_little_endian(&self) -> (r: FixedUtf16LeCodeUnits<N>) {
        SpecificEndianOwned::to_little_endian(self)
    }
}

impl<const N: usize> TryFrom<&str> for LittleEndian<FixedUtf16CodeUnits<N>> {
    type Error = FixedUtf16Error;

    /// Stores the UTF-16 code units of `s`, followed by zero units up to `N`, in a
    /// little-endian wrapper; only text of more than `N` code units is refused.
    fn try_from(s: &str) -> (r: Result<LittleEndian<FixedUtf16CodeUnits<N>>, FixedUtf16Error>)
        ensures
            match r {
                Ok(w) => unicode::encode_utf16(s@).len() <= N && w.spec_native()@ == little_stored(
                    pad_to(unicode::encode_utf16(s@), N as nat, 0u16),
                ),
                Err(e) => unicode::encode_utf16(s@).len() > N && e == (FixedUtf16Error::WrongCodeUnitCount {
                    expected: N,
                    found: (N + 1) as usize,
                }),
            },
    {
        match FixedUtf16LeNullPadded::<N>::try_from(s) {
            Ok(padded) => {
                let native = padded.0;
                proof {
                    law_fixed_utf16_round_trip(native, vstd::pervasive::arbitrary());
                }
                Ok(LittleEndian::from(native))
            },
            Err(e) => Err(e),
        }
    }
}

impl<const N: usize> vstd::std_specs::convert::TryFromSpecImpl<&str> for LittleEndian<FixedUtf16CodeUnits<N>> {
    /// The contract is the `ensures` of `try_from` itself.
    open spec fn obeys_try_from_spec() -> bool {
        false
    }

    open spec fn try_from_spec(s: &str) -> Result<LittleEndian<FixedUtf16CodeUnits<N>>, FixedUtf16Error> {
        vstd::pervasive::arbitrary()
    }
}

impl<const N: usize> TryFrom<String> for LittleEndian<FixedUtf16CodeUnits<N>> {
    type Error = FixedUtf16Error;

    /// Stores the UTF-16 code units of `s`, followed by zero units up to `N`, in a
    /// little-endian wrapper; only text of more than `N` code units is refused.
    fn try_from(s: String) -> (r: Result<LittleEndian<FixedUtf16CodeUnits<N>>, FixedUtf16Error>)
        ensures
            match r {
                Ok(w) => unicode::encode_utf16(s@).len() <= N && w.spec_native()@ == little_stored(
                    pad_to(unicode::encode_utf16(s@), N as nat, 0u16),
                ),
                Err(e) => unicode::encode_utf16(s@).len() > N && e == (FixedUtf16Error::WrongCodeUnitCount {
                    expected: N,
                    found: (N + 1) as usize,
                }),
            },
    {
        LittleEndian::<FixedUtf16CodeUnits<N>>::try_from(s.as_str())
    }
}

impl<const N: usize> vstd::std_specs::convert::TryFromSpecImpl<String> for LittleEndian<FixedUtf16CodeUnits<N>> {
    /// The contract is the `ensures` of `try_from` itself.
    open spec fn obeys_try_from_spec() -> bool {
        false
    }

    open spec fn try_from_spec(s: String) -> Result<LittleEndian<FixedUtf16CodeUnits<N>>, FixedUtf16Error> {
        vstd::pervasive::arbitrary()
    }
}

impl<const N: usize> TryFrom<&str> for BigEndian<FixedUtf16CodeUnits<N>> {
    type Error = FixedUtf16Error;

    /// Stores the UTF-16 code units of `s`, followed by zero units up to `N`, in a
    /// big-endian wrapper; only text of more than `N` code units is refused.
    fn try_from(s: &str) -> (r: Result<BigEndian<FixedUtf16CodeUnits<N>>, FixedUtf16Error>)
        ensures
            match r {
                Ok(w) => unicode::encode_utf16(s@).len() <= N && w.spec_native()@ == little_stored(
                    pad_to(unicode::encode_utf16(s@), N as nat, 0u16),
                ),
                Err(e) => unicode::encode_utf16(s@).len() > N && e == (FixedUtf16Error::WrongCodeUnitCount {
                    expected: N,
                    found: (N + 1) as usize,
                }),
            },
    {
        match FixedUtf16LeNullPadded::<N>::try_from(s) {
            Ok(padded) => {
                let native = padded.0;
                proof {
                    law_fixed_utf16_round_trip(native, vstd::pervasive::arbitrary());
                }
                Ok(BigEndian::from(native))
            },
            Err(e) => Err(e),
        }
    }
}

impl<const N: usize> vstd::std_specs::convert::TryFromSpecImpl<&str> for BigEndian<FixedUtf16CodeUnits<N>> {
    /// The contract is the `ensures` of `try_from` itself.
    open spec fn obeys_try_from_spec() -> bool {
        false
    }

    open spec fn try_from_spec(s: &str) -> Result<BigEndian<FixedUtf16CodeUnits<N>>, FixedUtf16Error> {
        vstd::pervasive::arbitrary()
    }
}

impl<const N: usize> TryFrom<String> for BigEndian<FixedUtf16CodeUnits<N>> {
    type Error = FixedUtf16Error;

    /// Stores the UTF-16 code units of `s`, followed by zero units up to `N`, in a
    /// big-endian wrapper; only text of more than `N` code units is refused.
    fn try_from(s: String) -> (r: Result<BigEndian<FixedUtf16CodeUnits<N>>, FixedUtf16Error>)
        ensures
            match r {
                Ok(w) => unicode::encode_utf16(s@).len() <= N && w.spec_native()@ == little_stored(
                    pad_to(unicode::encode_utf16(s@), N as nat, 0u16),
                ),
                Err(e) => unicode::encode_utf16(s@).len() > N && e == (FixedUtf16Error::WrongCodeUnitCount {
                    expected: N,
                    found: (N + 1) as usize,
                }),
            },
    {
        BigEndian::<FixedUtf16CodeUnits<N>>::try_from(s.as_str())
    }
}

impl<const N: usize> vstd::std_specs::convert::TryFromSpecImpl<String> for BigEndian<FixedUtf16CodeUnits<N>> {
    /// The contract is the `ensures` of `try_from` itself.
    open spec fn obeys_try_from_spec() -> bool {
        false
    }

    open spec fn try_from_spec(s: String) -> Result<BigEndian<FixedUtf16CodeUnits<N>>, FixedUtf16Error> {
        vstd::pervasive::arbitrary()
    }
}

/// Host-order values, stored and read back, are unchanged.
proof fn lemma_stored_natives16(x: Seq<u16>)
    ensures
        little_natives(little_stored(x)) == x,
        big_natives(big_stored(x)) == x,
{
    assert forall|j: int| 0 <= j < x.len() implies little_natives(little_stored(x))[j] == x[j]
        && big_natives(big_stored(x))[j] == x[j] by {
        lemma_double_conversion16(x[j]);
    }
    assert(little_natives(little_stored(x)) =~= x);
    assert(big_natives(big_stored(x)) =~= x);
}

/// Text of exactly `N` UTF-16 code units, stored in fixed code units (or a packed field) of
/// either byte order, decodes back unchanged on any hardware.
pub proof fn law_fixed_utf16_packed_round_trip(s: Seq<char>)
    ensures
        unicode::decode_utf16(little_natives(little_stored(unicode::encode_utf16(s)))) == Some(s),
        unicode::decode_utf16(big_natives(big_stored(unicode::encode_utf16(s)))) == Some(s),
{
    lemma_stored_natives16(unicode::encode_utf16(s));
    unicode::lemma_decode_encode_utf16(s);
}

/// Text without NUL characters whose UTF-16 code units fit in `n` decodes back unchanged from
/// a NUL-padded field of either byte order, on any hardware.
pub proof fn law_fixed_utf16_null_padded_round_trip(s: Seq<char>, n: nat)
    requires
        unicode::encode_utf16(s).len() <= n,
        !s.contains('\0'),
    ensures
        unicode::decode_utf16(
            before_first(little_natives(little_stored(pad_to(unicode::encode_utf16(s), n, 0u16))), 0u16),
        ) == Some(s),
        unicode::decode_utf16(
            before_first(big_natives(big_stored(pad_to(unicode::encode_utf16(s), n, 0u16))), 0u16),
        ) == Some(s),
{
    let u = unicode::encode_utf16(s);
    lemma_stored_natives16(pad_to(u, n, 0u16));
    unicode::lemma_utf16_no_zero(s);
    lemma_before_first_pad(u, n, 0u16);
    unicode::lemma_decode_encode_utf16(s);
}

/// Text whose UTF-16 code units fit in `n` and that does not end in a space decodes back
/// unchanged from a space-padded field of either byte order, on any hardware.
pub proof fn law_fixed_utf16_space_padded_round_trip(s: Seq<char>, n: nat)
    requires
        unicode::encode_utf16(s).len() <= n,
        s.len() == 0 || s.last() != ' ',
    ensures
        unicode::decode_utf16(
            trim_end(little_natives(little_stored(pad_to(unicode::encode_utf16(s), n, 0x20u16))), 0x20u16),
        ) == Some(s),
        unicode::decode_utf16(
            trim_end(big_natives(big_stored(pad_to(unicode::encode_utf16(s), n, 0x20u16))), 0x20u16),
        ) == Some(s),
{
    let u = unicode::encode_utf16(s);
    lemma_stored_natives16(pad_to(u, n, 0x20u16));
    lemma_trim_end_pad(u, n, 0x20u16);
    if s.len() > 0 {
        unicode::lemma_utf16_last_unit(s);
    } else {
        assert(u.len() == 0);
    }
    lemma_trim_end_done(u, 0x20u16);
    unicode::lemma_decode_encode_utf16(s);
}

/// The code units of `n` consecutive 2-byte groups of `data`, least significant byte first.
pub open spec fn le_wire_units16(data: Seq<u8>, n: nat) -> Seq<u16> {
    Seq::new(n, |i: int| le_value(data.subrange(2 * i, 2 * i + 2)) as u16)
}

/// The 2 bytes of each code unit in turn, least significant first.
pub open spec fn le_wire16(u: Seq<u16>) -> Seq<u8>
    decreases u.len(),
{
    if u.len() == 0 {
        Seq::empty()
    } else {
        le_wire16(u.drop_last()) + le_bytes(u.last() as nat, 2)
    }
}

/// The code units written by `le_wire16` are read back by `le_wire_units16`.
proof fn lemma_le_wire16(u: Seq<u16>, rest: Seq<u8>)
    ensures
        le_wire16(u).len() == 2 * u.len(),
        le_wire_units16(le_wire16(u) + rest, u.len()) == u,
    decreases u.len(),
{
    if u.len() > 0 {
        let m = u.drop_last();
        let last = le_bytes(u.last() as nat, 2);
        lemma_le_wire16(m, last + rest);
        lemma_le_bytes_len(u.last() as nat, 2);
        lemma_le_value_of_le_bytes(u.last() as nat, 2);
        reveal_with_fuel(pow256, 3);
        let d = le_wire16(u) + rest;
        assert(d =~= le_wire16(m) + (last + rest));
        assert(le_bytes(u.last() as nat, 2).len() == 2);
        assert(le_wire_units16(d, m.len()) == m);
        assert forall|i: int| 0 <= i < u.len() implies le_wire_units16(d, u.len())[i] == u[i] by {
            if i == m.len() {
                assert(d.subrange(2 * i, 2 * i + 2) =~= last);
                assert(pow256(2) == 0x10000);
                assert((u.last() as nat) % 0x10000 == u.last() as nat);
                assert(le_value(last) == u.last() as nat);
            } else {
                assert(le_wire_units16(d, u.len())[i] == le_wire_units16(d, m.len())[i]);
                assert(m[i] == u[i]);
            }
        }
        assert(le_wire_units16(d, u.len()) =~= u);
    }
}

impl<const N: usize> FromSlice for FixedUtf16LeCodeUnits<N> {
    /// The field's `2 * N` bytes fit in a slice's length.
    open spec fn spec_read_supported() -> bool {
        N * 2 <= usize::MAX
    }

    /// The first `2 * N` bytes, as code units in little-endian wire order, each stored in
    /// that byte order; `None` where there are fewer bytes.
    closed spec fn spec_read(data: Seq<u8>) -> Option<FixedUtf16LeCodeUnits<N>> {
        if data.len() < N * 2 {
            None
        } else {
            Some(
                FixedUtf16CodeUnitsEndian {
                    units: array_of(
                        vstd::pervasive::arbitrary(),
                        little_stored(le_wire_units16(data, N as nat)),
                    ),
                },
            )
        }
    }

    /// The host-order value of each code unit in turn, least significant byte first.
    closed spec fn spec_wire(&self) -> Option<Seq<u8>> {
        Some(le_wire16(little_natives(self@)))
    }

    fn read_from_slice(data: &[u8]) -> (r: Result<FixedUtf16LeCodeUnits<N>, &'static str>) {
        if data.len() < N * 2 {
            return Err("insufficient data");
        }
        let ghost want = little_stored(le_wire_units16(data@, N as nat));
        let zero = LittleEndian::from_bits(0u16);
        let mut out: [LittleEndian<u16>; N] = [zero; N];
        let mut i: usize = 0;
        while i < N
            invariant
                i <= N,
                N * 2 <= data@.len(),
                N * 2 <= usize::MAX,
                out@.len() == N,
                want == little_stored(le_wire_units16(data@, N as nat)),
                forall|j: int| 0 <= j < i ==> out@[j] == want[j],
            decreases N - i,
        {
            let base = 2 * i;
            let group = vstd::slice::slice_subrange(data, base, base + 2);
            let v = le_value_of(group, 2);
            proof {
                reveal_with_fuel(pow256, 3);
                assert(group@.take(2) =~= data@.subrange(base as int, base + 2));
                lemma_le_value_bound(group@.take(2).reverse());
                lemma_le_value_bound(group@.take(2));
            }
            let native = v as u16;
            out[i] = LittleEndian::from_bits(native.to_little_endian());
            i = i + 1;
        }
        proof {
            let base_arr: [LittleEndian<u16>; N] = vstd::pervasive::arbitrary();
            lemma_array_of(base_arr, want);
            assert(out@ =~= want);
            lemma_array_eq(out, array_of(base_arr, want));
        }
        Ok(FixedUtf16CodeUnitsEndian { units: out })
    }

    fn write_to_extend(&self, out: &mut Vec<u8>) -> (r: Result<(), &'static str>) {
        let ghost start = out@;
        let ghost n = little_natives(self@);
        let mut i: usize = 0;
        while i < N
            invariant
                i <= N,
                self.units@.len() == N,
                n == little_natives(self@),
                out@ == start + le_wire16(n.take(i as int)),
            decreases N - i,
        {
            let native = self.units[i].to_native();
            push_le_bytes(out, native as u128, 2);
            proof {
                assert(n.take(i + 1).drop_last() =~= n.take(i as int));
                assert(start + le_wire16(n.take(i + 1)) =~= start + le_wire16(n.take(i as int))
                    + le_bytes(native as nat, 2));
            }
            i = i + 1;
        }
        assert(n.take(N as int) =~= n);
        Ok(())
    }
}

/// What reading fixed little-endian UTF-16 code units from `data` gives, and what writing them
/// gives: the read fails exactly when `data` holds fewer than `2 * N` bytes; otherwise unit
/// `i` holds, in host order, the little-endian value of bytes `2 * i` to `2 * i + 2`, and
/// later bytes do not matter. The write gives the 2 bytes of each unit's host-order value in
/// turn, least significant first.
pub proof fn lemma_fixed_utf16_le_wire<const N: usize>(data: Seq<u8>, v: FixedUtf16LeCodeUnits<N>)
    ensures
        FixedUtf16LeCodeUnits::<N>::spec_read(data) is None <==> data.len() < N * 2,
        data.len() >= N * 2 ==> (FixedUtf16LeCodeUnits::<N>::spec_read(data) matches Some(f) && f@ == little_stored(
            le_wire_units16(data, N as nat),
        ) && little_natives(f@) == le_wire_units16(data, N as nat)),
        v.spec_wire() == Some(le_wire16(little_natives(v@))),
{
    if data.len() >= N * 2 {
        let u = le_wire_units16(data, N as nat);
        let base: [LittleEndian<u16>; N] = vstd::pervasive::arbitrary();
        lemma_array_of(base, little_stored(u));
        lemma_stored_natives16(u);
    }
}

impl<const N: usize> FromSlice for FixedUtf16LeNullPadded<N> {
    open spec fn spec_read_supported() -> bool {
        N * 2 <= usize::MAX
    }

    /// The code units that `FixedUtf16LeCodeUnits` reads.
    open spec fn spec_read(data: Seq<u8>) -> Option<FixedUtf16LeNullPadded<N>> {
        match FixedUtf16LeCodeUnits::<N>::spec_read(data) {
            Some(c) => Some(FixedUtf16LeNullPadded(c)),
            None => None,
        }
    }

    open spec fn spec_wire(&self) -> Option<Seq<u8>> {
        self.0.spec_wire()
    }

    fn read_from_slice(data: &[u8]) -> (r: Result<FixedUtf16LeNullPadded<N>, &'static str>) {
        match FixedUtf16LeCodeUnits::<N>::read_from_slice(data) {
            Ok(c) => Ok(FixedUtf16LeNullPadded(c)),
            Err(e) => Err(e),
        }
    }

    fn write_to_extend(&self, out: &mut Vec<u8>) -> (r: Result<(), &'static str>) {
        self.0.write_to_extend(out)
    }
}

impl<const N: usize> FromSlice for FixedUtf16LeSpacePadded<N> {
    open spec fn spec_read_supported() -> bool {
        N * 2 <= usize::MAX
    }

    /// The code units that `FixedUtf16LeCodeUnits` reads.
    open spec fn spec_read(data: Seq<u8>) -> Option<FixedUtf16LeSpacePadded<N>> {
        match FixedUtf16LeCodeUnits::<N>::spec_read(data) {
            Some(c) => Some(FixedUtf16LeSpacePadded(c)),
            None => None,
        }
    }

    open spec fn spec_wire(&self) -> Option<Seq<u8>> {
        self.0.spec_wire()
    }

    fn read_from_slice(data: &[u8]) -> (r: Result<FixedUtf16LeSpacePadded<N>, &'static str>) {
        match FixedUtf16LeCodeUnits::<N>::read_from_slice(data) {
            Ok(c) => Ok(FixedUtf16LeSpacePadded(c)),
            Err(e) => Err(e),
        }
    }

    fn write_to_extend(&self, out: &mut Vec<u8>) -> (r: Result<(), &'static str>) {
        self.0.write_to_extend(out)
    }
}

/// The code units of `n` consecutive 2-byte groups of `data`, most significant byte first.
pub open spec fn be_wire_units16(data: Seq<u8>, n: nat) -> Seq<u16> {
    Seq::new(n, |i: int| be_value(data.subrange(2 * i, 2 * i + 2)) as u16)
}

/// The 2 bytes of each code unit in turn, most significant first.
pub open spec fn be_wire16(u: Seq<u16>) -> Seq<u8>
    decreases u.len(),
{
    if u.len() == 0 {
        Seq::empty()
    } else {
        be_wire16(u.drop_last()) + be_bytes(u.last() as nat, 2)
    }
}

/// The code units written by `be_wire16` are read back by `be_wire_units16`.
proof fn lemma_be_wire16(u: Seq<u16>, rest: Seq<u8>)
    ensures
        be_wire16(u).len() == 2 * u.len(),
        be_wire_units16(be_wire16(u) + rest, u.len()) == u,
    decreases u.len(),
{
    if u.len() > 0 {
        let m = u.drop_last();
        let last = be_bytes(u.last() as nat, 2);
        lemma_be_wire16(m, last + rest);
        lemma_le_bytes_len(u.last() as nat, 2);
        lemma_be_value_of_be_bytes(u.last() as nat, 2);
        reveal_with_fuel(pow256, 3);
        let d = be_wire16(u) + rest;
        assert(d =~= be_wire16(m) + (last + rest));
        assert(be_bytes(u.last() as nat, 2).len() == 2);
        assert(be_wire_units16(d, m.len()) == m);
        assert forall|i: int| 0 <= i < u.len() implies be_wire_units16(d, u.len())[i] == u[i] by {
            if i == m.len() {
                assert(d.subrange(2 * i, 2 * i + 2) =~= last);
                assert(pow256(2) == 0x10000);
                assert((u.last() as nat) % 0x10000 == u.last() as nat);
                assert(be_value(last) == u.last() as nat);
            } else {
                assert(be_wire_units16(d, u.len())[i] == be_wire_units16(d, m.len())[i]);
                assert(m[i] == u[i]);
            }
        }
        assert(be_wire_units16(d, u.len()) =~= u);
    }
}

impl<const N: usize> FromSlice for FixedUtf16BeCodeUnits<N> {
    /// The field's `2 * N` bytes fit in a slice's length.
    open spec fn spec_read_supported() -> bool {
        N * 2 <= usize::MAX
    }

    /// The first `2 * N` bytes, as code units in big-endian wire order, each stored in
    /// that byte order; `None` where there are fewer bytes.
    closed spec fn spec_read(data: Seq<u8>) -> Option<FixedUtf16BeCodeUnits<N>> {
        if data.len() < N * 2 {
            None
        } else {
            Some(
                FixedUtf16CodeUnitsEndian {
                    units: array_of(
                        vstd::pervasive::arbitrary(),
                        big_stored(be_wire_units16(data, N as nat)),
                    ),
                },
            )
        }
    }

    /// The host-order value of each code unit in turn, most significant byte first.
    closed spec fn spec_wire(&self) -> Option<Seq<u8>> {
        Some(be_wire16(big_natives(self@)))
    }

    fn read_from_slice(data: &[u8]) -> (r: Result<FixedUtf16BeCodeUnits<N>, &'static str>) {
        if data.len() < N * 2 {
            return Err("insufficient data");
        }
        let ghost want = big_stored(be_wire_units16(data@, N as nat));
        let zero = BigEndian::from_bits(0u16);
        let mut out: [BigEndian<u16>; N] = [zero; N];
        let mut i: usize = 0;
        while i < N
            invariant
                i <= N,
                N * 2 <= data@.len(),
                N * 2 <= usize::MAX,
                out@.len() == N,
                want == big_stored(be_wire_units16(data@, N as nat)),
                forall|j: int| 0 <= j < i ==> out@[j] == want[j],
            decreases N - i,
        {
            let base = 2 * i;
            let group = vstd::slice::slice_subrange(data, base, base + 2);
            let v = be_value_of(group, 2);
            proof {
                reveal_with_fuel(pow256, 3);
                assert(group@.take(2) =~= data@.subrange(base as int, base + 2));
                lemma_le_value_bound(group@.take(2).reverse());
                lemma_le_value_bound(group@.take(2));
            }
            let native = v as u16;
            out[i] = BigEndian::from_bits(native.to_big_endian());
            i = i + 1;
        }
        proof {
            let base_arr: [BigEndian<u16>; N] = vstd::pervasive::arbitrary();
            lemma_array_of(base_arr, want);
            assert(out@ =~= want);
            lemma_array_eq(out, array_of(base_arr, want));
        }
        Ok(FixedUtf16CodeUnitsEndian { units: out })
    }

    fn write_to_extend(&self, out: &mut Vec<u8>) -> (r: Result<(), &'static str>) {
        let ghost start = out@;
        let ghost n = big_natives(self@);
        let mut i: usize = 0;
        while i < N
            invariant
                i <= N,
                self.units@.len() == N,
                n == big_natives(self@),
                out@ == start + be_wire16(n.take(i as int)),
            decreases N - i,
        {
            let native = self.units[i].to_native();
            push_be_bytes(out, native as u128, 2);
            proof {
                assert(n.take(i + 1).drop_last() =~= n.take(i as int));
                assert(start + be_wire16(n.take(i + 1)) =~= start + be_wire16(n.take(i as int))
                    + be_bytes(native as nat, 2));
            }
            i = i + 1;
        }
        assert(n.take(N as int) =~= n);
        Ok(())
    }
}

/// What reading fixed big-endian UTF-16 code units from `data` gives, and what writing them
/// gives: the read fails exactly when `data` holds fewer than `2 * N` bytes; otherwise unit
/// `i` holds, in host order, the big-endian value of bytes `2 * i` to `2 * i + 2`, and
/// later bytes do not matter. The write gives the 2 bytes of each unit's host-order value in
/// turn, most significant first.
pub proof fn lemma_fixed_utf16_be_wire<const N: usize>(data: Seq<u8>, v: FixedUtf16BeCodeUnits<N>)
    ensures
        FixedUtf16BeCodeUnits::<N>::spec_read(data) is None <==> data.len() < N * 2,
        data.len() >= N * 2 ==> (FixedUtf16BeCodeUnits::<N>::spec_read(data) matches Some(f) && f@ == big_stored(
            be_wire_units16(data, N as nat),
        ) && big_natives(f@) == be_wire_units16(data, N as nat)),
        v.spec_wire() == Some(be_wire16(big_natives(v@))),
{
    if data.len() >= N * 2 {
        let u = be_wire_units16(data, N as nat);
        let base: [BigEndian<u16>; N] = vstd::pervasive::arbitrary();
        lemma_array_of(base, big_stored(u));
        lemma_stored_natives16(u);
    }
}

impl<const N: usize> FromSlice for FixedUtf16BeNullPadded<N> {
    open spec fn spec_read_supported() -> bool {
        N * 2 <= usize::MAX
    }

    /// The code units that `FixedUtf16BeCodeUnits` reads.
    open spec fn spec_read(data: Seq<u8>) -> Option<FixedUtf16BeNullPadded<N>> {
        match FixedUtf16BeCodeUnits::<N>::spec_read(data) {
            Some(c) => Some(FixedUtf16BeNullPadded(c)),
            None => None,
        }
    }

    open spec fn spec_wire(&self) -> Option<Seq<u8>> {
        self.0.spec_wire()
    }

    fn read_from_slice(data: &[u8]) -> (r: Result<FixedUtf16BeNullPadded<N>, &'static str>) {
        match FixedUtf16BeCodeUnits::<N>::read_from_slice(data) {
            Ok(c) => Ok(FixedUtf16BeNullPadded(c)),
            Err(e) => Err(e),
        }
    }

    fn write_to_extend(&self, out: &mut Vec<u8>) -> (r: Result<(), &'static str>) {
        self.0.write_to_extend(out)
    }
}

impl<const N: usize> FromSlice for FixedUtf16BeSpacePadded<N> {
    open spec fn spec_read_supported() -> bool {
        N * 2 <= usize::MAX
    }

    /// The code units that `FixedUtf16BeCodeUnits` reads.
    open spec fn spec_read(data: Seq<u8>) -> Option<FixedUtf16BeSpacePadded<N>> {
        match FixedUtf16BeCodeUnits::<N>::spec_read(data) {
            Some(c) => Some(FixedUtf16BeSpacePadded(c)),
            None => None,
        }
    }

    open spec fn spec_wire(&self) -> Option<Seq<u8>> {
        self.0.spec_wire()
    }

    fn read_from_slice(data: &[u8]) -> (r: Result<FixedUtf16BeSpacePadded<N>, &'static str>) {
        match FixedUtf16BeCodeUnits::<N>::read_from_slice(data) {
            Ok(c) => Ok(FixedUtf16BeSpacePadded(c)),
            Err(e) => Err(e),
        }
    }

    fn write_to_extend(&self, out: &mut Vec<u8>) -> (r: Result<(), &'static str>) {
        self.0.write_to_extend(out)
    }
}

/// What `write_to_extend` writes of fixed UTF-16 code units, `read_from_slice` reads back,
/// whatever bytes follow; in both byte orders.
pub proof fn law_fixed_utf16_wire_round_trip<const N: usize>(l: FixedUtf16LeCodeUnits<N>, b: FixedUtf16BeCodeUnits<N>, rest: Seq<u8>)
    requires
        N * 2 <= usize::MAX,
    ensures
        l.spec_wire() matches Some(w) && FixedUtf16LeCodeUnits::<N>::spec_read(w + rest) == Some(l),
        b.spec_wire() matches Some(w) && FixedUtf16BeCodeUnits::<N>::spec_read(w + rest) == Some(b),
{
    let ln = little_natives(l@);
    lemma_le_wire16(ln, rest);
    assert forall|j: int| 0 <= j < N implies little_stored(ln)[j] == l@[j] by {
        lemma_double_conversion16(l@[j].0);
    }
    assert(little_stored(ln) =~= l@);
    let lbase: [LittleEndian<u16>; N] = vstd::pervasive::arbitrary();
    lemma_array_of(lbase, l@);
    lemma_array_eq(array_of(lbase, l@), l.units);
    let bn = big_natives(b@);
    lemma_be_wire16(bn, rest);
    assert forall|j: int| 0 <= j < N implies big_stored(bn)[j] == b@[j] by {
        lemma_double_conversion16(b@[j].0);
    }
    assert(big_stored(bn) =~= b@);
    let bbase: [BigEndian<u16>; N] = vstd::pervasive::arbitrary();
    lemma_array_of(bbase, b@);
    lemma_array_eq(array_of(bbase, b@), b.units);
}

} // verus!
