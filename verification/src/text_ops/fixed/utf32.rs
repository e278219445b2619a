//! Fixed-size UTF-32 code-unit storage with explicit byte order, and the packed, NUL-padded
//! and space-padded conventions for reading text out of it.
use vstd::prelude::*;

use crate::specific_endian::{
    BigEndian, LittleEndian, SpecificEndian, SpecificEndianOwned, big_bits, big_natives,
    big_stored, little_bits, little_natives, little_stored, natives_of_big, natives_of_little,
    spec_u32_to_be, spec_u32_to_le, store_big, store_little, wrap_big_bits, wrap_little_bits,
    round_trips,
};
use crate::byte_order::{
    le_bytes, be_bytes, le_value, be_value, lemma_be_value_of_be_bytes, lemma_le_bytes_len,
    lemma_le_value_bound, lemma_le_value_of_le_bytes, lemma_swap32_involution, pow256,
    spec_host_big,
};
use crate::io::{FromSlice, be_value_of, le_value_of, push_be_bytes, push_le_bytes};
use crate::messages::{decimal, fixed_text, two_numbers};
use crate::text_ops::fixed::arrays::{
    array_from_slice, array_of, fill_then_copy, lemma_array_eq, lemma_array_of,
};
use crate::text_ops::fixed::padding::{
    before_first, lemma_before_first, lemma_before_first_pad, lemma_trim_end_done,
    lemma_trim_end_pad, lemma_trim_end_step, pad_to, trim_end,
};
use crate::text_ops::unicode;
use crate::text_ops::unicode::{decode_utf32_units, encode_str_utf32};
use crate::text_ops::utf32::{Utf32StrBE, Utf32StrLE, Utf32StringBE, Utf32StringLE};

verus! {

/// Errors for fixed UTF-32 code-unit storage.
#[derive(Clone, Copy, Debug, Eq, PartialEq)]
pub enum FixedUtf32Error {
    /// Input had the wrong number of UTF-32 code units.
    WrongCodeUnitCount { expected: usize, found: usize },
    /// Input code units are not valid Unicode scalar values.
    InvalidUtf32,
}

impl FixedUtf32Error {
    /// The error's message (what `Display` writes).
    pub fn to_string(&self) -> (r: String)
        ensures
            match *self {
                FixedUtf32Error::WrongCodeUnitCount { expected, found } => r@
                    == "wrong number of UTF-32 code units (expected "@ + decimal(expected as nat)
                    + ", found "@ + decimal(found as nat) + ")"@,
                FixedUtf32Error::InvalidUtf32 => r@ == "invalid UTF-32"@,
            },
    {
        match self {
            FixedUtf32Error::WrongCodeUnitCount { expected, found } => two_numbers(
                "wrong number of UTF-32 code units (expected ",
                *expected,
                ", found ",
                *found,
                ")",
            ),
            FixedUtf32Error::InvalidUtf32 => fixed_text("invalid UTF-32"),
        }
    }
}

/// Inline storage of exactly `N` UTF-32 code units, each stored in the byte order of `E`.
#[derive(Clone, Copy, Debug, Eq, PartialEq, Hash, PartialOrd)]
pub struct FixedUtf32CodeUnitsEndian<E, const N: usize> {
    pub(crate) units: [E; N],
}

/// A borrowed reference to exactly `N` UTF-32 code units stored in the byte order of `E`.
#[derive(Clone, Copy, Debug, Eq, PartialEq, Hash, PartialOrd)]
pub struct FixedUtf32CodeUnitsRefEndian<'a, E, const N: usize>(pub &'a [E; N]);

/// Little-endian fixed UTF-32 code units.
pub type FixedUtf32LeCodeUnits<const N: usize> = FixedUtf32CodeUnitsEndian<LittleEndian<u32>, N>;

/// Big-endian fixed UTF-32 code units.
pub type FixedUtf32BeCodeUnits<const N: usize> = FixedUtf32CodeUnitsEndian<BigEndian<u32>, N>;

/// A borrowed reference to exactly `N` UTF-32LE code units.
pub type FixedUtf32LeCodeUnitsRef<'a, const N: usize> = FixedUtf32CodeUnitsRefEndian<'a, LittleEndian<u32>, N>;

/// A borrowed reference to exactly `N` UTF-32BE code units.
pub type FixedUtf32BeCodeUnitsRef<'a, const N: usize> = FixedUtf32CodeUnitsRefEndian<'a, BigEndian<u32>, N>;

/// Host-endian fixed UTF-32 code units (the little-endian form).
pub type FixedUtf32CodeUnits<const N: usize> = FixedUtf32LeCodeUnits<N>;

/// A borrowed reference to exactly `N` host-endian UTF-32 code units (the little-endian form).
pub type FixedUtf32CodeUnitsRef<'a, const N: usize> = FixedUtf32LeCodeUnitsRef<'a, N>;

impl<E, const N: usize> View for FixedUtf32CodeUnitsEndian<E, N> {
    type V = Seq<E>;

    /// The stored code units.
    closed spec fn view(&self) -> Seq<E> {
        self.units@
    }
}

impl<E, const N: usize> FixedUtf32CodeUnitsEndian<E, N> {
    /// Returns the stored code units.
    pub fn as_units(&self) -> (r: &[E; N])
        ensures
            r@ == self@,
    {
        &self.units
    }
}

impl<'a, E, const N: usize> FixedUtf32CodeUnitsRefEndian<'a, E, N> {
    /// Returns the referenced code units.
    pub fn as_units(&self) -> (r: &'a [E; N])
        ensures
            r@ == self.0@,
    {
        self.0
    }
}

impl<E, const N: usize> From<[E; N]> for FixedUtf32CodeUnitsEndian<E, N> {
    fn from(units: [E; N]) -> (r: Self)
        ensures
            r@ == units@,
    {
        FixedUtf32CodeUnitsEndian { units }
    }
}

impl<E, const N: usize> vstd::std_specs::convert::FromSpecImpl<[E; N]> for FixedUtf32CodeUnitsEndian<E, N> {
    open spec fn obeys_from_spec() -> bool {
        true
    }

    closed spec fn from_spec(units: [E; N]) -> FixedUtf32CodeUnitsEndian<E, N> {
        FixedUtf32CodeUnitsEndian { units }
    }
}

impl<'a, E, const N: usize> From<&'a [E; N]> for FixedUtf32CodeUnitsRefEndian<'a, E, N> {
    fn from(v: &'a [E; N]) -> (r: Self) {
        FixedUtf32CodeUnitsRefEndian(v)
    }
}

impl<'a, E, const N: usize> vstd::std_specs::convert::FromSpecImpl<&'a [E; N]> for FixedUtf32CodeUnitsRefEndian<'a, E, N> {
    open spec fn obeys_from_spec() -> bool {
        true
    }

    open spec fn from_spec(v: &'a [E; N]) -> FixedUtf32CodeUnitsRefEndian<'a, E, N> {
        FixedUtf32CodeUnitsRefEndian(v)
    }
}

/// The error for text of `count` code units that must fill exactly `n`: past `n` the count
/// stops at `n + 1`, the first unit that does not fit.
pub open spec fn unit_count_error32(n: usize, count: nat) -> FixedUtf32Error {
    if count > n {
        FixedUtf32Error::WrongCodeUnitCount { expected: n, found: (n + 1) as usize }
    } else {
        FixedUtf32Error::WrongCodeUnitCount { expected: n, found: count as usize }
    }
}

impl<const N: usize> TryFrom<&[u32]> for FixedUtf32LeCodeUnits<N> {
    type Error = FixedUtf32Error;

    /// Takes exactly `N` code units as raw stored bits, without conversion.
    fn try_from(v: &[u32]) -> (r: Result<FixedUtf32LeCodeUnits<N>, FixedUtf32Error>)
        ensures
            match r {
                Ok(f) => v@.len() == N && f@ == little_bits(v@),
                Err(e) => v@.len() != N && e == (FixedUtf32Error::WrongCodeUnitCount {
                    expected: N,
                    found: v@.len() as usize,
                }),
            },
    {
        if v.len() != N {
            return Err(FixedUtf32Error::WrongCodeUnitCount { expected: N, found: v.len() });
        }
        let bits = wrap_little_bits(v);
        let units: [LittleEndian<u32>; N] = array_from_slice(LittleEndian::from_bits(0u32), bits.as_slice());
        Ok(FixedUtf32CodeUnitsEndian { units })
    }
}

impl<const N: usize> vstd::std_specs::convert::TryFromSpecImpl<&[u32]> for FixedUtf32LeCodeUnits<N> {
    /// The contract is the `ensures` of `try_from` itself.
    open spec fn obeys_try_from_spec() -> bool {
        false
    }

    open spec fn try_from_spec(v: &[u32]) -> Result<FixedUtf32LeCodeUnits<N>, FixedUtf32Error> {
        vstd::pervasive::arbitrary()
    }
}

impl<const N: usize> TryFrom<&[LittleEndian<u32>]> for FixedUtf32LeCodeUnits<N> {
    type Error = FixedUtf32Error;

    /// Copies exactly `N` stored code units.
    fn try_from(v: &[LittleEndian<u32>]) -> (r: Result<FixedUtf32LeCodeUnits<N>, FixedUtf32Error>)
        ensures
            match r {
                Ok(f) => v@.len() == N && f@ == v@,
                Err(e) => v@.len() != N && e == (FixedUtf32Error::WrongCodeUnitCount {
                    expected: N,
                    found: v@.len() as usize,
                }),
            },
    {
        if v.len() != N {
            return Err(FixedUtf32Error::WrongCodeUnitCount { expected: N, found: v.len() });
        }
        let units: [LittleEndian<u32>; N] = array_from_slice(LittleEndian::from_bits(0u32), v);
        Ok(FixedUtf32CodeUnitsEndian { units })
    }
}

impl<const N: usize> vstd::std_specs::convert::TryFromSpecImpl<&[LittleEndian<u32>]> for FixedUtf32LeCodeUnits<N> {
    /// The contract is the `ensures` of `try_from` itself.
    open spec fn obeys_try_from_spec() -> bool {
        false
    }

    open spec fn try_from_spec(v: &[LittleEndian<u32>]) -> Result<FixedUtf32LeCodeUnits<N>, FixedUtf32Error> {
        vstd::pervasive::arbitrary()
    }
}

impl<const N: usize> TryFrom<&str> for FixedUtf32LeCodeUnits<N> {
    type Error = FixedUtf32Error;

    /// Stores the UTF-32 code units of `s`, which must number exactly `N`, each converted to
    /// the little-endian stored byte order.
    fn try_from(s: &str) -> (r: Result<FixedUtf32LeCodeUnits<N>, FixedUtf32Error>)
        ensures
            match r {
                Ok(f) => unicode::encode_utf32(s@).len() == N && f@ == little_stored(unicode::encode_utf32(s@)),
                Err(e) => unicode::encode_utf32(s@).len() != N && e == unit_count_error32(
                    N,
                    unicode::encode_utf32(s@).len(),
                ),
            },
    {
        let units = encode_str_utf32(s);
        if units.len() > N {
            return Err(FixedUtf32Error::WrongCodeUnitCount { expected: N, found: N + 1 });
        }
        if units.len() != N {
            return Err(FixedUtf32Error::WrongCodeUnitCount { expected: N, found: units.len() });
        }
        let stored = store_little(units.as_slice());
        let arr: [LittleEndian<u32>; N] = array_from_slice(LittleEndian::from_bits(0u32), stored.as_slice());
        Ok(FixedUtf32CodeUnitsEndian { units: arr })
    }
}

impl<const N: usize> vstd::std_specs::convert::TryFromSpecImpl<&str> for FixedUtf32LeCodeUnits<N> {
    /// The contract is the `ensures` of `try_from` itself.
    open spec fn obeys_try_from_spec() -> bool {
        false
    }

    open spec fn try_from_spec(s: &str) -> Result<FixedUtf32LeCodeUnits<N>, FixedUtf32Error> {
        vstd::pervasive::arbitrary()
    }
}

impl<const N: usize> TryFrom<String> for FixedUtf32LeCodeUnits<N> {
    type Error = FixedUtf32Error;

    /// As for `&str`.
    fn try_from(s: String) -> (r: Result<FixedUtf32LeCodeUnits<N>, FixedUtf32Error>)
        ensures
            match r {
                Ok(f) => unicode::encode_utf32(s@).len() == N && f@ == little_stored(unicode::encode_utf32(s@)),
                Err(e) => unicode::encode_utf32(s@).len() != N && e == unit_count_error32(
                    N,
                    unicode::encode_utf32(s@).len(),
                ),
            },
    {
        FixedUtf32LeCodeUnits::<N>::try_from(s.as_str())
    }
}

impl<const N: usize> vstd::std_specs::convert::TryFromSpecImpl<String> for FixedUtf32LeCodeUnits<N> {
    /// The contract is the `ensures` of `try_from` itself.
    open spec fn obeys_try_from_spec() -> bool {
        false
    }

    open spec fn try_from_spec(s: String) -> Result<FixedUtf32LeCodeUnits<N>, FixedUtf32Error> {
        vstd::pervasive::arbitrary()
    }
}

impl<const N: usize> TryFrom<Utf32StringLE> for FixedUtf32LeCodeUnits<N> {
    type Error = FixedUtf32Error;

    /// Copies exactly `N` stored code units.
    fn try_from(v: Utf32StringLE) -> (r: Result<FixedUtf32LeCodeUnits<N>, FixedUtf32Error>)
        ensures
            match r {
                Ok(f) => v.0@.len() == N && f@ == v.0@,
                Err(e) => v.0@.len() != N && e == (FixedUtf32Error::WrongCodeUnitCount {
                    expected: N,
                    found: v.0@.len() as usize,
                }),
            },
    {
        FixedUtf32LeCodeUnits::<N>::try_from(v.0.as_slice())
    }
}

impl<const N: usize> vstd::std_specs::convert::TryFromSpecImpl<Utf32StringLE> for FixedUtf32LeCodeUnits<N> {
    /// The contract is the `ensures` of `try_from` itself.
    open spec fn obeys_try_from_spec() -> bool {
        false
    }

    open spec fn try_from_spec(v: Utf32StringLE) -> Result<FixedUtf32LeCodeUnits<N>, FixedUtf32Error> {
        vstd::pervasive::arbitrary()
    }
}

impl<const N: usize> TryFrom<&FixedUtf32LeCodeUnits<N>> for String {
    type Error = FixedUtf32Error;

    /// Decodes all `N` host-order code units.
    fn try_from(v: &FixedUtf32LeCodeUnits<N>) -> (r: Result<String, FixedUtf32Error>)
        ensures
            match r {
                Ok(s) => unicode::decode_utf32(little_natives(v@)) == Some(s@),
                Err(e) => e == FixedUtf32Error::InvalidUtf32 && unicode::decode_utf32(little_natives(v@)) is None,
            },
    {
        let native = natives_of_little(v.units.as_slice());
        match decode_utf32_units(native.as_slice()) {
            Some(s) => Ok(s),
            None => Err(FixedUtf32Error::InvalidUtf32),
        }
    }
}

impl<const N: usize> vstd::std_specs::convert::TryFromSpecImpl<&FixedUtf32LeCodeUnits<N>> for String {
    /// A `String` cannot be built in a specification, so the contract is the `ensures` of
    /// `try_from` itself.
    open spec fn obeys_try_from_spec() -> bool {
        false
    }

    open spec fn try_from_spec(v: &FixedUtf32LeCodeUnits<N>) -> Result<String, FixedUtf32Error> {
        vstd::pervasive::arbitrary()
    }
}

impl<const N: usize> FixedUtf32LeCodeUnits<N> {
    /// The decoded text, or `<invalid UTF-32>` where the units do not decode (what `Display`
    /// writes).
    pub fn to_string(&self) -> (r: String)
        ensures
            match unicode::decode_utf32(little_natives(self@)) {
                Some(t) => r@ == t,
                None => r@ == "<invalid UTF-32>"@,
            },
    {
        match String::try_from(self) {
            Ok(s) => s,
            Err(_) => fixed_text("<invalid UTF-32>"),
        }
    }
}

impl<const N: usize> TryFrom<&[u32]> for FixedUtf32BeCodeUnits<N> {
    type Error = FixedUtf32Error;

    /// Takes exactly `N` code units as raw stored bits, without conversion.
    fn try_from(v: &[u32]) -> (r: Result<FixedUtf32BeCodeUnits<N>, FixedUtf32Error>)
        ensures
            match r {
                Ok(f) => v@.len() == N && f@ == big_bits(v@),
                Err(e) => v@.len() != N && e == (FixedUtf32Error::WrongCodeUnitCount {
                    expected: N,
                    found: v@.len() as usize,
                }),
            },
    {
        if v.len() != N {
            return Err(FixedUtf32Error::WrongCodeUnitCount { expected: N, found: v.len() });
        }
        let bits = wrap_big_bits(v);
        let units: [BigEndian<u32>; N] = array_from_slice(BigEndian::from_bits(0u32), bits.as_slice());
        Ok(FixedUtf32CodeUnitsEndian { units })
    }
}

impl<const N: usize> vstd::std_specs::convert::TryFromSpecImpl<&[u32]> for FixedUtf32BeCodeUnits<N> {
    /// The contract is the `ensures` of `try_from` itself.
    open spec fn obeys_try_from_spec() -> bool {
        false
    }

    open spec fn try_from_spec(v: &[u32]) -> Result<FixedUtf32BeCodeUnits<N>, FixedUtf32Error> {
        vstd::pervasive::arbitrary()
    }
}

impl<const N: usize> TryFrom<&[BigEndian<u32>]> for FixedUtf32BeCodeUnits<N> {
    type Error = FixedUtf32Error;

    /// Copies exactly `N` stored code units.
    fn try_from(v: &[BigEndian<u32>]) -> (r: Result<FixedUtf32BeCodeUnits<N>, FixedUtf32Error>)
        ensures
            match r {
                Ok(f) => v@.len() == N && f@ == v@,
                Err(e) => v@.len() != N && e == (FixedUtf32Error::WrongCodeUnitCount {
                    expected: N,
                    found: v@.len() as usize,
                }),
            },
    {
        if v.len() != N {
            return Err(FixedUtf32Error::WrongCodeUnitCount { expected: N, found: v.len() });
        }
        let units: [BigEndian<u32>; N] = array_from_slice(BigEndian::from_bits(0u32), v);
        Ok(FixedUtf32CodeUnitsEndian { units })
    }
}

impl<const N: usize> vstd::std_specs::convert::TryFromSpecImpl<&[BigEndian<u32>]> for FixedUtf32BeCodeUnits<N> {
    /// The contract is the `ensures` of `try_from` itself.
    open spec fn obeys_try_from_spec() -> bool {
        false
    }

    open spec fn try_from_spec(v: &[BigEndian<u32>]) -> Result<FixedUtf32BeCodeUnits<N>, FixedUtf32Error> {
        vstd::pervasive::arbitrary()
    }
}

impl<const N: usize> TryFrom<&str> for FixedUtf32BeCodeUnits<N> {
    type Error = FixedUtf32Error;

    /// Stores the UTF-32 code units of `s`, which must number exactly `N`, each converted to
    /// the big-endian stored byte order.
    fn try_from(s: &str) -> (r: Result<FixedUtf32BeCodeUnits<N>, FixedUtf32Error>)
        ensures
            match r {
                Ok(f) => unicode::encode_utf32(s@).len() == N && f@ == big_stored(unicode::encode_utf32(s@)),
                Err(e) => unicode::encode_utf32(s@).len() != N && e == unit_count_error32(
                    N,
                    unicode::encode_utf32(s@).len(),
                ),
            },
    {
        let units = encode_str_utf32(s);
        if units.len() > N {
            return Err(FixedUtf32Error::WrongCodeUnitCount { expected: N, found: N + 1 });
        }
        if units.len() != N {
            return Err(FixedUtf32Error::WrongCodeUnitCount { expected: N, found: units.len() });
        }
        let stored = store_big(units.as_slice());
        let arr: [BigEndian<u32>; N] = array_from_slice(BigEndian::from_bits(0u32), stored.as_slice());
        Ok(FixedUtf32CodeUnitsEndian { units: arr })
    }
}

impl<const N: usize> vstd::std_specs::convert::TryFromSpecImpl<&str> for FixedUtf32BeCodeUnits<N> {
    /// The contract is the `ensures` of `try_from` itself.
    open spec fn obeys_try_from_spec() -> bool {
        false
    }

    open spec fn try_from_spec(s: &str) -> Result<FixedUtf32BeCodeUnits<N>, FixedUtf32Error> {
        vstd::pervasive::arbitrary()
    }
}

impl<const N: usize> TryFrom<String> for FixedUtf32BeCodeUnits<N> {
    type Error = FixedUtf32Error;

    /// As for `&str`.
    fn try_from(s: String) -> (r: Result<FixedUtf32BeCodeUnits<N>, FixedUtf32Error>)
        ensures
            match r {
                Ok(f) => unicode::encode_utf32(s@).len() == N && f@ == big_stored(unicode::encode_utf32(s@)),
                Err(e) => unicode::encode_utf32(s@).len() != N && e == unit_count_error32(
                    N,
                    unicode::encode_utf32(s@).len(),
                ),
            },
    {
        FixedUtf32BeCodeUnits::<N>::try_from(s.as_str())
    }
}

impl<const N: usize> vstd::std_specs::convert::TryFromSpecImpl<String> for FixedUtf32BeCodeUnits<N> {
    /// The contract is the `ensures` of `try_from` itself.
    open spec fn obeys_try_from_spec() -> bool {
        false
    }

    open spec fn try_from_spec(s: String) -> Result<FixedUtf32BeCodeUnits<N>, FixedUtf32Error> {
        vstd::pervasive::arbitrary()
    }
}

impl<const N: usize> TryFrom<Utf32StringBE> for FixedUtf32BeCodeUnits<N> {
    type Error = FixedUtf32Error;

    /// Copies exactly `N` stored code units.
    fn try_from(v: Utf32StringBE) -> (r: Result<FixedUtf32BeCodeUnits<N>, FixedUtf32Error>)
        ensures
            match r {
                Ok(f) => v.0@.len() == N && f@ == v.0@,
                Err(e) => v.0@.len() != N && e == (FixedUtf32Error::WrongCodeUnitCount {
                    expected: N,
                    found: v.0@.len() as usize,
                }),
            },
    {
        FixedUtf32BeCodeUnits::<N>::try_from(v.0.as_slice())
    }
}

impl<const N: usize> vstd::std_specs::convert::TryFromSpecImpl<Utf32StringBE> for FixedUtf32BeCodeUnits<N> {
    /// The contract is the `ensures` of `try_from` itself.
    open spec fn obeys_try_from_spec() -> bool {
        false
    }

    open spec fn try_from_spec(v: Utf32StringBE) -> Result<FixedUtf32BeCodeUnits<N>, FixedUtf32Error> {
        vstd::pervasive::arbitrary()
    }
}

impl<const N: usize> TryFrom<&FixedUtf32BeCodeUnits<N>> for String {
    type Error = FixedUtf32Error;

    /// Decodes all `N` host-order code units.
    fn try_from(v: &FixedUtf32BeCodeUnits<N>) -> (r: Result<String, FixedUtf32Error>)
        ensures
            match r {
                Ok(s) => unicode::decode_utf32(big_natives(v@)) == Some(s@),
                Err(e) => e == FixedUtf32Error::InvalidUtf32 && unicode::decode_utf32(big_natives(v@)) is None,
            },
    {
        let native = natives_of_big(v.units.as_slice());
        match decode_utf32_units(native.as_slice()) {
            Some(s) => Ok(s),
            None => Err(FixedUtf32Error::InvalidUtf32),
        }
    }
}

impl<const N: usize> vstd::std_specs::convert::TryFromSpecImpl<&FixedUtf32BeCodeUnits<N>> for String {
    /// A `String` cannot be built in a specification, so the contract is the `ensures` of
    /// `try_from` itself.
    open spec fn obeys_try_from_spec() -> bool {
        false
    }

    open spec fn try_from_spec(v: &FixedUtf32BeCodeUnits<N>) -> Result<String, FixedUtf32Error> {
        vstd::pervasive::arbitrary()
    }
}

impl<const N: usize> FixedUtf32BeCodeUnits<N> {
    /// The decoded text, or `<invalid UTF-32>` where the units do not decode (what `Display`
    /// writes).
    pub fn to_string(&self) -> (r: String)
        ensures
            match unicode::decode_utf32(big_natives(self@)) {
                Some(t) => r@ == t,
                None => r@ == "<invalid UTF-32>"@,
            },
    {
        match String::try_from(self) {
            Ok(s) => s,
            Err(_) => fixed_text("<invalid UTF-32>"),
        }
    }
}


/// Fixed little-endian UTF-32 code units read as a packed string: decoding uses all `N` units.
#[derive(Clone, Copy, Debug, Eq, PartialEq, Hash, PartialOrd)]
pub struct FixedUtf32LePacked<const N: usize>(pub FixedUtf32LeCodeUnits<N>);

/// Fixed little-endian UTF-32 code units read as a NUL-padded string: decoding stops at the
/// first zero code unit.
#[derive(Clone, Copy, Debug, Eq, PartialEq, Hash, PartialOrd)]
pub struct FixedUtf32LeNullPadded<const N: usize>(pub FixedUtf32LeCodeUnits<N>);

/// Fixed little-endian UTF-32 code units read as a space-padded string: decoding drops
/// trailing space code units.
#[derive(Clone, Copy, Debug, Eq, PartialEq, Hash, PartialOrd)]
pub struct FixedUtf32LeSpacePadded<const N: usize>(pub FixedUtf32LeCodeUnits<N>);

impl<const N: usize> From<FixedUtf32LeCodeUnits<N>> for FixedUtf32LePacked<N> {
    fn from(v: FixedUtf32LeCodeUnits<N>) -> (r: Self) {
        FixedUtf32LePacked(v)
    }
}

impl<const N: usize> vstd::std_specs::convert::FromSpecImpl<FixedUtf32LeCodeUnits<N>> for FixedUtf32LePacked<N> {
    open spec fn obeys_from_spec() -> bool {
        true
    }

    open spec fn from_spec(v: FixedUtf32LeCodeUnits<N>) -> FixedUtf32LePacked<N> {
        FixedUtf32LePacked(v)
    }
}

impl<const N: usize> From<FixedUtf32LePacked<N>> for FixedUtf32LeCodeUnits<N> {
    fn from(v: FixedUtf32LePacked<N>) -> (r: Self) {
        v.0
    }
}

impl<const N: usize> vstd::std_specs::convert::FromSpecImpl<FixedUtf32LePacked<N>> for FixedUtf32LeCodeUnits<N> {
    open spec fn obeys_from_spec() -> bool {
        true
    }

    open spec fn from_spec(v: FixedUtf32LePacked<N>) -> FixedUtf32LeCodeUnits<N> {
        v.0
    }
}

impl<const N: usize> From<FixedUtf32LeCodeUnits<N>> for FixedUtf32LeNullPadded<N> {
    fn from(v: FixedUtf32LeCodeUnits<N>) -> (r: Self) {
        FixedUtf32LeNullPadded(v)
    }
}

impl<const N: usize> vstd::std_specs::convert::FromSpecImpl<FixedUtf32LeCodeUnits<N>> for FixedUtf32LeNullPadded<N> {
    open spec fn obeys_from_spec() -> bool {
        true
    }

    open spec fn from_spec(v: FixedUtf32LeCodeUnits<N>) -> FixedUtf32LeNullPadded<N> {
        FixedUtf32LeNullPadded(v)
    }
}

impl<const N: usize> From<FixedUtf32LeNullPadded<N>> for FixedUtf32LeCodeUnits<N> {
    fn from(v: FixedUtf32LeNullPadded<N>) -> (r: Self) {
        v.0
    }
}

impl<const N: usize> vstd::std_specs::convert::FromSpecImpl<FixedUtf32LeNullPadded<N>> for FixedUtf32LeCodeUnits<N> {
    open spec fn obeys_from_spec() -> bool {
        true
    }

    open spec fn from_spec(v: FixedUtf32LeNullPadded<N>) -> FixedUtf32LeCodeUnits<N> {
        v.0
    }
}

impl<const N: usize> From<FixedUtf32LeCodeUnits<N>> for FixedUtf32LeSpacePadded<N> {
    fn from(v: FixedUtf32LeCodeUnits<N>) -> (r: Self) {
        FixedUtf32LeSpacePadded(v)
    }
}

impl<const N: usize> vstd::std_specs::convert::FromSpecImpl<FixedUtf32LeCodeUnits<N>> for FixedUtf32LeSpacePadded<N> {
    open spec fn obeys_from_spec() -> bool {
        true
    }

    open spec fn from_spec(v: FixedUtf32LeCodeUnits<N>) -> FixedUtf32LeSpacePadded<N> {
        FixedUtf32LeSpacePadded(v)
    }
}

impl<const N: usize> From<FixedUtf32LeSpacePadded<N>> for FixedUtf32LeCodeUnits<N> {
    fn from(v: FixedUtf32LeSpacePadded<N>) -> (r: Self) {
        v.0
    }
}

impl<const N: usize> vstd::std_specs::convert::FromSpecImpl<FixedUtf32LeSpacePadded<N>> for FixedUtf32LeCodeUnits<N> {
    open spec fn obeys_from_spec() -> bool {
        true
    }

    open spec fn from_spec(v: FixedUtf32LeSpacePadded<N>) -> FixedUtf32LeCodeUnits<N> {
        v.0
    }
}

impl<const N: usize> TryFrom<&str> for FixedUtf32LePacked<N> {
    type Error = FixedUtf32Error;

    /// Stores the UTF-32 code units of `s`, which must number exactly `N`, each converted to
    /// the stored byte order.
    fn try_from(s: &str) -> (r: Result<FixedUtf32LePacked<N>, FixedUtf32Error>)
        ensures
            match r {
                Ok(f) => unicode::encode_utf32(s@).len() == N && f.0@ == little_stored(unicode::encode_utf32(s@)),
                Err(e) => unicode::encode_utf32(s@).len() != N && e == unit_count_error32(
                    N,
                    unicode::encode_utf32(s@).len(),
                ),
            },
    {
        match FixedUtf32LeCodeUnits::<N>::try_from(s) {
            Ok(v) => Ok(FixedUtf32LePacked(v)),
            Err(e) => Err(e),
        }
    }
}

impl<const N: usize> vstd::std_specs::convert::TryFromSpecImpl<&str> for FixedUtf32LePacked<N> {
    /// The contract is the `ensures` of `try_from` itself.
    open spec fn obeys_try_from_spec() -> bool {
        false
    }

    open spec fn try_from_spec(s: &str) -> Result<FixedUtf32LePacked<N>, FixedUtf32Error> {
        vstd::pervasive::arbitrary()
    }
}

impl<const N: usize> TryFrom<&str> for FixedUtf32LeNullPadded<N> {
    type Error = FixedUtf32Error;

    /// Stores the UTF-32 code units of `s`, followed by zero units up to `N`, each converted
    /// to the stored byte order.
    fn try_from(s: &str) -> (r: Result<FixedUtf32LeNullPadded<N>, FixedUtf32Error>)
        ensures
            match r {
                Ok(f) => unicode::encode_utf32(s@).len() <= N && f.0@ == little_stored(
                    pad_to(unicode::encode_utf32(s@), N as nat, 0u32),
                ),
                Err(e) => unicode::encode_utf32(s@).len() > N && e == (FixedUtf32Error::WrongCodeUnitCount {
                    expected: N,
                    found: (N + 1) as usize,
                }),
            },
    {
        let units = encode_str_utf32(s);
        if units.len() > N {
            return Err(FixedUtf32Error::WrongCodeUnitCount { expected: N, found: N + 1 });
        }
        let padded: [u32; N] = fill_then_copy(0u32, units.as_slice());
        let stored = store_little(padded.as_slice());
        let arr: [LittleEndian<u32>; N] = array_from_slice(LittleEndian::from_bits(0u32), stored.as_slice());
        assert(padded@ =~= pad_to(units@, N as nat, 0u32));
        Ok(FixedUtf32LeNullPadded(FixedUtf32CodeUnitsEndian { units: arr }))
    }
}

impl<const N: usize> vstd::std_specs::convert::TryFromSpecImpl<&str> for FixedUtf32LeNullPadded<N> {
    /// The contract is the `ensures` of `try_from` itself.
    open spec fn obeys_try_from_spec() -> bool {
        false
    }

    open spec fn try_from_spec(s: &str) -> Result<FixedUtf32LeNullPadded<N>, FixedUtf32Error> {
        vstd::pervasive::arbitrary()
    }
}

impl<const N: usize> TryFrom<&str> for FixedUtf32LeSpacePadded<N> {
    type Error = FixedUtf32Error;

    /// Stores the UTF-32 code units of `s`, followed by space units up to `N`, each
    /// converted to the stored byte order.
    fn try_from(s: &str) -> (r: Result<FixedUtf32LeSpacePadded<N>, FixedUtf32Error>)
        ensures
            match r {
                Ok(f) => unicode::encode_utf32(s@).len() <= N && f.0@ == little_stored(
                    pad_to(unicode::encode_utf32(s@), N as nat, 0x20u32),
                ),
                Err(e) => unicode::encode_utf32(s@).len() > N && e == (FixedUtf32Error::WrongCodeUnitCount {
                    expected: N,
                    found: (N + 1) as usize,
                }),
            },
    {
        let units = encode_str_utf32(s);
        if units.len() > N {
            return Err(FixedUtf32Error::WrongCodeUnitCount { expected: N, found: N + 1 });
        }
        let padded: [u32; N] = fill_then_copy(0x20u32, units.as_slice());
        let stored = store_little(padded.as_slice());
        let arr: [LittleEndian<u32>; N] = array_from_slice(LittleEndian::from_bits(0u32), stored.as_slice());
        assert(padded@ =~= pad_to(units@, N as nat, 0x20u32));
        Ok(FixedUtf32LeSpacePadded(FixedUtf32CodeUnitsEndian { units: arr }))
    }
}

impl<const N: usize> vstd::std_specs::convert::TryFromSpecImpl<&str> for FixedUtf32LeSpacePadded<N> {
    /// The contract is the `ensures` of `try_from` itself.
    open spec fn obeys_try_from_spec() -> bool {
        false
    }

    open spec fn try_from_spec(s: &str) -> Result<FixedUtf32LeSpacePadded<N>, FixedUtf32Error> {
        vstd::pervasive::arbitrary()
    }
}

impl<const N: usize> TryFrom<&FixedUtf32LePacked<N>> for String {
    type Error = FixedUtf32Error;

    /// Decodes all `N` host-order code units.
    fn try_from(v: &FixedUtf32LePacked<N>) -> (r: Result<String, FixedUtf32Error>)
        ensures
            match r {
                Ok(s) => unicode::decode_utf32(little_natives(v.0@)) == Some(s@),
                Err(e) => e == FixedUtf32Error::InvalidUtf32 && unicode::decode_utf32(little_natives(v.0@)) is None,
            },
    {
        String::try_from(&v.0)
    }
}

impl<const N: usize> vstd::std_specs::convert::TryFromSpecImpl<&FixedUtf32LePacked<N>> for String {
    /// A `String` cannot be built in a specification, so the contract is the `ensures` of
    /// `try_from` itself.
    open spec fn obeys_try_from_spec() -> bool {
        false
    }

    open spec fn try_from_spec(v: &FixedUtf32LePacked<N>) -> Result<String, FixedUtf32Error> {
        vstd::pervasive::arbitrary()
    }
}

impl<const N: usize> TryFrom<&FixedUtf32LeNullPadded<N>> for String {
    type Error = FixedUtf32Error;

    /// Decodes the host-order code units before the first zero unit.
    fn try_from(v: &FixedUtf32LeNullPadded<N>) -> (r: Result<String, FixedUtf32Error>)
        ensures
            match r {
                Ok(s) => unicode::decode_utf32(before_first(little_natives(v.0@), 0u32)) == Some(s@),
                Err(e) => e == FixedUtf32Error::InvalidUtf32 && unicode::decode_utf32(
                    before_first(little_natives(v.0@), 0u32),
                ) is None,
            },
    {
        let units = v.0.as_units();
        let ghost n = little_natives(v.0@);
        let mut end: usize = 0;
        while end < N && units[end].to_native() != 0
            invariant
                end <= N,
                units@ == v.0@,
                units@.len() == N,
                n == little_natives(v.0@),
                forall|j: int| 0 <= j < end ==> n[j] != 0u32,
            decreases N - end,
        {
            end = end + 1;
        }
        proof {
            lemma_before_first(n, 0u32, end as int);
        }
        let prefix = vstd::slice::slice_subrange(units.as_slice(), 0, end);
        assert(little_natives(prefix@) =~= n.take(end as int));
        match String::try_from(Utf32StrLE::from(prefix)) {
            Ok(s) => Ok(s),
            Err(_) => Err(FixedUtf32Error::InvalidUtf32),
        }
    }
}

impl<const N: usize> vstd::std_specs::convert::TryFromSpecImpl<&FixedUtf32LeNullPadded<N>> for String {
    /// A `String` cannot be built in a specification, so the contract is the `ensures` of
    /// `try_from` itself.
    open spec fn obeys_try_from_spec() -> bool {
        false
    }

    open spec fn try_from_spec(v: &FixedUtf32LeNullPadded<N>) -> Result<String, FixedUtf32Error> {
        vstd::pervasive::arbitrary()
    }
}

impl<const N: usize> TryFrom<&FixedUtf32LeSpacePadded<N>> for String {
    type Error = FixedUtf32Error;

    /// Decodes the host-order code units left after dropping trailing spaces.
    fn try_from(v: &FixedUtf32LeSpacePadded<N>) -> (r: Result<String, FixedUtf32Error>)
        ensures
            match r {
                Ok(s) => unicode::decode_utf32(trim_end(little_natives(v.0@), 0x20u32)) == Some(s@),
                Err(e) => e == FixedUtf32Error::InvalidUtf32 && unicode::decode_utf32(
                    trim_end(little_natives(v.0@), 0x20u32),
                ) is None,
            },
    {
        let units = v.0.as_units();
        let ghost n = little_natives(v.0@);
        let mut end: usize = N;
        assert(n.take(N as int) =~= n);
        while end > 0 && units[end - 1].to_native() == 0x20
            invariant
                end <= N,
                units@ == v.0@,
                units@.len() == N,
                n == little_natives(v.0@),
                trim_end(n, 0x20u32) == trim_end(n.take(end as int), 0x20u32),
            decreases end,
        {
            proof {
                lemma_trim_end_step(n, 0x20u32, end as int);
            }
            end = end - 1;
        }
        proof {
            lemma_trim_end_done(n.take(end as int), 0x20u32);
        }
        let prefix = vstd::slice::slice_subrange(units.as_slice(), 0, end);
        assert(little_natives(prefix@) =~= n.take(end as int));
        match String::try_from(Utf32StrLE::from(prefix)) {
            Ok(s) => Ok(s),
            Err(_) => Err(FixedUtf32Error::InvalidUtf32),
        }
    }
}

impl<const N: usize> vstd::std_specs::convert::TryFromSpecImpl<&FixedUtf32LeSpacePadded<N>> for String {
    /// A `String` cannot be built in a specification, so the contract is the `ensures` of
    /// `try_from` itself.
    open spec fn obeys_try_from_spec() -> bool {
        false
    }

    open spec fn try_from_spec(v: &FixedUtf32LeSpacePadded<N>) -> Result<String, FixedUtf32Error> {
        vstd::pervasive::arbitrary()
    }
}

/// Fixed big-endian UTF-32 code units read as a packed string: decoding uses all `N` units.
#[derive(Clone, Copy, Debug, Eq, PartialEq, Hash, PartialOrd)]
pub struct FixedUtf32BePacked<const N: usize>(pub FixedUtf32BeCodeUnits<N>);

/// Fixed big-endian UTF-32 code units read as a NUL-padded string: decoding stops at the
/// first zero code unit.
#[derive(Clone, Copy, Debug, Eq, PartialEq, Hash, PartialOrd)]
pub struct FixedUtf32BeNullPadded<const N: usize>(pub FixedUtf32BeCodeUnits<N>);

/// Fixed big-endian UTF-32 code units read as a space-padded string: decoding drops
/// trailing space code units.
#[derive(Clone, Copy, Debug, Eq, PartialEq, Hash, PartialOrd)]
pub struct FixedUtf32BeSpacePadded<const N: usize>(pub FixedUtf32BeCodeUnits<N>);

impl<const N: usize> From<FixedUtf32BeCodeUnits<N>> for FixedUtf32BePacked<N> {
    fn from(v: FixedUtf32BeCodeUnits<N>) -> (r: Self) {
        FixedUtf32BePacked(v)
    }
}

impl<const N: usize> vstd::std_specs::convert::FromSpecImpl<FixedUtf32BeCodeUnits<N>> for FixedUtf32BePacked<N> {
    open spec fn obeys_from_spec() -> bool {
        true
    }

    open spec fn from_spec(v: FixedUtf32BeCodeUnits<N>) -> FixedUtf32BePacked<N> {
        FixedUtf32BePacked(v)
    }
}

impl<const N: usize> From<FixedUtf32BePacked<N>> for FixedUtf32BeCodeUnits<N> {
    fn from(v: FixedUtf32BePacked<N>) -> (r: Self) {
        v.0
    }
}

impl<const N: usize> vstd::std_specs::convert::FromSpecImpl<FixedUtf32BePacked<N>> for FixedUtf32BeCodeUnits<N> {
    open spec fn obeys_from_spec() -> bool {
        true
    }

    open spec fn from_spec(v: FixedUtf32BePacked<N>) -> FixedUtf32BeCodeUnits<N> {
        v.0
    }
}

impl<const N: usize> From<FixedUtf32BeCodeUnits<N>> for FixedUtf32BeNullPadded<N> {
    fn from(v: FixedUtf32BeCodeUnits<N>) -> (r: Self) {
        FixedUtf32BeNullPadded(v)
    }
}

impl<const N: usize> vstd::std_specs::convert::FromSpecImpl<FixedUtf32BeCodeUnits<N>> for FixedUtf32BeNullPadded<N> {
    open spec fn obeys_from_spec() -> bool {
        true
    }

    open spec fn from_spec(v: FixedUtf32BeCodeUnits<N>) -> FixedUtf32BeNullPadded<N> {
        FixedUtf32BeNullPadded(v)
    }
}

impl<const N: usize> From<FixedUtf32BeNullPadded<N>> for FixedUtf32BeCodeUnits<N> {
    fn from(v: FixedUtf32BeNullPadded<N>) -> (r: Self) {
        v.0
    }
}

impl<const N: usize> vstd::std_specs::convert::FromSpecImpl<FixedUtf32BeNullPadded<N>> for FixedUtf32BeCodeUnits<N> {
    open spec fn obeys_from_spec() -> bool {
        true
    }

    open spec fn from_spec(v: FixedUtf32BeNullPadded<N>) -> FixedUtf32BeCodeUnits<N> {
        v.0
    }
}

impl<const N: usize> From<FixedUtf32BeCodeUnits<N>> for FixedUtf32BeSpacePadded<N> {
    fn from(v: FixedUtf32BeCodeUnits<N>) -> (r: Self) {
        FixedUtf32BeSpacePadded(v)
    }
}

impl<const N: usize> vstd::std_specs::convert::FromSpecImpl<FixedUtf32BeCodeUnits<N>> for FixedUtf32BeSpacePadded<N> {
    open spec fn obeys_from_spec() -> bool {
        true
    }

    open spec fn from_spec(v: FixedUtf32BeCodeUnits<N>) -> FixedUtf32BeSpacePadded<N> {
        FixedUtf32BeSpacePadded(v)
    }
}

impl<const N: usize> From<FixedUtf32BeSpacePadded<N>> for FixedUtf32BeCodeUnits<N> {
    fn from(v: FixedUtf32BeSpacePadded<N>) -> (r: Self) {
        v.0
    }
}

impl<const N: usize> vstd::std_specs::convert::FromSpecImpl<FixedUtf32BeSpacePadded<N>> for FixedUtf32BeCodeUnits<N> {
    open spec fn obeys_from_spec() -> bool {
        true
    }

    open spec fn from_spec(v: FixedUtf32BeSpacePadded<N>) -> FixedUtf32BeCodeUnits<N> {
        v.0
    }
}

impl<const N: usize> TryFrom<&str> for FixedUtf32BePacked<N> {
    type Error = FixedUtf32Error;

    /// Stores the UTF-32 code units of `s`, which must number exactly `N`, each converted to
    /// the stored byte order.
    fn try_from(s: &str) -> (r: Result<FixedUtf32BePacked<N>, FixedUtf32Error>)
        ensures
            match r {
                Ok(f) => unicode::encode_utf32(s@).len() == N && f.0@ == big_stored(unicode::encode_utf32(s@)),
                Err(e) => unicode::encode_utf32(s@).len() != N && e == unit_count_error32(
                    N,
                    unicode::encode_utf32(s@).len(),
                ),
            },
    {
        match FixedUtf32BeCodeUnits::<N>::try_from(s) {
            Ok(v) => Ok(FixedUtf32BePacked(v)),
            Err(e) => Err(e),
        }
    }
}

impl<const N: usize> vstd::std_specs::convert::TryFromSpecImpl<&str> for FixedUtf32BePacked<N> {
    /// The contract is the `ensures` of `try_from` itself.
    open spec fn obeys_try_from_spec() -> bool {
        false
    }

    open spec fn try_from_spec(s: &str) -> Result<FixedUtf32BePacked<N>, FixedUtf32Error> {
        vstd::pervasive::arbitrary()
    }
}

impl<const N: usize> TryFrom<&str> for FixedUtf32BeNullPadded<N> {
    type Error = FixedUtf32Error;

    /// Stores the UTF-32 code units of `s`, followed by zero units up to `N`, each converted
    /// to the stored byte order.
    fn try_from(s: &str) -> (r: Result<FixedUtf32BeNullPadded<N>, FixedUtf32Error>)
        ensures
            match r {
                Ok(f) => unicode::encode_utf32(s@).len() <= N && f.0@ == big_stored(
                    pad_to(unicode::encode_utf32(s@), N as nat, 0u32),
                ),
                Err(e) => unicode::encode_utf32(s@).len() > N && e == (FixedUtf32Error::WrongCodeUnitCount {
                    expected: N,
                    found: (N + 1) as usize,
                }),
            },
    {
        let units = encode_str_utf32(s);
        if units.len() > N {
            return Err(FixedUtf32Error::WrongCodeUnitCount { expected: N, found: N + 1 });
        }
        let padded: [u32; N] = fill_then_copy(0u32, units.as_slice());
        let stored = store_big(padded.as_slice());
        let arr: [BigEndian<u32>; N] = array_from_slice(BigEndian::from_bits(0u32), stored.as_slice());
        assert(padded@ =~= pad_to(units@, N as nat, 0u32));
        Ok(FixedUtf32BeNullPadded(FixedUtf32CodeUnitsEndian { units: arr }))
    }
}

impl<const N: usize> vstd::std_specs::convert::TryFromSpecImpl<&str> for FixedUtf32BeNullPadded<N> {
    /// The contract is the `ensures` of `try_from` itself.
    open spec fn obeys_try_from_spec() -> bool {
        false
    }

    open spec fn try_from_spec(s: &str) -> Result<FixedUtf32BeNullPadded<N>, FixedUtf32Error> {
        vstd::pervasive::arbitrary()
    }
}

impl<const N: usize> TryFrom<&str> for FixedUtf32BeSpacePadded<N> {
    type Error = FixedUtf32Error;

    /// Stores the UTF-32 code units of `s`, followed by space units up to `N`, each
    /// converted to the stored byte order.
    fn try_from(s: &str) -> (r: Result<FixedUtf32BeSpacePadded<N>, FixedUtf32Error>)
        ensures
            match r {
                Ok(f) => unicode::encode_utf32(s@).len() <= N && f.0@ == big_stored(
                    pad_to(unicode::encode_utf32(s@), N as nat, 0x20u32),
                ),
                Err(e) => unicode::encode_utf32(s@).len() > N && e == (FixedUtf32Error::WrongCodeUnitCount {
                    expected: N,
                    found: (N + 1) as usize,
                }),
            },
    {
        let units = encode_str_utf32(s);
        if units.len() > N {
            return Err(FixedUtf32Error::WrongCodeUnitCount { expected: N, found: N + 1 });
        }
        let padded: [u32; N] = fill_then_copy(0x20u32, units.as_slice());
        let stored = store_big(padded.as_slice());
        let arr: [BigEndian<u32>; N] = array_from_slice(BigEndian::from_bits(0u32), stored.as_slice());
        assert(padded@ =~= pad_to(units@, N as nat, 0x20u32));
        Ok(FixedUtf32BeSpacePadded(FixedUtf32CodeUnitsEndian { units: arr }))
    }
}

impl<const N: usize> vstd::std_specs::convert::TryFromSpecImpl<&str> for FixedUtf32BeSpacePadded<N> {
    /// The contract is the `ensures` of `try_from` itself.
    open spec fn obeys_try_from_spec() -> bool {
        false
    }

    open spec fn try_from_spec(s: &str) -> Result<FixedUtf32BeSpacePadded<N>, FixedUtf32Error> {
        vstd::pervasive::arbitrary()
    }
}

impl<const N: usize> TryFrom<&FixedUtf32BePacked<N>> for String {
    type Error = FixedUtf32Error;

    /// Decodes all `N` host-order code units.
    fn try_from(v: &FixedUtf32BePacked<N>) -> (r: Result<String, FixedUtf32Error>)
        ensures
            match r {
                Ok(s) => unicode::decode_utf32(big_natives(v.0@)) == Some(s@),
                Err(e) => e == FixedUtf32Error::InvalidUtf32 && unicode::decode_utf32(big_natives(v.0@)) is None,
            },
    {
        String::try_from(&v.0)
    }
}

impl<const N: usize> vstd::std_specs::convert::TryFromSpecImpl<&FixedUtf32BePacked<N>> for String {
    /// A `String` cannot be built in a specification, so the contract is the `ensures` of
    /// `try_from` itself.
    open spec fn obeys_try_from_spec() -> bool {
        false
    }

    open spec fn try_from_spec(v: &FixedUtf32BePacked<N>) -> Result<String, FixedUtf32Error> {
        vstd::pervasive::arbitrary()
    }
}

impl<const N: usize> TryFrom<&FixedUtf32BeNullPadded<N>> for String {
    type Error = FixedUtf32Error;

    /// Decodes the host-order code units before the first zero unit.
    fn try_from(v: &FixedUtf32BeNullPadded<N>) -> (r: Result<String, FixedUtf32Error>)
        ensures
            match r {
                Ok(s) => unicode::decode_utf32(before_first(big_natives(v.0@), 0u32)) == Some(s@),
                Err(e) => e == FixedUtf32Error::InvalidUtf32 && unicode::decode_utf32(
                    before_first(big_natives(v.0@), 0u32),
                ) is None,
            },
    {
        let units = v.0.as_units();
        let ghost n = big_natives(v.0@);
        let mut end: usize = 0;
        while end < N && units[end].to_native() != 0
            invariant
                end <= N,
                units@ == v.0@,
                units@.len() == N,
                n == big_natives(v.0@),
                forall|j: int| 0 <= j < end ==> n[j] != 0u32,
            decreases N - end,
        {
            end = end + 1;
        }
        proof {
            lemma_before_first(n, 0u32, end as int);
        }
        let prefix = vstd::slice::slice_subrange(units.as_slice(), 0, end);
        assert(big_natives(prefix@) =~= n.take(end as int));
        match String::try_from(Utf32StrBE::from(prefix)) {
            Ok(s) => Ok(s),
            Err(_) => Err(FixedUtf32Error::InvalidUtf32),
        }
    }
}

impl<const N: usize> vstd::std_specs::convert::TryFromSpecImpl<&FixedUtf32BeNullPadded<N>> for String {
    /// A `String` cannot be built in a specification, so the contract is the `ensures` of
    /// `try_from` itself.
    open spec fn obeys_try_from_spec() -> bool {
        false
    }

    open spec fn try_from_spec(v: &FixedUtf32BeNullPadded<N>) -> Result<String, FixedUtf32Error> {
        vstd::pervasive::arbitrary()
    }
}

impl<const N: usize> TryFrom<&FixedUtf32BeSpacePadded<N>> for String {
    type Error = FixedUtf32Error;

    /// Decodes the host-order code units left after dropping trailing spaces.
    fn try_from(v: &FixedUtf32BeSpacePadded<N>) -> (r: Result<String, FixedUtf32Error>)
        ensures
            match r {
                Ok(s) => unicode::decode_utf32(trim_end(big_natives(v.0@), 0x20u32)) == Some(s@),
                Err(e) => e == FixedUtf32Error::InvalidUtf32 && unicode::decode_utf32(
                    trim_end(big_natives(v.0@), 0x20u32),
                ) is None,
            },
    {
        let units = v.0.as_units();
        let ghost n = big_natives(v.0@);
        let mut end: usize = N;
        assert(n.take(N as int) =~= n);
        while end > 0 && units[end - 1].to_native() == 0x20
            invariant
                end <= N,
                units@ == v.0@,
                units@.len() == N,
                n == big_natives(v.0@),
                trim_end(n, 0x20u32) == trim_end(n.take(end as int), 0x20u32),
            decreases end,
        {
            proof {
                lemma_trim_end_step(n, 0x20u32, end as int);
            }
            end = end - 1;
        }
        proof {
            lemma_trim_end_done(n.take(end as int), 0x20u32);
        }
        let prefix = vstd::slice::slice_subrange(units.as_slice(), 0, end);
        assert(big_natives(prefix@) =~= n.take(end as int));
        match String::try_from(Utf32StrBE::from(prefix)) {
            Ok(s) => Ok(s),
            Err(_) => Err(FixedUtf32Error::InvalidUtf32),
        }
    }
}

impl<const N: usize> vstd::std_specs::convert::TryFromSpecImpl<&FixedUtf32BeSpacePadded<N>> for String {
    /// A `String` cannot be built in a specification, so the contract is the `ensures` of
    /// `try_from` itself.
    open spec fn obeys_try_from_spec() -> bool {
        false
    }

    open spec fn try_from_spec(v: &FixedUtf32BeSpacePadded<N>) -> Result<String, FixedUtf32Error> {
        vstd::pervasive::arbitrary()
    }
}

/// Little-endian code units whose host-order values are put in big-endian form, kept as raw bits.
pub open spec fn le_units_in_be_form32(u: Seq<LittleEndian<u32>>) -> Seq<LittleEndian<u32>> {
    u.map_values(|x: LittleEndian<u32>| LittleEndian(spec_u32_to_be(x.spec_native())))
}

/// Big-endian code units whose host-order values are put in little-endian form, kept as raw bits.
pub open spec fn be_units_in_le_form32(u: Seq<BigEndian<u32>>) -> Seq<BigEndian<u32>> {
    u.map_values(|x: BigEndian<u32>| BigEndian(spec_u32_to_le(x.spec_native())))
}

/// Converting a host-order value to either byte order twice gives it back.
proof fn lemma_double_conversion32(b: u32)
    ensures
        spec_u32_to_be(spec_u32_to_le(spec_u32_to_be(spec_u32_to_le(b)))) == b,
        spec_u32_to_le(spec_u32_to_be(spec_u32_to_le(spec_u32_to_be(b)))) == b,
        spec_u32_to_le(spec_u32_to_le(b)) == b,
        spec_u32_to_be(spec_u32_to_be(b)) == b,
{
    lemma_swap32_involution(b);
}

/// Puts the host-order value of each little-endian unit in big-endian form, as raw bits.
fn le_units_to_be_form32<const N: usize>(v: &FixedUtf32LeCodeUnits<N>) -> (r: FixedUtf32LeCodeUnits<N>)
    ensures
        r == (FixedUtf32CodeUnitsEndian { units: array_of(v.units, le_units_in_be_form32(v@)) }),
{
    let mut units = v.units;
    let mut i: usize = 0;
    while i < N
        invariant
            i <= N,
            units@.len() == N,
            v.units@.len() == N,
            forall|j: int| 0 <= j < i ==> units@[j] == le_units_in_be_form32(v@)[j],
        decreases N - i,
    {
        let native = v.units[i].to_native();
        units[i] = LittleEndian::from_bits(native.to_big_endian());
        i = i + 1;
    }
    proof {
        lemma_array_of(v.units, le_units_in_be_form32(v@));
        assert(units@ =~= le_units_in_be_form32(v@));
        lemma_array_eq(units, array_of(v.units, le_units_in_be_form32(v@)));
    }
    FixedUtf32CodeUnitsEndian { units }
}

/// Puts the host-order value of each big-endian unit in little-endian form, as raw bits.
fn be_units_to_le_form32<const N: usize>(v: &FixedUtf32BeCodeUnits<N>) -> (r: FixedUtf32BeCodeUnits<N>)
    ensures
        r == (FixedUtf32CodeUnitsEndian { units: array_of(v.units, be_units_in_le_form32(v@)) }),
{
    let mut units = v.units;
    let mut i: usize = 0;
    while i < N
        invariant
            i <= N,
            units@.len() == N,
            v.units@.len() == N,
            forall|j: int| 0 <= j < i ==> units@[j] == be_units_in_le_form32(v@)[j],
        decreases N - i,
    {
        let native = v.units[i].to_native();
        units[i] = BigEndian::from_bits(native.to_little_endian());
        i = i + 1;
    }
    proof {
        lemma_array_of(v.units, be_units_in_le_form32(v@));
        assert(units@ =~= be_units_in_le_form32(v@));
        lemma_array_eq(units, array_of(v.units, be_units_in_le_form32(v@)));
    }
    FixedUtf32CodeUnitsEndian { units }
}

impl<const N: usize> SpecificEndian<FixedUtf32LeCodeUnits<N>> for FixedUtf32LeCodeUnits<N> {
    /// Each unit's host-order value in big-endian form, kept as raw little-endian bits.
    closed spec fn spec_to_big_endian(&self) -> FixedUtf32LeCodeUnits<N> {
        FixedUtf32CodeUnitsEndian { units: array_of(self.units, le_units_in_be_form32(self@)) }
    }

    closed spec fn spec_to_little_endian(&self) -> FixedUtf32LeCodeUnits<N> {
        *self
    }

    /// Each unit's host-order value read as big-endian, kept as raw little-endian bits.
    closed spec fn spec_from_big_endian(&self) -> FixedUtf32LeCodeUnits<N> {
        FixedUtf32CodeUnitsEndian { units: array_of(self.units, le_units_in_be_form32(self@)) }
    }

    closed spec fn spec_from_little_endian(&self) -> FixedUtf32LeCodeUnits<N> {
        *self
    }

    fn to_big_endian(&self) -> (r: FixedUtf32LeCodeUnits<N>) {
        le_units_to_be_form32(self)
    }

    fn to_little_endian(&self) -> (r: FixedUtf32LeCodeUnits<N>) {
        *self
    }

    fn from_big_endian(&self) -> (r: FixedUtf32LeCodeUnits<N>) {
        le_units_to_be_form32(self)
    }

    fn from_little_endian(&self) -> (r: FixedUtf32LeCodeUnits<N>) {
        *self
    }
}

impl<const N: usize> SpecificEndian<FixedUtf32BeCodeUnits<N>> for FixedUtf32BeCodeUnits<N> {
    closed spec fn spec_to_big_endian(&self) -> FixedUtf32BeCodeUnits<N> {
        *self
    }

    /// Each unit's host-order value in little-endian form, kept as raw big-endian bits.
    closed spec fn spec_to_little_endian(&self) -> FixedUtf32BeCodeUnits<N> {
        FixedUtf32CodeUnitsEndian { units: array_of(self.units, be_units_in_le_form32(self@)) }
    }

    closed spec fn spec_from_big_endian(&self) -> FixedUtf32BeCodeUnits<N> {
        *self
    }

    /// Each unit's host-order value read as little-endian, kept as raw big-endian bits.
    closed spec fn spec_from_little_endian(&self) -> FixedUtf32BeCodeUnits<N> {
        FixedUtf32CodeUnitsEndian { units: array_of(self.units, be_units_in_le_form32(self@)) }
    }

    fn to_big_endian(&self) -> (r: FixedUtf32BeCodeUnits<N>) {
        *self
    }

    fn to_little_endian(&self) -> (r: FixedUtf32BeCodeUnits<N>) {
        be_units_to_le_form32(self)
    }

    fn from_big_endian(&self) -> (r: FixedUtf32BeCodeUnits<N>) {
        *self
    }

    fn from_little_endian(&self) -> (r: FixedUtf32BeCodeUnits<N>) {
        be_units_to_le_form32(self)
    }
}

/// Fixed code units stored through `BigEndian` or `LittleEndian` read back unchanged, in both
/// byte orders.
pub proof fn law_fixed_utf32_round_trip<const N: usize>(l: FixedUtf32LeCodeUnits<N>, b: FixedUtf32BeCodeUnits<N>)
    ensures
        round_trips(l),
        round_trips(b),
{
    let s1 = le_units_in_be_form32(l@);
    let once = FixedUtf32CodeUnitsEndian { units: array_of(l.units, s1) };
    lemma_array_of(l.units, s1);
    let s2 = le_units_in_be_form32(once@);
    lemma_array_of(once.units, s2);
    assert forall|j: int| 0 <= j < N implies s2[j] == l@[j] by {
        lemma_double_conversion32(l@[j].0);
    }
    assert(s2 =~= l@);
    lemma_array_eq(array_of(once.units, s2), l.units);
    let t1 = be_units_in_le_form32(b@);
    let bonce = FixedUtf32CodeUnitsEndian { units: array_of(b.units, t1) };
    lemma_array_of(b.units, t1);
    let t2 = be_units_in_le_form32(bonce@);
    lemma_array_of(bonce.units, t2);
    assert forall|j: int| 0 <= j < N implies t2[j] == b@[j] by {
        lemma_double_conversion32(b@[j].0);
    }
    assert(t2 =~= b@);
    lemma_array_eq(array_of(bonce.units, t2), b.units);
}

impl<const N: usize> SpecificEndianOwned for FixedUtf32LeCodeUnits<N> {
    type Big = FixedUtf32BeCodeUnits<N>;

    type Little = FixedUtf32LeCodeUnits<N>;

    /// `b` holds the host-order values of `self`, each stored in big-endian form.
    open spec fn spec_is_big_form(&self, b: FixedUtf32BeCodeUnits<N>) -> bool {
        b@ == big_stored(little_natives(self@))
    }

    open spec fn spec_is_little_form(&self, l: FixedUtf32LeCodeUnits<N>) -> bool {
        l@ == self@
    }

    fn to_big_endian(&self) -> (r: FixedUtf32BeCodeUnits<N>) {
        let natives = natives_of_little(self.units.as_slice());
        let stored = store_big(natives.as_slice());
        let units: [BigEndian<u32>; N] = array_from_slice(BigEndian::from_bits(0u32), stored.as_slice());
        FixedUtf32CodeUnitsEndian { units }
    }

    fn to_little_endian(&self) -> (r: FixedUtf32LeCodeUnits<N>) {
        *self
    }

    fn from_big_endian(&self) -> (r: FixedUtf32BeCodeUnits<N>) {
        SpecificEndianOwned::to_big_endian(self)
    }

    fn from_little_endian(&self) -> (r: FixedUtf32LeCodeUnits<N>) {
        *self
    }
}

impl<const N: usize> SpecificEndianOwned for FixedUtf32BeCodeUnits<N> {
    type Big = FixedUtf32BeCodeUnits<N>;

    type Little = FixedUtf32LeCodeUnits<N>;

    open spec fn spec_is_big_form(&self, b: FixedUtf32BeCodeUnits<N>) -> bool {
        b@ == self@
    }

    /// `l` holds the host-order values of `self`, each stored in little-endian form.
    open spec fn spec_is_little_form(&self, l: FixedUtf32LeCodeUnits<N>) -> bool {
        l@ == little_stored(big_natives(self@))
    }

    fn to_big_endian(&self) -> (r: FixedUtf32BeCodeUnits<N>) {
        *self
    }

    fn to_little_endian(&self) -> (r: FixedUtf32LeCodeUnits<N>) {
        let natives = natives_of_big(self.units.as_slice());
        let stored = store_little(natives.as_slice());
        let units: [LittleEndian<u32>; N] = array_from_slice(
            LittleEndian::from_bits(0u32),
            stored.as_slice(),
        );
        FixedUtf32CodeUnitsEndian { units }
    }

    fn from_big_endian(&self) -> (r: FixedUtf32BeCodeUnits<N>) {
        *self
    }

    fn from_little_endian(&self) -> (r: FixedUtf32LeCodeUnits<N>) {
        SpecificEndianOwned::to_little_endian(self)
    }
}

impl<const N: usize> TryFrom<&str> for LittleEndian<FixedUtf32CodeUnits<N>> {
    type Error = FixedUtf32Error;

    /// Stores the UTF-32 code units of `s`, followed by zero units up to `N`, in a
    /// little-endian wrapper; only text of more than `N` code units is refused.
    fn try_from(s: &str) -> (r: Result<LittleEndian<FixedUtf32CodeUnits<N>>, FixedUtf32Error>)
        ensures
            match r {
                Ok(w) => unicode::encode_utf32(s@).len() <= N && w.spec_native()@ == little_stored(
                    pad_to(unicode::encode_utf32(s@), N as nat, 0u32),
                ),
                Err(e) => unicode::encode_utf32(s@).len() > N && e == (FixedUtf32Error::WrongCodeUnitCount {
                    expected: N,
                    found: (N + 1) as usize,
                }),
            },
    {
        match FixedUtf32LeNullPadded::<N>::try_from(s) {
            Ok(padded) => {
                let native = padded.0;
                proof {
                    law_fixed_utf32_round_trip(native, vstd::pervasive::arbitrary());
                }
                Ok(LittleEndian::from(native))
            },
            Err(e) => Err(e),
        }
    }
}

impl<const N: usize> vstd::std_specs::convert::TryFromSpecImpl<&str> for LittleEndian<FixedUtf32CodeUnits<N>> {
    /// The contract is the `ensures` of `try_from` itself.
    open spec fn obeys_try_from_spec() -> bool {
        false
    }

    open spec fn try_from_spec(s: &str) -> Result<LittleEndian<FixedUtf32CodeUnits<N>>, FixedUtf32Error> {
        vstd::pervasive::arbitrary()
    }
}

impl<const N: usize> TryFrom<String> for LittleEndian<FixedUtf32CodeUnits<N>> {
    type Error = FixedUtf32Error;

    /// Stores the UTF-32 code units of `s`, followed by zero units up to `N`, in a
    /// little-endian wrapper; only text of more than `N` code units is refused.
    fn try_from(s: String) -> (r: Result<LittleEndian<FixedUtf32CodeUnits<N>>, FixedUtf32Error>)
        ensures
            match r {
                Ok(w) => unicode::encode_utf32(s@).len() <= N && w.spec_native()@ == little_stored(
                    pad_to(unicode::encode_utf32(s@), N as nat, 0u32),
                ),
                Err(e) => unicode::encode_utf32(s@).len() > N && e == (FixedUtf32Error::WrongCodeUnitCount {
                    expected: N,
                    found: (N + 1) as usize,
                }),
            },
    {
        LittleEndian::<FixedUtf32CodeUnits<N>>::try_from(s.as_str())
    }
}

impl<const N: usize> vstd::std_specs::convert::TryFromSpecImpl<String> for LittleEndian<FixedUtf32CodeUnits<N>> {
    /// The contract is the `ensures` of `try_from` itself.
    open spec fn obeys_try_from_spec() -> bool {
        false
    }

    open spec fn try_from_spec(s: String) -> Result<LittleEndian<FixedUtf32CodeUnits<N>>, FixedUtf32Error> {
        vstd::pervasive::arbitrary()
    }
}

impl<const N: usize> TryFrom<&str> for BigEndian<FixedUtf32CodeUnits<N>> {
    type Error = FixedUtf32Error;

    /// Stores the UTF-32 code units of `s`, followed by zero units up to `N`, in a
    /// big-endian wrapper; only text of more than `N` code units is refused.
    fn try_from(s: &str) -> (r: Result<BigEndian<FixedUtf32CodeUnits<N>>, FixedUtf32Error>)
        ensures
            match r {
                Ok(w) => unicode::encode_utf32(s@).len() <= N && w.spec_native()@ == little_stored(
                    pad_to(unicode::encode_utf32(s@), N as nat, 0u32),
                ),
                Err(e) => unicode::encode_utf32(s@).len() > N && e == (FixedUtf32Error::WrongCodeUnitCount {
                    expected: N,
                    found: (N + 1) as usize,
                }),
            },
    {
        match FixedUtf32LeNullPadded::<N>::try_from(s) {
            Ok(padded) => {
                let native = padded.0;
                proof {
                    law_fixed_utf32_round_trip(native, vstd::pervasive::arbitrary());
                }
                Ok(BigEndian::from(native))
            },
            Err(e) => Err(e),
        }
    }
}

impl<const N: usize> vstd::std_specs::convert::TryFromSpecImpl<&str> for BigEndian<FixedUtf32CodeUnits<N>> {
    /// The contract is the `ensures` of `try_from` itself.
    open spec fn obeys_try_from_spec() -> bool {
        false
    }

    open spec fn try_from_spec(s: &str) -> Result<BigEndian<FixedUtf32CodeUnits<N>>, FixedUtf32Error> {
        vstd::pervasive::arbitrary()
    }
}

impl<const N: usize> TryFrom<String> for BigEndian<FixedUtf32CodeUnits<N>> {
    type Error = FixedUtf32Error;

    /// Stores the UTF-32 code units of `s`, followed by zero units up to `N`, in a
    /// big-endian wrapper; only text of more than `N` code units is refused.
    fn try_from(s: String) -> (r: Result<BigEndian<FixedUtf32CodeUnits<N>>, FixedUtf32Error>)
        ensures
            match r {
                Ok(w) => unicode::encode_utf32(s@).len() <= N && w.spec_native()@ == little_stored(
                    pad_to(unicode::encode_utf32(s@), N as nat, 0u32),
                ),
                Err(e) => unicode::encode_utf32(s@).len() > N && e == (FixedUtf32Error::WrongCodeUnitCount {
                    expected: N,
                    found: (N + 1) as usize,
                }),
            },
    {
        BigEndian::<FixedUtf32CodeUnits<N>>::try_from(s.as_str())
    }
}

impl<const N: usize> vstd::std_specs::convert::TryFromSpecImpl<String> for BigEndian<FixedUtf32CodeUnits<N>> {
    /// The contract is the `ensures` of `try_from` itself.
    open spec fn obeys_try_from_spec() -> bool {
        false
    }

    open spec fn try_from_spec(s: String) -> Result<BigEndian<FixedUtf32CodeUnits<N>>, FixedUtf32Error> {
        vstd::pervasive::arbitrary()
    }
}

/// Host-order values, stored and read back, are unchanged.
proof fn lemma_stored_natives32(x: Seq<u32>)
    ensures
        little_natives(little_stored(x)) == x,
        big_natives(big_stored(x)) == x,
{
    assert forall|j: int| 0 <= j < x.len() implies little_natives(little_stored(x))[j] == x[j]
        && big_natives(big_stored(x))[j] == x[j] by {
        lemma_double_conversion32(x[j]);
    }
    assert(little_natives(little_stored(x)) =~= x);
    assert(big_natives(big_stored(x)) =~= x);
}

/// Text of exactly `N` UTF-32 code units, stored in fixed code units (or a packed field) of
/// either byte order, decodes back unchanged on any hardware.
pub proof fn law_fixed_utf32_packed_round_trip(s: Seq<char>)
    ensures
        unicode::decode_utf32(little_natives(little_stored(unicode::encode_utf32(s)))) == Some(s),
        unicode::decode_utf32(big_natives(big_stored(unicode::encode_utf32(s)))) == Some(s),
{
    lemma_stored_natives32(unicode::encode_utf32(s));
    unicode::lemma_decode_encode_utf32(s);
}

/// Text without NUL characters whose UTF-32 code units fit in `n` decodes back unchanged from
/// a NUL-padded field of either byte order, on any hardware.
pub proof fn law_fixed_utf32_null_padded_round_trip(s: Seq<char>, n: nat)
    requires
        unicode::encode_utf32(s).len() <= n,
        !s.contains('\0'),
    ensures
        unicode::decode_utf32(
            before_first(little_natives(little_stored(pad_to(unicode::encode_utf32(s), n, 0u32))), 0u32),
        ) == Some(s),
        unicode::decode_utf32(
            before_first(big_natives(big_stored(pad_to(unicode::encode_utf32(s), n, 0u32))), 0u32),
        ) == Some(s),
{
    let u = unicode::encode_utf32(s);
    lemma_stored_natives32(pad_to(u, n, 0u32));
    unicode::lemma_utf32_no_zero(s);
    lemma_before_first_pad(u, n, 0u32);
    unicode::lemma_decode_encode_utf32(s);
}

/// Text whose UTF-32 code units fit in `n` and that does not end in a space decodes back
/// unchanged from a space-padded field of either byte order, on any hardware.
pub proof fn law_fixed_utf32_space_padded_round_trip(s: Seq<char>, n: nat)
    requires
        unicode::encode_utf32(s).len() <= n,
        s.len() == 0 || s.last() != ' ',
    ensures
        unicode::decode_utf32(
            trim_end(little_natives(little_stored(pad_to(unicode::encode_utf32(s), n, 0x20u32))), 0x20u32),
        ) == Some(s),
        unicode::decode_utf32(
            trim_end(big_natives(big_stored(pad_to(unicode::encode_utf32(s), n, 0x20u32))), 0x20u32),
        ) == Some(s),
{
    let u = unicode::encode_utf32(s);
    lemma_stored_natives32(pad_to(u, n, 0x20u32));
    lemma_trim_end_pad(u, n, 0x20u32);
    if s.len() > 0 {
        unicode::lemma_utf32_last_unit(s);
    } else {
        assert(u.len() == 0);
    }
    lemma_trim_end_done(u, 0x20u32);
    unicode::lemma_decode_encode_utf32(s);
}

/// The code units of `n` consecutive 4-byte groups of `data`, least significant byte first.
pub open spec fn le_wire_units32(data: Seq<u8>, n: nat) -> Seq<u32> {
    Seq::new(n, |i: int| le_value(data.subrange(4 * i, 4 * i + 4)) as u32)
}

/// The 4 bytes of each code unit in turn, least significant first.
pub open spec fn le_wire32(u: Seq<u32>) -> Seq<u8>
    decreases u.len(),
{
    if u.len() == 0 {
        Seq::empty()
    } else {
        le_wire32(u.drop_last()) + le_bytes(u.last() as nat, 4)
    }
}

/// The code units written by `le_wire32` are read back by `le_wire_units32`.
proof fn lemma_le_wire32(u: Seq<u32>, rest: Seq<u8>)
    ensures
        le_wire32(u).len() == 4 * u.len(),
        le_wire_units32(le_wire32(u) + rest, u.len()) == u,
    decreases u.len(),
{
    if u.len() > 0 {
        let m = u.drop_last();
        let last = le_bytes(u.last() as nat, 4);
        lemma_le_wire32(m, last + rest);
        lemma_le_bytes_len(u.last() as nat, 4);
        lemma_le_value_of_le_bytes(u.last() as nat, 4);
        reveal_with_fuel(pow256, 5);
        let d = le_wire32(u) + rest;
        assert(d =~= le_wire32(m) + (last + rest));
        assert(le_bytes(u.last() as nat, 4).len() == 4);
        assert(le_wire_units32(d, m.len()) == m);
        assert forall|i: int| 0 <= i < u.len() implies le_wire_units32(d, u.len())[i] == u[i] by {
            if i == m.len() {
                assert(d.subrange(4 * i, 4 * i + 4) =~= last);
                assert(pow256(4) == 0x100000000);
                assert((u.last() as nat) % 0x100000000 == u.last() as nat);
                assert(le_value(last) == u.last() as nat);
            } else {
                assert(le_wire_units32(d, u.len())[i] == le_wire_units32(d, m.len())[i]);
                assert(m[i] == u[i]);
            }
        }
        assert(le_wire_units32(d, u.len()) =~= u);
    }
}

impl<const N: usize> FromSlice for FixedUtf32LeCodeUnits<N> {
    /// The field's `4 * N` bytes fit in a slice's length.
    open spec fn spec_read_supported() -> bool {
        N * 4 <= usize::MAX
    }

    /// The first `4 * N` bytes, as code units in little-endian wire order, each stored in
    /// that byte order; `None` where there are fewer bytes.
    closed spec fn spec_read(data: Seq<u8>) -> Option<FixedUtf32LeCodeUnits<N>> {
        if data.len() < N * 4 {
            None
        } else {
            Some(
                FixedUtf32CodeUnitsEndian {
                    units: array_of(
                        vstd::pervasive::arbitrary(),
                        little_stored(le_wire_units32(data, N as nat)),
                    ),
                },
            )
        }
    }

    /// The host-order value of each code unit in turn, least significant byte first.
    closed spec fn spec_wire(&self) -> Option<Seq<u8>> {
        Some(le_wire32(little_natives(self@)))
    }

    fn read_from_slice(data: &[u8]) -> (r: Result<FixedUtf32LeCodeUnits<N>, &'static str>) {
        if data.len() < N * 4 {
            return Err("insufficient data");
        }
        let ghost want = little_stored(le_wire_units32(data@, N as nat));
        let zero = LittleEndian::from_bits(0u32);
        let mut out: [LittleEndian<u32>; N] = [zero; N];
        let mut i: usize = 0;
        while i < N
            invariant
                i <= N,
                N * 4 <= data@.len(),
                N * 4 <= usize::MAX,
                out@.len() == N,
                want == little_stored(le_wire_units32(data@, N as nat)),
                forall|j: int| 0 <= j < i ==> out@[j] == want[j],
            decreases N - i,
        {
            let base = 4 * i;
            let group = vstd::slice::slice_subrange(data, base, base + 4);
            let v = le_value_of(group, 4);
            proof {
                reveal_with_fuel(pow256, 5);
                assert(group@.take(4) =~= data@.subrange(base as int, base + 4));
                lemma_le_value_bound(group@.take(4).reverse());
                lemma_le_value_bound(group@.take(4));
            }
            let native = v as u32;
            out[i] = LittleEndian::from_bits(native.to_little_endian());
            i = i + 1;
        }
        proof {
            let base_arr: [LittleEndian<u32>; N] = vstd::pervasive::arbitrary();
            lemma_array_of(base_arr, want);
            assert(out@ =~= want);
            lemma_array_eq(out, array_of(base_arr, want));
        }
        Ok(FixedUtf32CodeUnitsEndian { units: out })
    }

    fn write_to_extend(&self, out: &mut Vec<u8>) -> (r: Result<(), &'static str>) {
        let ghost start = out@;
        let ghost n = little_natives(self@);
        let mut i: usize = 0;
        while i < N
            invariant
                i <= N,
                self.units@.len() == N,
                n == little_natives(self@),
                out@ == start + le_wire32(n.take(i as int)),
            decreases N - i,
        {
            let native = self.units[i].to_native();
            push_le_bytes(out, native as u128, 4);
            proof {
                assert(n.take(i + 1).drop_last() =~= n.take(i as int));
                assert(start + le_wire32(n.take(i + 1)) =~= start + le_wire32(n.take(i as int))
                    + le_bytes(native as nat, 4));
            }
            i = i + 1;
        }
        assert(n.take(N as int) =~= n);
        Ok(())
    }
}

/// What reading fixed little-endian UTF-32 code units from `data` gives, and what writing them
/// gives: the read fails exactly when `data` holds fewer than `4 * N` bytes; otherwise unit
/// `i` holds, in host order, the little-endian value of bytes `4 * i` to `4 * i + 4`, and
/// later bytes do not matter. The write gives the 4 bytes of each unit's host-order value in
/// turn, least significant first.
pub proof fn lemma_fixed_utf32_le_wire<const N: usize>(data: Seq<u8>, v: FixedUtf32LeCodeUnits<N>)
    ensures
        FixedUtf32LeCodeUnits::<N>::spec_read(data) is None <==> data.len() < N * 4,
        data.len() >= N * 4 ==> (FixedUtf32LeCodeUnits::<N>::spec_read(data) matches Some(f) && f@ == little_stored(
            le_wire_units32(data, N as nat),
        ) && little_natives(f@) == le_wire_units32(data, N as nat)),
        v.spec_wire() == Some(le_wire32(little_natives(v@))),
{
    if data.len() >= N * 4 {
        let u = le_wire_units32(data, N as nat);
        let base: [LittleEndian<u32>; N] = vstd::pervasive::arbitrary();
        lemma_array_of(base, little_stored(u));
        lemma_stored_natives32(u);
    }
}

impl<const N: usize> FromSlice for FixedUtf32LeNullPadded<N> {
    open spec fn spec_read_supported() -> bool {
        N * 4 <= usize::MAX
    }

    /// The code units that `FixedUtf32LeCodeUnits` reads.
    open spec fn spec_read(data: Seq<u8>) -> Option<FixedUtf32LeNullPadded<N>> {
        match FixedUtf32LeCodeUnits::<N>::spec_read(data) {
            Some(c) => Some(FixedUtf32LeNullPadded(c)),
            None => None,
        }
    }

    open spec fn spec_wire(&self) -> Option<Seq<u8>> {
        self.0.spec_wire()
    }

    fn read_from_slice(data: &[u8]) -> (r: Result<FixedUtf32LeNullPadded<N>, &'static str>) {
        match FixedUtf32LeCodeUnits::<N>::read_from_slice(data) {
            Ok(c) => Ok(FixedUtf32LeNullPadded(c)),
            Err(e) => Err(e),
        }
    }

    fn write_to_extend(&self, out: &mut Vec<u8>) -> (r: Result<(), &'static str>) {
        self.0.write_to_extend(out)
    }
}

impl<const N: usize> FromSlice for FixedUtf32LeSpacePadded<N> {
    open spec fn spec_read_supported() -> bool {
        N * 4 <= usize::MAX
    }

    /// The code units that `FixedUtf32LeCodeUnits` reads.
    open spec fn spec_read(data: Seq<u8>) -> Option<FixedUtf32LeSpacePadded<N>> {
        match FixedUtf32LeCodeUnits::<N>::spec_read(data) {
            Some(c) => Some(FixedUtf32LeSpacePadded(c)),
            None => None,
        }
    }

    open spec fn spec_wire(&self) -> Option<Seq<u8>> {
        self.0.spec_wire()
    }

    fn read_from_slice(data: &[u8]) -> (r: Result<FixedUtf32LeSpacePadded<N>, &'static str>) {
        match FixedUtf32LeCodeUnits::<N>::read_from_slice(data) {
            Ok(c) => Ok(FixedUtf32LeSpacePadded(c)),
            Err(e) => Err(e),
        }
    }

    fn write_to_extend(&self, out: &mut Vec<u8>) -> (r: Result<(), &'static str>) {
        self.0.write_to_extend(out)
    }
}

/// The code units of `n` consecutive 4-byte groups of `data`, most significant byte first.
pub open spec fn be_wire_units32(data: Seq<u8>, n: nat) -> Seq<u32> {
    Seq::new(n, |i: int| be_value(data.subrange(4 * i, 4 * i + 4)) as u32)
}

/// The 4 bytes of each code unit in turn, most significant first.
pub open spec fn be_wire32(u: Seq<u32>) -> Seq<u8>
    decreases u.len(),
{
    if u.len() == 0 {
        Seq::empty()
    } else {
        be_wire32(u.drop_last()) + be_bytes(u.last() as nat, 4)
    }
}

/// The code units written by `be_wire32` are read back by `be_wire_units32`.
proof fn lemma_be_wire32(u: Seq<u32>, rest: Seq<u8>)
    ensures
        be_wire32(u).len() == 4 * u.len(),
        be_wire_units32(be_wire32(u) + rest, u.len()) == u,
    decreases u.len(),
{
    if u.len() > 0 {
        let m = u.drop_last();
        let last = be_bytes(u.last() as nat, 4);
        lemma_be_wire32(m, last + rest);
        lemma_le_bytes_len(u.last() as nat, 4);
        lemma_be_value_of_be_bytes(u.last() as nat, 4);
        reveal_with_fuel(pow256, 5);
        let d = be_wire32(u) + rest;
        assert(d =~= be_wire32(m) + (last + rest));
        assert(be_bytes(u.last() as nat, 4).len() == 4);
        assert(be_wire_units32(d, m.len()) == m);
        assert forall|i: int| 0 <= i < u.len() implies be_wire_units32(d, u.len())[i] == u[i] by {
            if i == m.len() {
                assert(d.subrange(4 * i, 4 * i + 4) =~= last);
                assert(pow256(4) == 0x100000000);
                assert((u.last() as nat) % 0x100000000 == u.last() as nat);
                assert(be_value(last) == u.last() as nat);
            } else {
                assert(be_wire_units32(d, u.len())[i] == be_wire_units32(d, m.len())[i]);
                assert(m[i] == u[i]);
            }
        }
        assert(be_wire_units32(d, u.len()) =~= u);
    }
}

impl<const N: usize> FromSlice for FixedUtf32BeCodeUnits<N> {
    /// The field's `4 * N` bytes fit in a slice's length.
    open spec fn spec_read_supported() -> bool {
        N * 4 <= usize::MAX
    }

    /// The first `4 * N` bytes, as code units in big-endian wire order, each stored in
    /// that byte order; `None` where there are fewer bytes.
    closed spec fn spec_read(data: Seq<u8>) -> Option<FixedUtf32BeCodeUnits<N>> {
        if data.len() < N * 4 {
            None
        } else {
            Some(
                FixedUtf32CodeUnitsEndian {
                    units: array_of(
                        vstd::pervasive::arbitrary(),
                        big_stored(be_wire_units32(data, N as nat)),
                    ),
                },
            )
        }
    }

    /// The host-order value of each code unit in turn, most significant byte first.
    closed spec fn spec_wire(&self) -> Option<Seq<u8>> {
        Some(be_wire32(big_natives(self@)))
    }

    fn read_from_slice(data: &[u8]) -> (r: Result<FixedUtf32BeCodeUnits<N>, &'static str>) {
        if data.len() < N * 4 {
            return Err("insufficient data");
        }
        let ghost want = big_stored(be_wire_units32(data@, N as nat));
        let zero = BigEndian::from_bits(0u32);
        let mut out: [BigEndian<u32>; N] = [zero; N];
        let mut i: usize = 0;
        while i < N
            invariant
                i <= N,
                N * 4 <= data@.len(),
                N * 4 <= usize::MAX,
                out@.len() == N,
                want == big_stored(be_wire_units32(data@, N as nat)),
                forall|j: int| 0 <= j < i ==> out@[j] == want[j],
            decreases N - i,
        {
            let base = 4 * i;
            let group = vstd::slice::slice_subrange(data, base, base + 4);
            let v = be_value_of(group, 4);
            proof {
                reveal_with_fuel(pow256, 5);
                assert(group@.take(4) =~= data@.subrange(base as int, base + 4));
                lemma_le_value_bound(group@.take(4).reverse());
                lemma_le_value_bound(group@.take(4));
            }
            let native = v as u32;
            out[i] = BigEndian::from_bits(native.to_big_endian());
            i = i + 1;
        }
        proof {
            let base_arr: [BigEndian<u32>; N] = vstd::pervasive::arbitrary();
            lemma_array_of(base_arr, want);
            assert(out@ =~= want);
            lemma_array_eq(out, array_of(base_arr, want));
        }
        Ok(FixedUtf32CodeUnitsEndian { units: out })
    }

    fn write_to_extend(&self, out: &mut Vec<u8>) -> (r: Result<(), &'static str>) {
        let ghost start = out@;
        let ghost n = big_natives(self@);
        let mut i: usize = 0;
        while i < N
            invariant
                i <= N,
                self.units@.len() == N,
                n == big_natives(self@),
                out@ == start + be_wire32(n.take(i as int)),
            decreases N - i,
        {
            let native = self.units[i].to_native();
            push_be_bytes(out, native as u128, 4);
            proof {
                assert(n.take(i + 1).drop_last() =~= n.take(i as int));
                assert(start + be_wire32(n.take(i + 1)) =~= start + be_wire32(n.take(i as int))
                    + be_bytes(native as nat, 4));
            }
            i = i + 1;
        }
        assert(n.take(N as int) =~= n);
        Ok(())
    }
}

/// What reading fixed big-endian UTF-32 code units from `data` gives, and what writing them
/// gives: the read fails exactly when `data` holds fewer than `4 * N` bytes; otherwise unit
/// `i` holds, in host order, the big-endian value of bytes `4 * i` to `4 * i + 4`, and
/// later bytes do not matter. The write gives the 4 bytes of each unit's host-order value in
/// turn, most significant first.
pub proof fn lemma_fixed_utf32_be_wire<const N: usize>(data: Seq<u8>, v: FixedUtf32BeCodeUnits<N>)
    ensures
        FixedUtf32BeCodeUnits::<N>::spec_read(data) is None <==> data.len() < N * 4,
        data.len() >= N * 4 ==> (FixedUtf32BeCodeUnits::<N>::spec_read(data) matches Some(f) && f@ == big_stored(
            be_wire_units32(data, N as nat),
        ) && big_natives(f@) == be_wire_units32(data, N as nat)),
        v.spec_wire() == Some(be_wire32(big_natives(v@))),
{
    if data.len() >= N * 4 {
        let u = be_wire_units32(data, N as nat);
        let base: [BigEndian<u32>; N] = vstd::pervasive::arbitrary();
        lemma_array_of(base, big_stored(u));
        lemma_stored_natives32(u);
    }
}

impl<const N: usize> FromSlice for FixedUtf32BeNullPadded<N> {
    open spec fn spec_read_supported() -> bool {
        N * 4 <= usize::MAX
    }

    /// The code units that `FixedUtf32BeCodeUnits` reads.
    open spec fn spec_read(data: Seq<u8>) -> Option<FixedUtf32BeNullPadded<N>> {
        match FixedUtf32BeCodeUnits::<N>::spec_read(data) {
            Some(c) => Some(FixedUtf32BeNullPadded(c)),
            None => None,
        }
    }

    open spec fn spec_wire(&self) -> Option<Seq<u8>> {
        self.0.spec_wire()
    }

    fn read_from_slice(data: &[u8]) -> (r: Result<FixedUtf32BeNullPadded<N>, &'static str>) {
        match FixedUtf32BeCodeUnits::<N>::read_from_slice(data) {
            Ok(c) => Ok(FixedUtf32BeNullPadded(c)),
            Err(e) => Err(e),
        }
    }

    fn write_to_extend(&self, out: &mut Vec<u8>) -> (r: Result<(), &'static str>) {
        self.0.write_to_extend(out)
    }
}

impl<const N: usize> FromSlice for FixedUtf32BeSpacePadded<N> {
    open spec fn spec_read_supported() -> bool {
        N * 4 <= usize::MAX
    }

    /// The code units that `FixedUtf32BeCodeUnits` reads.
    open spec fn spec_read(data: Seq<u8>) -> Option<FixedUtf32BeSpacePadded<N>> {
        match FixedUtf32BeCodeUnits::<N>::spec_read(data) {
            Some(c) => Some(FixedUtf32BeSpacePadded(c)),
            None => None,
        }
    }

    open spec fn spec_wire(&self) -> Option<Seq<u8>> {
        self.0.spec_wire()
    }

    fn read_from_slice(data: &[u8]) -> (r: Result<FixedUtf32BeSpacePadded<N>, &'static str>) {
        match FixedUtf32BeCodeUnits::<N>::read_from_slice(data) {
            Ok(c) => Ok(FixedUtf32BeSpacePadded(c)),
            Err(e) => Err(e),
        }
    }

    fn write_to_extend(&self, out: &mut Vec<u8>) -> (r: Result<(), &'static str>) {
        self.0.write_to_extend(out)
    }
}

/// What `write_to_extend` writes of fixed UTF-32 code units, `read_from_slice` reads back,
/// whatever bytes follow; in both byte orders.
pub proof fn law_fixed_utf32_wire_round_trip<const N: usize>(l: FixedUtf32LeCodeUnits<N>, b: FixedUtf32BeCodeUnits<N>, rest: Seq<u8>)
    requires
        N * 4 <= usize::MAX,
    ensures
        l.spec_wire() matches Some(w) && FixedUtf32LeCodeUnits::<N>::spec_read(w + rest) == Some(l),
        b.spec_wire() matches Some(w) && FixedUtf32BeCodeUnits::<N>::spec_read(w + rest) == Some(b),
{
    let ln = little_natives(l@);
    lemma_le_wire32(ln, rest);
    assert forall|j: int| 0 <= j < N implies little_stored(ln)[j] == l@[j] by {
        lemma_double_conversion32(l@[j].0);
    }
    assert(little_stored(ln) =~= l@);
    let lbase: [LittleEndian<u32>; N] = vstd::pervasive::arbitrary();
    lemma_array_of(lbase, l@);
    lemma_array_eq(array_of(lbase, l@), l.units);
    let bn = big_natives(b@);
    lemma_be_wire32(bn, rest);
    assert forall|j: int| 0 <= j < N implies big_stored(bn)[j] == b@[j] by {
        lemma_double_conversion32(b@[j].0);
    }
    assert(big_stored(bn) =~= b@);
    let bbase: [BigEndian<u32>; N] = vstd::pervasive::arbitrary();
    lemma_array_of(bbase, b@);
    lemma_array_eq(array_of(bbase, b@), b.units);
}

} // verus!
