//! Fixed-size UTF-8 byte fields. UTF-8 has no byte order: the wire form is the `N` bytes.
use vstd::prelude::*;

use crate::messages::{decimal, fixed_text, two_numbers};
use vstd::utf8::{decode_utf8, encode_utf8, valid_utf8};

use crate::io::FromSlice;
use crate::text_ops::fixed::arrays::{array_from_slice, array_of, fill_then_copy, lemma_array_eq, lemma_array_of};
use crate::text_ops::fixed::padding::{lemma_trim_end_done, lemma_trim_end_pad, lemma_trim_end_step, pad_to, trim_end};

verus! {

broadcast use vstd::utf8::encode_utf8_decode_utf8;

/// Errors for fixed UTF-8 byte storage.
#[derive(Clone, Copy, Debug, Eq, PartialEq)]
pub enum FixedUtf8Error {
    /// Input had more than `N` bytes (after encoding), so it cannot fit.
    TooManyBytes { max: usize, found: usize },
    /// Input bytes are not valid UTF-8.
    InvalidUtf8,
}

impl FixedUtf8Error {
    /// The error's message (what `Display` writes).
    pub fn to_string(&self) -> (r: String)
        ensures
            match *self {
                FixedUtf8Error::TooManyBytes { max, found } => r@ == "UTF-8 string too long (max "@
                    + decimal(max as nat) + " bytes, found "@ + decimal(found as nat) + ")"@,
                FixedUtf8Error::InvalidUtf8 => r@ == "invalid UTF-8"@,
            },
    {
        match self {
            FixedUtf8Error::TooManyBytes { max, found } => two_numbers(
                "UTF-8 string too long (max ",
                *max,
                " bytes, found ",
                *found,
                ")",
            ),
            FixedUtf8Error::InvalidUtf8 => fixed_text("invalid UTF-8"),
        }
    }
}

/// Inline, fixed-size UTF-8 bytes.
#[derive(Clone, Copy, Debug, Eq, PartialEq, Hash, PartialOrd)]
pub struct FixedUtf8Bytes<const N: usize> {
    pub(crate) bytes: [u8; N],
}

/// A borrowed reference to exactly `N` UTF-8 bytes.
#[derive(Clone, Copy, Debug, Eq, PartialEq, Hash, PartialOrd)]
pub struct FixedUtf8BytesRef<'a, const N: usize>(pub &'a [u8; N]);

impl<const N: usize> View for FixedUtf8Bytes<N> {
    type V = Seq<u8>;

    /// The stored bytes.
    closed spec fn view(&self) -> Seq<u8> {
        self.bytes@
    }
}

impl<const N: usize> FixedUtf8Bytes<N> {
    /// The stored bytes always number `N`.
    pub proof fn lemma_len(&self)
        ensures
            self@.len() == N,
    {
    }

    /// Returns the stored bytes.
    pub fn as_bytes(&self) -> (r: &[u8; N])
        ensures
            r@ == self@,
    {
        &self.bytes
    }
}

impl<'a, const N: usize> FixedUtf8BytesRef<'a, N> {
    /// Returns the referenced bytes.
    pub fn as_bytes(&self) -> (r: &'a [u8; N])
        ensures
            r@ == self.0@,
    {
        self.0
    }
}

impl<const N: usize> From<[u8; N]> for FixedUtf8Bytes<N> {
    fn from(bytes: [u8; N]) -> (r: Self)
        ensures
            r@ == bytes@,
    {
        FixedUtf8Bytes { bytes }
    }
}

impl<const N: usize> vstd::std_specs::convert::FromSpecImpl<[u8; N]> for FixedUtf8Bytes<N> {
    open spec fn obeys_from_spec() -> bool {
        true
    }

    closed spec fn from_spec(bytes: [u8; N]) -> FixedUtf8Bytes<N> {
        FixedUtf8Bytes { bytes }
    }
}

impl<'a, const N: usize> From<&'a [u8; N]> for FixedUtf8BytesRef<'a, N> {
    fn from(v: &'a [u8; N]) -> (r: Self) {
        FixedUtf8BytesRef(v)
    }
}

impl<'a, const N: usize> vstd::std_specs::convert::FromSpecImpl<&'a [u8; N]> for FixedUtf8BytesRef<'a, N> {
    open spec fn obeys_from_spec() -> bool {
        true
    }

    open spec fn from_spec(v: &'a [u8; N]) -> FixedUtf8BytesRef<'a, N> {
        FixedUtf8BytesRef(v)
    }
}

/// NUL-padded fixed UTF-8 bytes.
#[derive(Clone, Copy, Debug, Eq, PartialEq, Hash, PartialOrd)]
pub struct FixedUtf8NullPadded<const N: usize>(pub FixedUtf8Bytes<N>);

/// Space-padded fixed UTF-8 bytes.
#[derive(Clone, Copy, Debug, Eq, PartialEq, Hash, PartialOrd)]
pub struct FixedUtf8SpacePadded<const N: usize>(pub FixedUtf8Bytes<N>);

impl<const N: usize> From<FixedUtf8Bytes<N>> for FixedUtf8NullPadded<N> {
    fn from(v: FixedUtf8Bytes<N>) -> (r: Self) {
        FixedUtf8NullPadded(v)
    }
}

impl<const N: usize> vstd::std_specs::convert::FromSpecImpl<FixedUtf8Bytes<N>> for FixedUtf8NullPadded<N> {
    open spec fn obeys_from_spec() -> bool {
        true
    }

    open spec fn from_spec(v: FixedUtf8Bytes<N>) -> FixedUtf8NullPadded<N> {
        FixedUtf8NullPadded(v)
    }
}

impl<const N: usize> From<FixedUtf8Bytes<N>> for FixedUtf8SpacePadded<N> {
    fn from(v: FixedUtf8Bytes<N>) -> (r: Self) {
        FixedUtf8SpacePadded(v)
    }
}

impl<const N: usize> vstd::std_specs::convert::FromSpecImpl<FixedUtf8Bytes<N>> for FixedUtf8SpacePadded<N> {
    open spec fn obeys_from_spec() -> bool {
        true
    }

    open spec fn from_spec(v: FixedUtf8Bytes<N>) -> FixedUtf8SpacePadded<N> {
        FixedUtf8SpacePadded(v)
    }
}

impl<const N: usize> From<FixedUtf8NullPadded<N>> for FixedUtf8Bytes<N> {
    fn from(v: FixedUtf8NullPadded<N>) -> (r: Self) {
        v.0
    }
}

impl<const N: usize> vstd::std_specs::convert::FromSpecImpl<FixedUtf8NullPadded<N>> for FixedUtf8Bytes<N> {
    open spec fn obeys_from_spec() -> bool {
        true
    }

    open spec fn from_spec(v: FixedUtf8NullPadded<N>) -> FixedUtf8Bytes<N> {
        v.0
    }
}

impl<const N: usize> From<FixedUtf8SpacePadded<N>> for FixedUtf8Bytes<N> {
    fn from(v: FixedUtf8SpacePadded<N>) -> (r: Self) {
        v.0
    }
}

impl<const N: usize> vstd::std_specs::convert::FromSpecImpl<FixedUtf8SpacePadded<N>> for FixedUtf8Bytes<N> {
    open spec fn obeys_from_spec() -> bool {
        true
    }

    open spec fn from_spec(v: FixedUtf8SpacePadded<N>) -> FixedUtf8Bytes<N> {
        v.0
    }
}

/// The UTF-8 bytes of `s` in a field of `N` bytes, the rest filled with `pad`; an error where
/// they do not fit.
fn padded_utf8<const N: usize>(s: &str, pad: u8) -> (r: Result<FixedUtf8Bytes<N>, FixedUtf8Error>)
    ensures
        match r {
            Ok(f) => encode_utf8(s@).len() <= N && f@ == pad_to(encode_utf8(s@), N as nat, pad),
            Err(e) => encode_utf8(s@).len() > N && e == (FixedUtf8Error::TooManyBytes {
                max: N,
                found: encode_utf8(s@).len() as usize,
            }),
        },
{
    let b = s.as_bytes();
    if b.len() > N {
        return Err(FixedUtf8Error::TooManyBytes { max: N, found: b.len() });
    }
    let out: [u8; N] = fill_then_copy(pad, b);
    assert(out@ =~= pad_to(encode_utf8(s@), N as nat, pad));
    Ok(FixedUtf8Bytes { bytes: out })
}

impl<const N: usize> TryFrom<&str> for FixedUtf8NullPadded<N> {
    type Error = FixedUtf8Error;

    /// Stores the UTF-8 bytes of `s` followed by zero bytes up to `N`.
    fn try_from(s: &str) -> (r: Result<FixedUtf8NullPadded<N>, FixedUtf8Error>)
        ensures
            match r {
                Ok(f) => encode_utf8(s@).len() <= N && f.0@ == pad_to(encode_utf8(s@), N as nat, 0u8),
                Err(e) => encode_utf8(s@).len() > N && e == (FixedUtf8Error::TooManyBytes {
                    max: N,
                    found: encode_utf8(s@).len() as usize,
                }),
            },
    {
        match padded_utf8::<N>(s, 0u8) {
            Ok(f) => Ok(FixedUtf8NullPadded(f)),
            Err(e) => Err(e),
        }
    }
}

impl<const N: usize> vstd::std_specs::convert::TryFromSpecImpl<&str> for FixedUtf8NullPadded<N> {
    /// The contract is the `ensures` of `try_from` itself.
    open spec fn obeys_try_from_spec() -> bool {
        false
    }

    open spec fn try_from_spec(s: &str) -> Result<FixedUtf8NullPadded<N>, FixedUtf8Error> {
        vstd::pervasive::arbitrary()
    }
}

impl<const N: usize> TryFrom<&str> for FixedUtf8SpacePadded<N> {
    type Error = FixedUtf8Error;

    /// Stores the UTF-8 bytes of `s` followed by space bytes up to `N`.
    fn try_from(s: &str) -> (r: Result<FixedUtf8SpacePadded<N>, FixedUtf8Error>)
        ensures
            match r {
                Ok(f) => encode_utf8(s@).len() <= N && f.0@ == pad_to(encode_utf8(s@), N as nat, 0x20u8),
                Err(e) => encode_utf8(s@).len() > N && e == (FixedUtf8Error::TooManyBytes {
                    max: N,
                    found: encode_utf8(s@).len() as usize,
                }),
            },
    {
        match padded_utf8::<N>(s, 0x20u8) {
            Ok(f) => Ok(FixedUtf8SpacePadded(f)),
            Err(e) => Err(e),
        }
    }
}

impl<const N: usize> vstd::std_specs::convert::TryFromSpecImpl<&str> for FixedUtf8SpacePadded<N> {
    /// The contract is the `ensures` of `try_from` itself.
    open spec fn obeys_try_from_spec() -> bool {
        false
    }

    open spec fn try_from_spec(s: &str) -> Result<FixedUtf8SpacePadded<N>, FixedUtf8Error> {
        vstd::pervasive::arbitrary()
    }
}

impl<const N: usize> TryFrom<String> for FixedUtf8NullPadded<N> {
    type Error = FixedUtf8Error;

    /// As for `&str`.
    fn try_from(s: String) -> (r: Result<FixedUtf8NullPadded<N>, FixedUtf8Error>)
        ensures
            match r {
                Ok(f) => encode_utf8(s@).len() <= N && f.0@ == pad_to(encode_utf8(s@), N as nat, 0u8),
                Err(e) => encode_utf8(s@).len() > N && e == (FixedUtf8Error::TooManyBytes {
                    max: N,
                    found: encode_utf8(s@).len() as usize,
                }),
            },
    {
        FixedUtf8NullPadded::<N>::try_from(s.as_str())
    }
}

impl<const N: usize> vstd::std_specs::convert::TryFromSpecImpl<String> for FixedUtf8NullPadded<N> {
    /// The contract is the `ensures` of `try_from` itself.
    open spec fn obeys_try_from_spec() -> bool {
        false
    }

    open spec fn try_from_spec(s: String) -> Result<FixedUtf8NullPadded<N>, FixedUtf8Error> {
        vstd::pervasive::arbitrary()
    }
}

impl<const N: usize> TryFrom<String> for FixedUtf8SpacePadded<N> {
    type Error = FixedUtf8Error;

    /// As for `&str`.
    fn try_from(s: String) -> (r: Result<FixedUtf8SpacePadded<N>, FixedUtf8Error>)
        ensures
            match r {
                Ok(f) => encode_utf8(s@).len() <= N && f.0@ == pad_to(encode_utf8(s@), N as nat, 0x20u8),
                Err(e) => encode_utf8(s@).len() > N && e == (FixedUtf8Error::TooManyBytes {
                    max: N,
                    found: encode_utf8(s@).len() as usize,
                }),
            },
    {
        FixedUtf8SpacePadded::<N>::try_from(s.as_str())
    }
}

impl<const N: usize> vstd::std_specs::convert::TryFromSpecImpl<String> for FixedUtf8SpacePadded<N> {
    /// The contract is the `ensures` of `try_from` itself.
    open spec fn obeys_try_from_spec() -> bool {
        false
    }

    open spec fn try_from_spec(s: String) -> Result<FixedUtf8SpacePadded<N>, FixedUtf8Error> {
        vstd::pervasive::arbitrary()
    }
}

/// `bytes` without its trailing copies of `pad`.
pub(crate) fn trim_trailing(bytes: &[u8], pad: u8) -> (r: &[u8])
    ensures
        r@ == trim_end(bytes@, pad),
{
    let mut end: usize = bytes.len();
    assert(bytes@.take(end as int) =~= bytes@);
    while end > 0 && bytes[end - 1] == pad
        invariant
            end <= bytes@.len(),
            trim_end(bytes@, pad) == trim_end(bytes@.take(end as int), pad),
        decreases end,
    {
        proof {
            lemma_trim_end_step(bytes@, pad, end as int);
        }
        end = end - 1;
    }
    proof {
        lemma_trim_end_done(bytes@.take(end as int), pad);
    }
    let r = vstd::slice::slice_subrange(bytes, 0, end);
    assert(r@ =~= bytes@.take(end as int));
    r
}

/// `bytes` without its trailing zero bytes.
fn trim_null_bytes(bytes: &[u8]) -> (r: &[u8])
    ensures
        r@ == trim_end(bytes@, 0u8),
{
    trim_trailing(bytes, 0u8)
}

/// `bytes` without its trailing space bytes.
fn trim_space_bytes(bytes: &[u8]) -> (r: &[u8])
    ensures
        r@ == trim_end(bytes@, 0x20u8),
{
    trim_trailing(bytes, 0x20u8)
}

/// Calls `core::str::from_utf8`, which std documents as succeeding exactly on valid UTF-8 and
/// then giving a `str` over those same bytes.
#[verifier::external_body]
fn str_from_utf8(bytes: &[u8]) -> (r: Option<&str>)
    ensures
        match r {
            Some(s) => valid_utf8(bytes@) && encode_utf8(s@) == bytes@,
            None => !valid_utf8(bytes@),
        },
{
    core::str::from_utf8(bytes).ok()
}

/// Decodes UTF-8 bytes into a `String`.
fn utf8_to_string(bytes: &[u8]) -> (r: Result<String, FixedUtf8Error>)
    ensures
        match r {
            Ok(s) => valid_utf8(bytes@) && s@ == decode_utf8(bytes@),
            Err(e) => e == FixedUtf8Error::InvalidUtf8 && !valid_utf8(bytes@),
        },
{
    match str_from_utf8(bytes) {
        Some(s) => Ok(s.to_string()),
        None => Err(FixedUtf8Error::InvalidUtf8),
    }
}

impl<const N: usize> TryFrom<&FixedUtf8NullPadded<N>> for String {
    type Error = FixedUtf8Error;

    /// Decodes the bytes left after dropping all trailing zero bytes.
    fn try_from(v: &FixedUtf8NullPadded<N>) -> (r: Result<String, FixedUtf8Error>)
        ensures
            match r {
                Ok(s) => valid_utf8(trim_end(v.0@, 0u8)) && s@ == decode_utf8(trim_end(v.0@, 0u8)),
                Err(e) => e == FixedUtf8Error::InvalidUtf8 && !valid_utf8(trim_end(v.0@, 0u8)),
            },
    {
        let trimmed = trim_null_bytes(v.0.bytes.as_slice());
        utf8_to_string(trimmed)
    }
}

impl<const N: usize> vstd::std_specs::convert::TryFromSpecImpl<&FixedUtf8NullPadded<N>> for String {
    /// A `String` cannot be built in a specification, so the contract is the `ensures` of
    /// `try_from` itself.
    open spec fn obeys_try_from_spec() -> bool {
        false
    }

    open spec fn try_from_spec(v: &FixedUtf8NullPadded<N>) -> Result<String, FixedUtf8Error> {
        vstd::pervasive::arbitrary()
    }
}

impl<const N: usize> TryFrom<&FixedUtf8SpacePadded<N>> for String {
    type Error = FixedUtf8Error;

    /// Decodes the bytes left after dropping all trailing space bytes.
    fn try_from(v: &FixedUtf8SpacePadded<N>) -> (r: Result<String, FixedUtf8Error>)
        ensures
            match r {
                Ok(s) => valid_utf8(trim_end(v.0@, 0x20u8)) && s@ == decode_utf8(trim_end(v.0@, 0x20u8)),
                Err(e) => e == FixedUtf8Error::InvalidUtf8 && !valid_utf8(trim_end(v.0@, 0x20u8)),
            },
    {
        let trimmed = trim_space_bytes(v.0.bytes.as_slice());
        utf8_to_string(trimmed)
    }
}

impl<const N: usize> vstd::std_specs::convert::TryFromSpecImpl<&FixedUtf8SpacePadded<N>> for String {
    /// A `String` cannot be built in a specification, so the contract is the `ensures` of
    /// `try_from` itself.
    open spec fn obeys_try_from_spec() -> bool {
        false
    }

    open spec fn try_from_spec(v: &FixedUtf8SpacePadded<N>) -> Result<String, FixedUtf8Error> {
        vstd::pervasive::arbitrary()
    }
}

impl<const N: usize> From<&FixedUtf8NullPadded<N>> for Vec<u8> {
    /// Copies all `N` stored bytes, padding included.
    fn from(v: &FixedUtf8NullPadded<N>) -> (r: Vec<u8>)
        ensures
            r@ == v.0@,
    {
        vstd::slice::slice_to_vec(v.0.bytes.as_slice())
    }
}

impl<const N: usize> vstd::std_specs::convert::FromSpecImpl<&FixedUtf8NullPadded<N>> for Vec<u8> {
    /// A vector cannot be built in a specification, so the contract is the `ensures` of `from`.
    open spec fn obeys_from_spec() -> bool {
        false
    }

    open spec fn from_spec(v: &FixedUtf8NullPadded<N>) -> Vec<u8> {
        vstd::pervasive::arbitrary()
    }
}

impl<const N: usize> From<&FixedUtf8SpacePadded<N>> for Vec<u8> {
    /// Copies all `N` stored bytes, padding included.
    fn from(v: &FixedUtf8SpacePadded<N>) -> (r: Vec<u8>)
        ensures
            r@ == v.0@,
    {
        vstd::slice::slice_to_vec(v.0.bytes.as_slice())
    }
}

impl<const N: usize> vstd::std_specs::convert::FromSpecImpl<&FixedUtf8SpacePadded<N>> for Vec<u8> {
    /// A vector cannot be built in a specification, so the contract is the `ensures` of `from`.
    open spec fn obeys_from_spec() -> bool {
        false
    }

    open spec fn from_spec(v: &FixedUtf8SpacePadded<N>) -> Vec<u8> {
        vstd::pervasive::arbitrary()
    }
}

/// The field made of the first `N` bytes of `data`, where there are that many.
pub closed spec fn read_utf8_bytes<const N: usize>(data: Seq<u8>) -> Option<FixedUtf8Bytes<N>> {
    if data.len() < N {
        None
    } else {
        Some(FixedUtf8Bytes { bytes: array_of(vstd::pervasive::arbitrary(), data.take(N as int)) })
    }
}

/// What `read_utf8_bytes` gives: nothing exactly when `data` holds fewer than `N` bytes, and
/// otherwise the field holding the first `N` bytes of `data`.
pub proof fn lemma_read_utf8_bytes<const N: usize>(data: Seq<u8>)
    ensures
        read_utf8_bytes::<N>(data) is None <==> data.len() < N,
        data.len() >= N ==> (read_utf8_bytes::<N>(data) matches Some(f) && f@ == data.take(
            N as int,
        )),
{
    if data.len() >= N {
        let base: [u8; N] = vstd::pervasive::arbitrary();
        lemma_array_of(base, data.take(N as int));
    }
}

/// Reads the first `N` bytes of `data`.
fn read_utf8_field<const N: usize>(data: &[u8]) -> (r: Result<FixedUtf8Bytes<N>, &'static str>)
    ensures
        match r {
            Ok(f) => read_utf8_bytes::<N>(data@) == Some(f),
            Err(e) => read_utf8_bytes::<N>(data@) is None && e@ == "insufficient data"@,
        },
{
    if data.len() < N {
        return Err("insufficient data");
    }
    let head = vstd::slice::slice_subrange(data, 0, N);
    let out: [u8; N] = array_from_slice(0u8, head);
    proof {
        let base: [u8; N] = vstd::pervasive::arbitrary();
        assert(head@ =~= data@.take(N as int));
        lemma_array_of(base, data@.take(N as int));
        lemma_array_eq(out, array_of(base, data@.take(N as int)));
    }
    Ok(FixedUtf8Bytes { bytes: out })
}

/// Appends the `N` stored bytes.
fn write_utf8_field<const N: usize>(v: &FixedUtf8Bytes<N>, out: &mut Vec<u8>)
    ensures
        final(out)@ == old(out)@ + v@,
{
    let ghost start = out@;
    let mut i: usize = 0;
    while i < N
        invariant
            i <= N,
            v.bytes@.len() == N,
            out@ == start + v@.take(i as int),
        decreases N - i,
    {
        out.push(v.bytes[i]);
        assert(v@.take(i + 1) =~= v@.take(i as int).push(v@[i as int]));
        i = i + 1;
    }
    assert(v@.take(N as int) =~= v@);
}

impl<const N: usize> FromSlice for FixedUtf8NullPadded<N> {
    open spec fn spec_read_supported() -> bool {
        true
    }

    /// The first `N` bytes, as they are; `None` where there are fewer.
    open spec fn spec_read(data: Seq<u8>) -> Option<FixedUtf8NullPadded<N>> {
        match read_utf8_bytes::<N>(data) {
            Some(b) => Some(FixedUtf8NullPadded(b)),
            None => None,
        }
    }

    /// The `N` stored bytes.
    open spec fn spec_wire(&self) -> Option<Seq<u8>> {
        Some(self.0@)
    }

    fn read_from_slice(data: &[u8]) -> (r: Result<FixedUtf8NullPadded<N>, &'static str>) {
        match read_utf8_field::<N>(data) {
            Ok(b) => Ok(FixedUtf8NullPadded(b)),
            Err(e) => Err(e),
        }
    }

    fn write_to_extend(&self, out: &mut Vec<u8>) -> (r: Result<(), &'static str>) {
        write_utf8_field(&self.0, out);
        Ok(())
    }
}

impl<const N: usize> FromSlice for FixedUtf8SpacePadded<N> {
    open spec fn spec_read_supported() -> bool {
        true
    }

    /// The first `N` bytes, as they are; `None` where there are fewer.
    open spec fn spec_read(data: Seq<u8>) -> Option<FixedUtf8SpacePadded<N>> {
        match read_utf8_bytes::<N>(data) {
            Some(b) => Some(FixedUtf8SpacePadded(b)),
            None => None,
        }
    }

    /// The `N` stored bytes.
    open spec fn spec_wire(&self) -> Option<Seq<u8>> {
        Some(self.0@)
    }

    fn read_from_slice(data: &[u8]) -> (r: Result<FixedUtf8SpacePadded<N>, &'static str>) {
        match read_utf8_field::<N>(data) {
            Ok(b) => Ok(FixedUtf8SpacePadded(b)),
            Err(e) => Err(e),
        }
    }

    fn write_to_extend(&self, out: &mut Vec<u8>) -> (r: Result<(), &'static str>) {
        write_utf8_field(&self.0, out);
        Ok(())
    }
}

/// What `write_to_extend` writes of a fixed UTF-8 field, `read_from_slice` reads back, whatever
/// bytes follow.
pub proof fn law_fixed_utf8_wire_round_trip<const N: usize>(
    z: FixedUtf8NullPadded<N>,
    p: FixedUtf8SpacePadded<N>,
    rest: Seq<u8>,
)
    ensures
        FixedUtf8NullPadded::<N>::spec_read(z.0@ + rest) == Some(z),
        FixedUtf8SpacePadded::<N>::spec_read(p.0@ + rest) == Some(p),
{
    let base: [u8; N] = vstd::pervasive::arbitrary();
    assert((z.0@ + rest).take(N as int) =~= z.0@);
    lemma_array_of(base, z.0@);
    lemma_array_eq(array_of(base, z.0@), z.0.bytes);
    assert((p.0@ + rest).take(N as int) =~= p.0@);
    lemma_array_of(base, p.0@);
    lemma_array_eq(array_of(base, p.0@), p.0.bytes);
}

/// Text whose UTF-8 form fits in `n` bytes and does not end in a zero byte decodes back
/// unchanged from a NUL-padded field.
pub proof fn law_fixed_utf8_null_padded_round_trip(s: Seq<char>, n: nat)
    requires
        encode_utf8(s).len() <= n,
        encode_utf8(s).len() == 0 || encode_utf8(s).last() != 0u8,
    ensures
        valid_utf8(trim_end(pad_to(encode_utf8(s), n, 0u8), 0u8)),
        decode_utf8(trim_end(pad_to(encode_utf8(s), n, 0u8), 0u8)) == s,
{
    lemma_trim_end_pad(encode_utf8(s), n, 0u8);
    lemma_trim_end_done(encode_utf8(s), 0u8);
    vstd::utf8::encode_utf8_valid_utf8(s);
}

/// Text whose UTF-8 form fits in `n` bytes and does not end in a space decodes back unchanged
/// from a space-padded field.
pub proof fn law_fixed_utf8_space_padded_round_trip(s: Seq<char>, n: nat)
    requires
        encode_utf8(s).len() <= n,
        encode_utf8(s).len() == 0 || encode_utf8(s).last() != 0x20u8,
    ensures
        valid_utf8(trim_end(pad_to(encode_utf8(s), n, 0x20u8), 0x20u8)),
        decode_utf8(trim_end(pad_to(encode_utf8(s), n, 0x20u8), 0x20u8)) == s,
{
    lemma_trim_end_pad(encode_utf8(s), n, 0x20u8);
    lemma_trim_end_done(encode_utf8(s), 0x20u8);
    vstd::utf8::encode_utf8_valid_utf8(s);
}

} // verus!
