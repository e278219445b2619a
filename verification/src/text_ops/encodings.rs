//! Fixed-size byte fields in a legacy (non-UTF-8) encoding, with `encoding_rs` doing the
//! character conversion: strict about malformed data and about data that does not fit.
use vstd::prelude::*;

use crate::messages::{decimal, fixed_text, two_numbers};
use encoding_rs::Encoding;

use crate::text_ops::fixed::arrays::fill_then_copy;
use crate::text_ops::fixed::padding::{lemma_trim_end_len, pad_to, trim_end};
use crate::text_ops::fixed::utf8::{FixedUtf8Bytes, FixedUtf8NullPadded, FixedUtf8SpacePadded, trim_trailing};

verus! {

#[verifier::external_type_specification]
#[verifier::external_body]
pub struct ExEncoding(encoding_rs::Encoding);

/// Errors returned by the `encoding_rs` helpers.
#[derive(Clone, Copy, Debug, Eq, PartialEq)]
pub enum EncodingRsError {
    /// Encoded/decoded data would exceed the fixed field size.
    TooManyBytes { max: usize, found: usize },
    /// Input bytes were not valid for the selected encoding.
    MalformedInput,
}

impl EncodingRsError {
    /// The error's message (what `Display` writes).
    pub fn to_string(&self) -> (r: String)
        ensures
            match *self {
                EncodingRsError::TooManyBytes { max, found } => r@
                    == "encoded text too long (max "@ + decimal(max as nat) + " bytes, found "@
                    + decimal(found as nat) + ")"@,
                EncodingRsError::MalformedInput => r@ == "malformed input for encoding"@,
            },
    {
        match self {
            EncodingRsError::TooManyBytes { max, found } => two_numbers(
                "encoded text too long (max ",
                *max,
                " bytes, found ",
                *found,
                ")",
            ),
            EncodingRsError::MalformedInput => fixed_text("malformed input for encoding"),
        }
    }
}

/// An `encoding_rs` encoding as the library knows it: by its name, which identifies it.
pub struct TextEncoding {
    name: &'static str,
    encoding: &'static Encoding,
}

impl View for TextEncoding {
    type V = Seq<char>;

    /// The encoding's name.
    closed spec fn view(&self) -> Seq<char> {
        self.name@
    }
}

/// Calls `Encoding::name`, the encoding's canonical name. The names of `encoding_rs`'s
/// encodings are distinct, so the name identifies the encoding. Nothing is stated of the text.
#[verifier::external_body]
fn encoding_name(encoding: &'static Encoding) -> (r: &'static str) {
    encoding.name()
}

impl TextEncoding {
    /// The library's handle on `encoding`.
    pub fn new(encoding: &'static Encoding) -> (r: TextEncoding) {
        TextEncoding { name: encoding_name(encoding), encoding }
    }

    /// The encoding's name.
    pub fn name(&self) -> (r: &'static str)
        ensures
            r@ == self@,
    {
        self.name
    }
}

/// What `Encoding::encode` gives for `text` under the encoding named `name`: the bytes in the
/// encoding's output encoding, and whether some character had no mapping (and was replaced).
pub uninterp spec fn encoded_by(name: Seq<char>, text: Seq<char>) -> (Seq<u8>, bool);

/// What `Encoding::decode_without_bom_handling_and_without_replacement` gives for `bytes` under
/// the encoding named `name`: the text, or `None` where the bytes hold a malformed sequence.
pub uninterp spec fn decoded_by(name: Seq<char>, bytes: Seq<u8>) -> Option<Seq<char>>;

/// Calls `Encoding::encode`, which encodes the whole text into the encoding's output encoding
/// and reports whether some character had no mapping; the bytes are copied into a `Vec`. Its
/// result depends on the encoding and the text alone, and is named `encoded_by`. The crate
/// panics only where the size of its output buffer overflows `usize`, which the bound in
/// `requires` rules out.
#[verifier::external_body]
fn encode_text(encoding: &TextEncoding, s: &str) -> (r: (Vec<u8>, bool))
    requires
        vstd::utf8::encode_utf8(s@).len() <= usize::MAX / 8,
    ensures
        (r.0@, r.1) == encoded_by(encoding@, s@),
{
    let (bytes, _, had_unmappable) = encoding.encoding.encode(s);
    (bytes.into_owned(), had_unmappable)
}

/// Calls `Encoding::decode_without_bom_handling_and_without_replacement`, which decodes the
/// whole input without looking for a byte order mark and gives `None` on a malformed
/// sequence; the text is copied into a `String`. Its result depends on the encoding and the
/// bytes alone, and is named `decoded_by`; empty input, which holds no malformed sequence,
/// decodes to empty text in every encoding. The crate panics only where the size of its
/// output buffer overflows `usize`, which the bound in `requires` rules out.
#[verifier::external_body]
fn decode_text(encoding: &TextEncoding, bytes: &[u8]) -> (r: Option<String>)
    requires
        bytes@.len() <= usize::MAX / 4,
    ensures
        decoded_by(encoding@, bytes@) == (match r {
            Some(t) => Some(t@),
            None => None::<Seq<char>>,
        }),
        bytes@.len() == 0 ==> r is Some && r->0@.len() == 0,
{
    match encoding.encoding.decode_without_bom_handling_and_without_replacement(bytes) {
        Some(text) => Some(text.into_owned()),
        None => None,
    }
}

/// What a fixed field of `n` bytes padded with `pad` holds after encoding gave `bytes`, with
/// `unmappable` telling whether some character had no mapping: the bytes padded, or the error
/// that the outcome calls for.
pub open spec fn field_from_outcome(
    bytes: Seq<u8>,
    unmappable: bool,
    n: nat,
    pad: u8,
) -> Result<Seq<u8>, EncodingRsError> {
    if unmappable {
        Err(EncodingRsError::MalformedInput)
    } else if bytes.len() > n {
        Err(EncodingRsError::TooManyBytes { max: n as usize, found: bytes.len() as usize })
    } else {
        Ok(pad_to(bytes, n, pad))
    }
}

/// The bytes of a field result, for comparison with `field_from_outcome`.
pub open spec fn field_bytes<const N: usize>(r: Result<FixedUtf8Bytes<N>, EncodingRsError>) -> Result<Seq<u8>, EncodingRsError> {
    match r {
        Ok(f) => Ok(f@),
        Err(e) => Err(e),
    }
}

/// The text of a decode result, for comparison with `text_from_outcome`.
pub open spec fn text_of(r: Result<String, EncodingRsError>) -> Result<Seq<char>, EncodingRsError> {
    match r {
        Ok(t) => Ok(t@),
        Err(e) => Err(e),
    }
}

/// The result of a strict decode whose outcome is `decoded`.
pub open spec fn text_from_outcome(decoded: Option<Seq<char>>) -> Result<Seq<char>, EncodingRsError> {
    match decoded {
        Some(t) => Ok(t),
        None => Err(EncodingRsError::MalformedInput),
    }
}

/// Builds a fixed field of `N` bytes from the outcome of encoding: `bytes` padded with `pad`,
/// or `MalformedInput` where some character had no mapping, or `TooManyBytes` where the bytes
/// do not fit.
pub fn field_from_encoded<const N: usize>(
    bytes: &[u8],
    unmappable: bool,
    pad: u8,
) -> (r: Result<FixedUtf8Bytes<N>, EncodingRsError>)
    ensures
        field_bytes(r) == field_from_outcome(bytes@, unmappable, N as nat, pad),
{
    if unmappable {
        return Err(EncodingRsError::MalformedInput);
    }
    if bytes.len() > N {
        return Err(EncodingRsError::TooManyBytes { max: N, found: bytes.len() });
    }
    let out: [u8; N] = fill_then_copy(pad, bytes);
    assert(out@ =~= pad_to(bytes@, N as nat, pad));
    Ok(FixedUtf8Bytes::from(out))
}

/// Encodes `s` with `encoding` into a fixed field of `N` bytes padded with `pad`.
fn encode_padded<const N: usize>(encoding: &TextEncoding, s: &str, pad: u8) -> (r: Result<
    FixedUtf8Bytes<N>,
    EncodingRsError,
>)
    requires
        vstd::utf8::encode_utf8(s@).len() <= usize::MAX / 8,
    ensures
        field_bytes(r) == field_from_outcome(
            encoded_by(encoding@, s@).0,
            encoded_by(encoding@, s@).1,
            N as nat,
            pad,
        ),
{
    let (bytes, unmappable) = encode_text(encoding, s);
    field_from_encoded::<N>(bytes.as_slice(), unmappable, pad)
}

/// Encodes `s` into a NUL-padded fixed field of `N` bytes with `encoding`.
///
/// Strict: unmappable characters give `MalformedInput`, and encoded bytes that do not fit
/// give `TooManyBytes`.
pub fn encode_null_padded<const N: usize>(encoding: &TextEncoding, s: &str) -> (r: Result<
    FixedUtf8NullPadded<N>,
    EncodingRsError,
>)
    requires
        vstd::utf8::encode_utf8(s@).len() <= usize::MAX / 8,
    ensures
        (match r {
            Ok(f) => Ok(f.0@),
            Err(e) => Err(e),
        }) == field_from_outcome(encoded_by(encoding@, s@).0, encoded_by(encoding@, s@).1, N as nat, 0u8),
{
    match encode_padded::<N>(encoding, s, 0u8) {
        Ok(f) => Ok(FixedUtf8NullPadded(f)),
        Err(e) => Err(e),
    }
}

/// Encodes `s` into a space-padded fixed field of `N` bytes with `encoding`.
///
/// Strict: unmappable characters give `MalformedInput`, and encoded bytes that do not fit
/// give `TooManyBytes`.
pub fn encode_space_padded<const N: usize>(encoding: &TextEncoding, s: &str) -> (r: Result<
    FixedUtf8SpacePadded<N>,
    EncodingRsError,
>)
    requires
        vstd::utf8::encode_utf8(s@).len() <= usize::MAX / 8,
    ensures
        (match r {
            Ok(f) => Ok(f.0@),
            Err(e) => Err(e),
        }) == field_from_outcome(
            encoded_by(encoding@, s@).0,
            encoded_by(encoding@, s@).1,
            N as nat,
            0x20u8,
        ),
{
    match encode_padded::<N>(encoding, s, 0x20u8) {
        Ok(f) => Ok(FixedUtf8SpacePadded(f)),
        Err(e) => Err(e),
    }
}

/// The text of a strict decode: the decoded text, or `MalformedInput` where there is none.
pub fn text_from_decoded(decoded: Option<String>) -> (r: Result<String, EncodingRsError>)
    ensures
        text_of(r) == text_from_outcome(match decoded {
            Some(t) => Some(t@),
            None => None::<Seq<char>>,
        }),
        match decoded {
            Some(t) => r == Ok::<String, EncodingRsError>(t),
            None => r == Err::<String, EncodingRsError>(EncodingRsError::MalformedInput),
        },
{
    match decoded {
        Some(t) => Ok(t),
        None => Err(EncodingRsError::MalformedInput),
    }
}

/// `bytes` without its trailing zero bytes.
fn trim_null(bytes: &[u8]) -> (r: &[u8])
    ensures
        r@ == trim_end(bytes@, 0u8),
{
    trim_trailing(bytes, 0u8)
}

/// `bytes` without its trailing space bytes.
fn trim_space(bytes: &[u8]) -> (r: &[u8])
    ensures
        r@ == trim_end(bytes@, 0x20u8),
{
    trim_trailing(bytes, 0x20u8)
}

/// Decodes a NUL-padded fixed field with `encoding`: the bytes before the trailing zero
/// bytes are decoded, and a malformed sequence gives `MalformedInput`. A field that holds only
/// padding decodes to empty text in every encoding.
pub fn decode_null_padded<const N: usize>(
    encoding: &TextEncoding,
    v: &FixedUtf8NullPadded<N>,
) -> (r: Result<String, EncodingRsError>)
    requires
        N <= usize::MAX / 4,
    ensures
        text_of(r) == text_from_outcome(decoded_by(encoding@, trim_end(v.0@, 0u8))),
        trim_end(v.0@, 0u8).len() == 0 ==> (r matches Ok(t) && t@.len() == 0),
{
    let bytes = trim_null(v.0.as_bytes().as_slice());
    proof {
        v.0.lemma_len();
        lemma_trim_end_len(v.0@, 0u8);
    }
    let decoded = decode_text(encoding, bytes);
    text_from_decoded(decoded)
}

/// Decodes a space-padded fixed field with `encoding`: the bytes before the trailing space
/// bytes are decoded, and a malformed sequence gives `MalformedInput`. A field that holds only
/// padding decodes to empty text in every encoding.
pub fn decode_space_padded<const N: usize>(
    encoding: &TextEncoding,
    v: &FixedUtf8SpacePadded<N>,
) -> (r: Result<String, EncodingRsError>)
    requires
        N <= usize::MAX / 4,
    ensures
        text_of(r) == text_from_outcome(decoded_by(encoding@, trim_end(v.0@, 0x20u8))),
        trim_end(v.0@, 0x20u8).len() == 0 ==> (r matches Ok(t) && t@.len() == 0),
{
    let bytes = trim_space(v.0.as_bytes().as_slice());
    proof {
        v.0.lemma_len();
        lemma_trim_end_len(v.0@, 0x20u8);
    }
    let decoded = decode_text(encoding, bytes);
    text_from_decoded(decoded)
}

} // verus!
