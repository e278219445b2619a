//! Fixed-size inline text: exactly `N` code points, or `N` code units / bytes with padding rules.
use vstd::prelude::*;

use crate::messages::{decimal, fixed_text, two_numbers};
pub mod arrays;
pub mod padding;
pub mod utf16;
pub mod utf32;
pub mod utf8;

use crate::text_ops::fixed::arrays::fill_then_copy;
use crate::text_ops::fixed::utf32::FixedUtf32Error;
use crate::text_ops::fixed::utf8::FixedUtf8Error;
use crate::text_ops::unicode::string_push;

verus! {

/// Error returned when converting into a fixed-codepoint string fails.
#[derive(Clone, Copy, Debug, Eq, PartialEq)]
pub enum FixedTextError {
    /// The input contains fewer or more than `N` Unicode scalar values.
    WrongCodepointCount { expected: usize, found: usize },
}

/// Errors for fixed UTF-16 code-unit storage.
#[derive(Clone, Copy, Debug, Eq, PartialEq)]
pub enum FixedUtf16Error {
    /// Input had the wrong number of UTF-16 code units.
    WrongCodeUnitCount { expected: usize, found: usize },
    /// Input code units are not valid UTF-16.
    InvalidUtf16,
}

impl FixedTextError {
    /// The error's message (what `Display` writes).
    pub fn to_string(&self) -> (r: String)
        ensures
            match *self {
                FixedTextError::WrongCodepointCount { expected, found } => r@
                    == "wrong number of codepoints (expected "@ + decimal(expected as nat)
                    + ", found "@ + decimal(found as nat) + ")"@,
            },
    {
        match self {
            FixedTextError::WrongCodepointCount { expected, found } => two_numbers(
                "wrong number of codepoints (expected ",
                *expected,
                ", found ",
                *found,
                ")",
            ),
        }
    }
}

impl FixedUtf16Error {
    /// The error's message (what `Display` writes).
    pub fn to_string(&self) -> (r: String)
        ensures
            match *self {
                FixedUtf16Error::WrongCodeUnitCount { expected, found } => r@
                    == "wrong number of UTF-16 code units (expected "@ + decimal(expected as nat)
                    + ", found "@ + decimal(found as nat) + ")"@,
                FixedUtf16Error::InvalidUtf16 => r@ == "invalid UTF-16"@,
            },
    {
        match self {
            FixedUtf16Error::WrongCodeUnitCount { expected, found } => two_numbers(
                "wrong number of UTF-16 code units (expected ",
                *expected,
                ", found ",
                *found,
                ")",
            ),
            FixedUtf16Error::InvalidUtf16 => fixed_text("invalid UTF-16"),
        }
    }
}

impl From<FixedUtf16Error> for FixedTextError {
    /// A wrong code-unit count keeps its numbers; invalid UTF-16 becomes a count error of zeros.
    fn from(e: FixedUtf16Error) -> (r: FixedTextError) {
        match e {
            FixedUtf16Error::WrongCodeUnitCount { expected, found } => {
                FixedTextError::WrongCodepointCount { expected, found }
            },
            FixedUtf16Error::InvalidUtf16 => FixedTextError::WrongCodepointCount {
                expected: 0,
                found: 0,
            },
        }
    }
}

impl vstd::std_specs::convert::FromSpecImpl<FixedUtf16Error> for FixedTextError {
    open spec fn obeys_from_spec() -> bool {
        true
    }

    open spec fn from_spec(e: FixedUtf16Error) -> FixedTextError {
        match e {
            FixedUtf16Error::WrongCodeUnitCount { expected, found } => {
                FixedTextError::WrongCodepointCount { expected, found }
            },
            FixedUtf16Error::InvalidUtf16 => FixedTextError::WrongCodepointCount {
                expected: 0,
                found: 0,
            },
        }
    }
}

impl From<FixedUtf32Error> for FixedTextError {
    /// A wrong code-unit count keeps its numbers; invalid UTF-32 becomes a count error of zeros.
    fn from(e: FixedUtf32Error) -> (r: FixedTextError) {
        match e {
            FixedUtf32Error::WrongCodeUnitCount { expected, found } => {
                FixedTextError::WrongCodepointCount { expected, found }
            },
            FixedUtf32Error::InvalidUtf32 => FixedTextError::WrongCodepointCount {
                expected: 0,
                found: 0,
            },
        }
    }
}

impl vstd::std_specs::convert::FromSpecImpl<FixedUtf32Error> for FixedTextError {
    open spec fn obeys_from_spec() -> bool {
        true
    }

    open spec fn from_spec(e: FixedUtf32Error) -> FixedTextError {
        match e {
            FixedUtf32Error::WrongCodeUnitCount { expected, found } => {
                FixedTextError::WrongCodepointCount { expected, found }
            },
            FixedUtf32Error::InvalidUtf32 => FixedTextError::WrongCodepointCount {
                expected: 0,
                found: 0,
            },
        }
    }
}

impl From<FixedUtf8Error> for FixedTextError {
    /// Too many bytes keeps its numbers (the byte limit as the expected count); invalid UTF-8
    /// becomes a count error of zeros.
    fn from(e: FixedUtf8Error) -> (r: FixedTextError) {
        match e {
            FixedUtf8Error::TooManyBytes { max, found } => FixedTextError::WrongCodepointCount {
                expected: max,
                found,
            },
            FixedUtf8Error::InvalidUtf8 => FixedTextError::WrongCodepointCount {
                expected: 0,
                found: 0,
            },
        }
    }
}

impl vstd::std_specs::convert::FromSpecImpl<FixedUtf8Error> for FixedTextError {
    open spec fn obeys_from_spec() -> bool {
        true
    }

    open spec fn from_spec(e: FixedUtf8Error) -> FixedTextError {
        match e {
            FixedUtf8Error::TooManyBytes { max, found } => FixedTextError::WrongCodepointCount {
                expected: max,
                found,
            },
            FixedUtf8Error::InvalidUtf8 => FixedTextError::WrongCodepointCount {
                expected: 0,
                found: 0,
            },
        }
    }
}

/// A fixed-length string of exactly `N` Unicode scalar values (codepoints).
#[derive(Clone, Copy, Debug, Eq, PartialEq, Hash, PartialOrd)]
pub struct FixedCodepointString<const N: usize> {
    chars: [char; N],
}

/// A borrowed view of exactly `N` Unicode scalar values.
#[derive(Clone, Copy, Debug, Eq, PartialEq, Hash, PartialOrd)]
pub struct FixedCodepointStr<'a, const N: usize>(pub &'a [char; N]);

impl<const N: usize> View for FixedCodepointString<N> {
    type V = Seq<char>;

    /// The stored codepoints.
    closed spec fn view(&self) -> Seq<char> {
        self.chars@
    }
}

impl<const N: usize> FixedCodepointString<N> {
    /// The stored codepoints always number `N`.
    pub proof fn lemma_len(&self)
        ensures
            self@.len() == N,
    {
    }

    /// Returns the stored codepoints.
    pub fn as_chars(&self) -> (r: &[char; N])
        ensures
            r@ == self@,
    {
        &self.chars
    }

    /// Returns a borrowed view of this fixed-codepoint string.
    pub fn as_str_view(&self) -> (r: FixedCodepointStr<'_, N>)
        ensures
            r.0@ == self@,
    {
        FixedCodepointStr(&self.chars)
    }

    /// Builds a `String` by collecting the stored codepoints.
    pub fn to_string_lossless(&self) -> (r: String)
        ensures
            r@ == self@,
    {
        chars_to_string(&self.chars)
    }

    /// The stored codepoints as text (what `Display` writes).
    pub fn to_string(&self) -> (r: String)
        ensures
            r@ == self@,
    {
        chars_to_string(&self.chars)
    }
}

impl<const N: usize> AsRef<[char]> for FixedCodepointString<N> {
    fn as_ref(&self) -> (r: &[char])
        ensures
            r@ == self@,
    {
        self.chars.as_slice()
    }
}

impl<'a, const N: usize> FixedCodepointStr<'a, N> {
    /// Returns the referenced codepoints.
    pub fn as_chars(&self) -> (r: &'a [char; N])
        ensures
            r@ == self.0@,
    {
        self.0
    }

    /// The referenced codepoints as text (what `Display` writes).
    pub fn to_string(&self) -> (r: String)
        ensures
            r@ == self.0@,
    {
        chars_to_string(self.0)
    }
}

impl<'a, const N: usize> AsRef<[char]> for FixedCodepointStr<'a, N> {
    fn as_ref(&self) -> (r: &[char])
        ensures
            r@ == self.0@,
    {
        self.0.as_slice()
    }
}

impl<'a, const N: usize> From<&'a [char; N]> for FixedCodepointStr<'a, N> {
    fn from(v: &'a [char; N]) -> (r: Self) {
        FixedCodepointStr(v)
    }
}

impl<'a, const N: usize> vstd::std_specs::convert::FromSpecImpl<&'a [char; N]> for FixedCodepointStr<'a, N> {
    open spec fn obeys_from_spec() -> bool {
        true
    }

    open spec fn from_spec(v: &'a [char; N]) -> FixedCodepointStr<'a, N> {
        FixedCodepointStr(v)
    }
}

impl<'a, const N: usize> From<&'a FixedCodepointString<N>> for FixedCodepointStr<'a, N> {
    fn from(v: &'a FixedCodepointString<N>) -> (r: Self)
        ensures
            r.0@ == v@,
    {
        v.as_str_view()
    }
}

impl<'a, const N: usize> vstd::std_specs::convert::FromSpecImpl<&'a FixedCodepointString<N>> for FixedCodepointStr<'a, N> {
    /// The result borrows the private array, which no specification function outside this
    /// module can name, so the contract is the `ensures` of `from` itself.
    open spec fn obeys_from_spec() -> bool {
        false
    }

    open spec fn from_spec(v: &'a FixedCodepointString<N>) -> FixedCodepointStr<'a, N> {
        vstd::pervasive::arbitrary()
    }
}

impl<const N: usize> From<&FixedCodepointString<N>> for String {
    /// Collects the stored codepoints.
    fn from(v: &FixedCodepointString<N>) -> (r: String)
        ensures
            r@ == v@,
    {
        chars_to_string(&v.chars)
    }
}

impl<const N: usize> vstd::std_specs::convert::FromSpecImpl<&FixedCodepointString<N>> for String {
    /// A `String` cannot be built in a specification, so the contract is the `ensures` of
    /// `from` itself.
    open spec fn obeys_from_spec() -> bool {
        false
    }

    open spec fn from_spec(v: &FixedCodepointString<N>) -> String {
        vstd::pervasive::arbitrary()
    }
}

impl<'a, const N: usize> From<FixedCodepointStr<'a, N>> for String {
    /// Collects the referenced codepoints.
    fn from(v: FixedCodepointStr<'a, N>) -> (r: String)
        ensures
            r@ == v.0@,
    {
        chars_to_string(v.0)
    }
}

impl<'a, const N: usize> vstd::std_specs::convert::FromSpecImpl<FixedCodepointStr<'a, N>> for String {
    /// A `String` cannot be built in a specification, so the contract is the `ensures` of
    /// `from` itself.
    open spec fn obeys_from_spec() -> bool {
        false
    }

    open spec fn from_spec(v: FixedCodepointStr<'a, N>) -> String {
        vstd::pervasive::arbitrary()
    }
}

impl<'a, const N: usize> From<FixedCodepointStr<'a, N>> for FixedCodepointString<N> {
    /// Copies the referenced codepoints.
    fn from(v: FixedCodepointStr<'a, N>) -> (r: FixedCodepointString<N>)
        ensures
            r@ == v.0@,
    {
        FixedCodepointString { chars: *v.0 }
    }
}

impl<'a, const N: usize> vstd::std_specs::convert::FromSpecImpl<FixedCodepointStr<'a, N>> for FixedCodepointString<N> {
    /// The field is private to this module, so the contract is the `ensures` of `from` itself.
    open spec fn obeys_from_spec() -> bool {
        false
    }

    open spec fn from_spec(v: FixedCodepointStr<'a, N>) -> FixedCodepointString<N> {
        vstd::pervasive::arbitrary()
    }
}

impl<'a, const N: usize> From<FixedCodepointStr<'a, N>> for [char; N] {
    /// Copies the referenced codepoints.
    fn from(v: FixedCodepointStr<'a, N>) -> (r: [char; N]) {
        *v.0
    }
}

impl<'a, const N: usize> vstd::std_specs::convert::FromSpecImpl<FixedCodepointStr<'a, N>> for [char; N] {
    open spec fn obeys_from_spec() -> bool {
        true
    }

    open spec fn from_spec(v: FixedCodepointStr<'a, N>) -> [char; N] {
        *v.0
    }
}

/// The error that converting text of `count` codepoints into exactly `N` codepoints gives:
/// past `N` the count stops at `N + 1`, the first codepoint that does not fit.
pub open spec fn codepoint_count_error(n: usize, count: nat) -> FixedTextError {
    if count > n {
        FixedTextError::WrongCodepointCount { expected: n, found: (n + 1) as usize }
    } else {
        FixedTextError::WrongCodepointCount { expected: n, found: count as usize }
    }
}

impl<const N: usize> TryFrom<&str> for FixedCodepointString<N> {
    type Error = FixedTextError;

    /// Succeeds exactly when `s` holds `N` codepoints.
    fn try_from(s: &str) -> (r: Result<FixedCodepointString<N>, FixedTextError>)
        ensures
            match r {
                Ok(f) => s@.len() == N && f@ == s@,
                Err(e) => s@.len() != N && e == codepoint_count_error(N, s@.len()),
            },
    {
        let chars = str_chars(s);
        if chars.len() > N {
            return Err(FixedTextError::WrongCodepointCount { expected: N, found: N + 1 });
        }
        if chars.len() != N {
            return Err(FixedTextError::WrongCodepointCount { expected: N, found: chars.len() });
        }
        let out: [char; N] = fill_then_copy('\0', chars.as_slice());
        assert(out@ =~= chars@);
        Ok(FixedCodepointString { chars: out })
    }
}

impl<const N: usize> vstd::std_specs::convert::TryFromSpecImpl<&str> for FixedCodepointString<N> {
    /// The field is private to this module, so the contract is the `ensures` of `try_from`.
    open spec fn obeys_try_from_spec() -> bool {
        false
    }

    open spec fn try_from_spec(s: &str) -> Result<FixedCodepointString<N>, FixedTextError> {
        vstd::pervasive::arbitrary()
    }
}

impl<const N: usize> TryFrom<String> for FixedCodepointString<N> {
    type Error = FixedTextError;

    /// Succeeds exactly when `s` holds `N` codepoints.
    fn try_from(s: String) -> (r: Result<FixedCodepointString<N>, FixedTextError>)
        ensures
            match r {
                Ok(f) => s@.len() == N && f@ == s@,
                Err(e) => s@.len() != N && e == codepoint_count_error(N, s@.len()),
            },
    {
        FixedCodepointString::<N>::try_from(s.as_str())
    }
}

impl<const N: usize> vstd::std_specs::convert::TryFromSpecImpl<String> for FixedCodepointString<N> {
    /// The field is private to this module, so the contract is the `ensures` of `try_from`.
    open spec fn obeys_try_from_spec() -> bool {
        false
    }

    open spec fn try_from_spec(s: String) -> Result<FixedCodepointString<N>, FixedTextError> {
        vstd::pervasive::arbitrary()
    }
}

/// The codepoints of `s`.
pub(crate) fn str_chars(s: &str) -> (r: Vec<char>)
    ensures
        r@ == s@,
{
    let mut out: Vec<char> = Vec::new();
    for c in it: s.chars()
        invariant
            it.seq() == s@,
            out@ == s@.take(it.index() as int),
    {
        let ghost i = it.index();
        out.push(c);
        assert(out@ =~= s@.take(i + 1));
    }
    assert(s@.take(s@.len() as int) =~= s@);
    out
}

/// Collects codepoints into a `String`.
pub(crate) fn chars_to_string(chars: &[char]) -> (r: String)
    ensures
        r@ == chars@,
{
    let mut out = String::new();
    let mut i: usize = 0;
    while i < chars.len()
        invariant
            i <= chars@.len(),
            out@ == chars@.take(i as int),
        decreases chars.len() - i,
    {
        string_push(&mut out, chars[i]);
        assert(chars@.take(i + 1) =~= chars@.take(i as int).push(chars@[i as int]));
        i = i + 1;
    }
    assert(chars@.take(chars@.len() as int) =~= chars@);
    out
}

} // verus!
