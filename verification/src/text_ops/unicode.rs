//! UTF-16 and UTF-32 code units of Unicode text: their definition, and conversions between
//! `str`/`String` and code-unit buffers.
use vstd::prelude::*;

use vstd::utf8::{char_is_scalar, char_u32_cast, is_scalar};

verus! {

broadcast use {char_is_scalar, char_u32_cast};

/// A UTF-16 code unit reserved for surrogate pairs.
pub open spec fn is_surrogate(u: u16) -> bool {
    0xD800 <= u <= 0xDFFF
}

/// The first unit of a surrogate pair.
pub open spec fn is_high_surrogate(u: u16) -> bool {
    0xD800 <= u <= 0xDBFF
}

/// The second unit of a surrogate pair.
pub open spec fn is_low_surrogate(u: u16) -> bool {
    0xDC00 <= u <= 0xDFFF
}

/// The scalar value that a surrogate pair stands for.
pub open spec fn surrogate_pair_value(hi: u16, lo: u16) -> u32 {
    (0x10000 + (hi - 0xD800) * 0x400 + (lo - 0xDC00)) as u32
}

/// The UTF-16 code units of one character.
pub open spec fn char_utf16(c: char) -> Seq<u16> {
    let v = c as u32;
    if v < 0x10000 {
        seq![v as u16]
    } else {
        seq![(0xD800 + (v - 0x10000) / 0x400) as u16, (0xDC00 + (v - 0x10000) % 0x400) as u16]
    }
}

/// The UTF-16 code units of a character sequence.
pub open spec fn encode_utf16(s: Seq<char>) -> Seq<u16>
    decreases s.len(),
{
    if s.len() == 0 {
        Seq::empty()
    } else {
        char_utf16(s[0]) + encode_utf16(s.drop_first())
    }
}

/// The characters that UTF-16 code units stand for; `None` where an unpaired surrogate occurs.
pub open spec fn decode_utf16(u: Seq<u16>) -> Option<Seq<char>>
    decreases u.len(),
{
    if u.len() == 0 {
        Some(Seq::empty())
    } else if !is_surrogate(u[0]) {
        match decode_utf16(u.drop_first()) {
            Some(r) => Some(seq![(u[0] as u32) as char] + r),
            None => None,
        }
    } else if is_high_surrogate(u[0]) && u.len() >= 2 && is_low_surrogate(u[1]) {
        match decode_utf16(u.skip(2)) {
            Some(r) => Some(seq![surrogate_pair_value(u[0], u[1]) as char] + r),
            None => None,
        }
    } else {
        None
    }
}

/// The UTF-32 code units (scalar values) of a character sequence.
pub open spec fn encode_utf32(s: Seq<char>) -> Seq<u32> {
    s.map_values(|c: char| c as u32)
}

/// The characters that UTF-32 code units stand for; `None` where a unit is not a scalar value.
pub open spec fn decode_utf32(u: Seq<u32>) -> Option<Seq<char>> {
    if forall|i: int| 0 <= i < u.len() ==> is_scalar(#[trigger] u[i]) {
        Some(u.map_values(|x: u32| x as char))
    } else {
        None
    }
}

/// `p` in front of the decoded text, if there is any.
pub open spec fn prepend_chars(p: Seq<char>, o: Option<Seq<char>>) -> Option<Seq<char>> {
    match o {
        Some(r) => Some(p + r),
        None => None,
    }
}

/// Calls `char::from_u32`, which std documents as returning the `char` with that scalar
/// value, or `None` for surrogates and values above `0x10FFFF`.
#[verifier::external_body]
pub(crate) fn char_from_u32(v: u32) -> (r: Option<char>)
    ensures
        r == (if is_scalar(v) {
            Some(v as char)
        } else {
            None
        }),
{
    char::from_u32(v)
}

/// Calls `String::push`, which appends one character.
#[verifier::external_body]
pub(crate) fn string_push(s: &mut String, c: char)
    ensures
        final(s)@ == old(s)@.push(c),
{
    s.push(c)
}

pub proof fn lemma_char_utf16_shape(c: char)
    ensures
        ({
            let u = char_utf16(c);
            &&& 1 <= u.len() <= 2
            &&& u.len() == 1 ==> !is_surrogate(u[0]) && (u[0] as u32) as char == c
            &&& u.len() == 2 ==> is_high_surrogate(u[0]) && is_low_surrogate(u[1])
                && surrogate_pair_value(u[0], u[1]) as char == c
        }),
{
    let v = c as u32;
    assert(is_scalar(v));
    if v >= 0x10000 {
        let w = (v - 0x10000) as int;
        assert(w == (w / 0x400) * 0x400 + w % 0x400);
        assert(0 <= w / 0x400 < 0x400);
    }
}

/// Appending a character appends its code units.
pub proof fn lemma_encode_utf16_push(s: Seq<char>, c: char)
    ensures
        encode_utf16(s.push(c)) == encode_utf16(s) + char_utf16(c),
    decreases s.len(),
{
    if s.len() == 0 {
        assert(s.push(c).drop_first() =~= Seq::<char>::empty());
        assert(encode_utf16(s.push(c).drop_first()) == Seq::<u16>::empty());
        assert(s.push(c)[0] == c);
        assert(encode_utf16(s) == Seq::<u16>::empty());
        assert(encode_utf16(s.push(c)) =~= char_utf16(c));
    } else {
        assert(s.push(c).drop_first() =~= s.drop_first().push(c));
        lemma_encode_utf16_push(s.drop_first(), c);
        assert(encode_utf16(s.push(c)) =~= encode_utf16(s) + char_utf16(c));
    }
}

/// Decoding the UTF-16 encoding of any text gives that text back.
pub proof fn lemma_decode_encode_utf16(s: Seq<char>)
    ensures
        decode_utf16(encode_utf16(s)) == Some(s),
    decreases s.len(),
{
    if s.len() == 0 {
    } else {
        let u = encode_utf16(s);
        let head = char_utf16(s[0]);
        let tail = encode_utf16(s.drop_first());
        lemma_char_utf16_shape(s[0]);
        lemma_decode_encode_utf16(s.drop_first());
        if head.len() == 1 {
            assert(u.drop_first() =~= tail);
        } else {
            assert(u.skip(2) =~= tail);
        }
        assert(seq![s[0]] + s.drop_first() =~= s);
    }
}

/// UTF-16 code units that decode to some text are exactly that text's encoding.
pub proof fn lemma_encode_decode_utf16(u: Seq<u16>)
    ensures
        decode_utf16(u) matches Some(s) ==> encode_utf16(s) == u,
    decreases u.len(),
{
    if u.len() > 0 {
        if let Some(s) = decode_utf16(u) {
            if !is_surrogate(u[0]) {
                let c = (u[0] as u32) as char;
                lemma_encode_decode_utf16(u.drop_first());
                assert(s.drop_first() =~= decode_utf16(u.drop_first())->0);
                assert(is_scalar(u[0] as u32));
                assert(c as u32 == u[0] as u32);
                assert(char_utf16(c) =~= seq![u[0]]);
                assert(encode_utf16(s) =~= u);
            } else {
                let v = surrogate_pair_value(u[0], u[1]);
                let c = v as char;
                lemma_encode_decode_utf16(u.skip(2));
                assert(s.drop_first() =~= decode_utf16(u.skip(2))->0);
                assert(0x10000 <= v <= 0x10FFFF);
                assert(is_scalar(v));
                assert(c as u32 == v);
                let w = (v - 0x10000) as int;
                assert(w / 0x400 == u[0] - 0xD800);
                assert(w % 0x400 == u[1] - 0xDC00);
                assert(char_utf16(c) =~= seq![u[0], u[1]]);
                assert(encode_utf16(s) =~= u);
            }
        }
    }
}

/// Decoding the UTF-32 encoding of any text gives that text back.
pub proof fn lemma_decode_encode_utf32(s: Seq<char>)
    ensures
        decode_utf32(encode_utf32(s)) == Some(s),
{
    let u = encode_utf32(s);
    assert forall|i: int| 0 <= i < u.len() implies is_scalar(#[trigger] u[i]) by {
        char_is_scalar(s[i]);
    }
    assert forall|i: int| 0 <= i < s.len() implies u[i] as char == s[i] by {
        char_u32_cast(s[i], u[i]);
    }
    assert(u.map_values(|x: u32| x as char) =~= s);
}

/// The last UTF-16 code unit of nonempty text is a space only where its last character is.
pub proof fn lemma_utf16_last_unit(s: Seq<char>)
    requires
        s.len() > 0,
    ensures
        encode_utf16(s).len() > 0,
        encode_utf16(s).last() == 0x20u16 ==> s.last() == ' ',
{
    let c = s.last();
    lemma_encode_utf16_push(s.drop_last(), c);
    assert(s.drop_last().push(c) =~= s);
    lemma_char_utf16_shape(c);
    char_u32_cast(' ', 0x20u32);
}

/// Text without NUL characters has no zero UTF-16 code unit.
pub proof fn lemma_utf16_no_zero(s: Seq<char>)
    requires
        !s.contains('\0'),
    ensures
        !encode_utf16(s).contains(0u16),
    decreases s.len(),
{
    if s.len() > 0 {
        let t = s.drop_first();
        assert forall|i: int| 0 <= i < t.len() implies t[i] != '\0' by {
            assert(t[i] == s[i + 1]);
        }
        lemma_utf16_no_zero(t);
        let head = char_utf16(s[0]);
        lemma_char_utf16_shape(s[0]);
        char_u32_cast('\0', 0u32);
        assert(s[0] != '\0');
        let u = encode_utf16(s);
        assert(u =~= head + encode_utf16(t));
        assert forall|k: int| 0 <= k < u.len() implies u[k] != 0u16 by {
            if k >= head.len() {
                assert(u[k] == encode_utf16(t)[k - head.len()]);
            }
        }
    }
}

/// The last UTF-32 code unit of nonempty text is a space only where its last character is.
pub proof fn lemma_utf32_last_unit(s: Seq<char>)
    requires
        s.len() > 0,
    ensures
        encode_utf32(s).len() > 0,
        encode_utf32(s).last() == 0x20u32 ==> s.last() == ' ',
{
    char_u32_cast(s.last(), encode_utf32(s).last());
    char_u32_cast(' ', 0x20u32);
}

/// Text without NUL characters has no zero UTF-32 code unit.
pub proof fn lemma_utf32_no_zero(s: Seq<char>)
    requires
        !s.contains('\0'),
    ensures
        !encode_utf32(s).contains(0u32),
{
    let u = encode_utf32(s);
    assert forall|k: int| 0 <= k < u.len() implies u[k] != 0u32 by {
        char_u32_cast(s[k], u[k]);
        char_u32_cast('\0', 0u32);
    }
}

/// The code units of one character: the first, and the second where there is one.
pub(crate) fn char_to_utf16(c: char) -> (r: (u16, Option<u16>))
    ensures
        char_utf16(c) == (match r.1 {
            Some(b) => seq![r.0, b],
            None => seq![r.0],
        }),
{
    let v = c as u32;
    proof {
        lemma_char_utf16_shape(c);
    }
    if v < 0x10000 {
        (v as u16, None)
    } else {
        let w = v - 0x10000;
        ((0xD800 + w / 0x400) as u16, Some((0xDC00 + w % 0x400) as u16))
    }
}

/// The UTF-16 code units of `s`.
pub(crate) fn encode_str_utf16(s: &str) -> (r: Vec<u16>)
    ensures
        r@ == encode_utf16(s@),
{
    let mut out: Vec<u16> = Vec::new();
    for c in it: s.chars()
        invariant
            it.seq() == s@,
            out@ == encode_utf16(s@.take(it.index() as int)),
    {
        let ghost i = it.index();
        proof {
            assert(s@.take(i + 1) =~= s@.take(i as int).push(c));
            lemma_encode_utf16_push(s@.take(i as int), c);
        }
        let (a, b) = char_to_utf16(c);
        out.push(a);
        match b {
            Some(b) => out.push(b),
            None => {},
        }
        assert(out@ =~= encode_utf16(s@.take(i + 1)));
    }
    assert(s@.take(s@.len() as int) =~= s@);
    out
}

/// The UTF-32 code units of `s`.
pub(crate) fn encode_str_utf32(s: &str) -> (r: Vec<u32>)
    ensures
        r@ == encode_utf32(s@),
{
    let mut out: Vec<u32> = Vec::new();
    for c in it: s.chars()
        invariant
            it.seq() == s@,
            out@ == encode_utf32(s@.take(it.index() as int)),
    {
        let ghost i = it.index();
        out.push(c as u32);
        assert(out@ =~= encode_utf32(s@.take(i + 1)));
    }
    assert(s@.take(s@.len() as int) =~= s@);
    out
}

/// Decodes UTF-16 code units into a `String`; `None` where an unpaired surrogate occurs.
pub(crate) fn decode_utf16_units(u: &[u16]) -> (r: Option<String>)
    ensures
        match r {
            Some(s) => decode_utf16(u@) == Some(s@),
            None => decode_utf16(u@) is None,
        },
{
    let mut out = String::new();
    let mut i: usize = 0;
    assert(u@.skip(0) =~= u@);
    assert(Seq::<char>::empty() + decode_utf16(u@)->0 =~= decode_utf16(u@)->0);
    while i < u.len()
        invariant
            i <= u.len(),
            decode_utf16(u@) == prepend_chars(out@, decode_utf16(u@.skip(i as int))),
        decreases u.len() - i,
    {
        let a = u[i];
        let ghost rest = u@.skip(i as int);
        assert(rest[0] == a);
        if a < 0xD800 || a > 0xDFFF {
            assert(rest.drop_first() =~= u@.skip(i + 1));
            let c = match char_from_u32(a as u32) {
                Some(c) => c,
                None => {
                    assert(false);
                    return None;
                },
            };
            let ghost before = out@;
            string_push(&mut out, c);
            proof {
                if let Some(r) = decode_utf16(u@.skip(i + 1)) {
                    assert(before + (seq![c] + r) =~= out@ + r);
                }
            }
            i = i + 1;
        } else if a <= 0xDBFF && i + 1 < u.len() && u[i + 1] >= 0xDC00 && u[i + 1] <= 0xDFFF {
            let b = u[i + 1];
            assert(rest[1] == b);
            assert(rest.skip(2) =~= u@.skip(i + 2));
            let v: u32 = 0x10000 + ((a - 0xD800) as u32) * 0x400 + ((b - 0xDC00) as u32);
            assert(v == surrogate_pair_value(a, b));
            let c = match char_from_u32(v) {
                Some(c) => c,
                None => {
                    assert(false);
                    return None;
                },
            };
            let ghost before = out@;
            string_push(&mut out, c);
            proof {
                if let Some(r) = decode_utf16(u@.skip(i + 2)) {
                    assert(before + (seq![c] + r) =~= out@ + r);
                }
            }
            i = i + 2;
        } else {
            return None;
        }
    }
    assert(u@.skip(u.len() as int) =~= Seq::<u16>::empty());
    assert(out@ + Seq::<char>::empty() =~= out@);
    Some(out)
}

/// Decodes UTF-32 code units into a `String`; `None` where a unit is not a scalar value.
pub(crate) fn decode_utf32_units(u: &[u32]) -> (r: Option<String>)
    ensures
        match r {
            Some(s) => decode_utf32(u@) == Some(s@),
            None => decode_utf32(u@) is None,
        },
{
    let mut out = String::new();
    let mut i: usize = 0;
    while i < u.len()
        invariant
            i <= u.len(),
            out@.len() == i,
            forall|j: int| 0 <= j < i ==> is_scalar(#[trigger] u@[j]) && out@[j] == u@[j] as char,
        decreases u.len() - i,
    {
        match char_from_u32(u[i]) {
            Some(c) => string_push(&mut out, c),
            None => {
                return None;
            },
        }
        i = i + 1;
    }
    assert(out@ =~= u@.map_values(|x: u32| x as char));
    Some(out)
}

} // verus!
