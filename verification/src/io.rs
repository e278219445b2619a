//! Reading endian-tagged values from byte slices and writing them to byte buffers.
use vstd::prelude::*;

use crate::byte_order::{
    be_bytes, be_value, le_bytes, le_value, lemma_be_value_push, lemma_le_bytes_len,
    lemma_be_value_of_be_bytes, lemma_le_value_of_le_bytes, lemma_pow256_positive,
    lemma_le_value_bound, lemma_le_value_cons, lemma_pow256_16, lemma_pow256_monotonic, pow256, spec_host_big,
    Endian,
};
use crate::specific_endian::{
    BigEndian, LittleEndian, SpecificEndian, law_round_trip_u8, law_round_trip_u16,
    law_round_trip_u32, law_round_trip_u64, law_round_trip_u128,
};

verus! {

broadcast use vstd::layout::layout_of_primitives;

/// The value of the first `n` bytes of `data`, most significant first.
pub(crate) fn be_value_of(data: &[u8], n: usize) -> (v: u128)
    requires
        n <= data.len(),
        n <= 16,
    ensures
        v as nat == be_value(data@.take(n as int)),
{
    let mut v: u128 = 0;
    let mut i: usize = 0;
    proof {
        lemma_pow256_16();
        assert(data@.take(0) =~= Seq::<u8>::empty());
    }
    while i < n
        invariant
            i <= n,
            n <= data.len(),
            n <= 16,
            v as nat == be_value(data@.take(i as int)),
            v < pow256(i as nat),
            pow256(16) == 0x1_0000_0000_0000_0000_0000_0000_0000_0000,
        decreases n - i,
    {
        proof {
            lemma_pow256_monotonic((i + 1) as nat, 16);
            assert(data@.take(i + 1) =~= data@.take(i as int).push(data@[i as int]));
            lemma_be_value_push(data@.take(i as int), data@[i as int]);
            assert(pow256((i + 1) as nat) == 256 * pow256(i as nat));
        }
        v = v * 256 + data[i] as u128;
        i = i + 1;
    }
    v
}

/// The value of the first `n` bytes of `data`, least significant first.
pub(crate) fn le_value_of(data: &[u8], n: usize) -> (v: u128)
    requires
        n <= data.len(),
        n <= 16,
    ensures
        v as nat == le_value(data@.take(n as int)),
{
    let mut v: u128 = 0;
    let mut k: usize = n;
    proof {
        lemma_pow256_16();
        assert(data@.subrange(n as int, n as int) =~= Seq::<u8>::empty());
    }
    while k > 0
        invariant
            k <= n,
            n <= data.len(),
            n <= 16,
            v as nat == le_value(data@.subrange(k as int, n as int)),
            v < pow256((n - k) as nat),
            pow256(16) == 0x1_0000_0000_0000_0000_0000_0000_0000_0000,
        decreases k,
    {
        proof {
            lemma_pow256_monotonic((n - k + 1) as nat, 16);
            assert(data@.subrange(k - 1, n as int) =~= seq![data@[k - 1]] + data@.subrange(
                k as int,
                n as int,
            ));
            lemma_le_value_cons(data@[k - 1], data@.subrange(k as int, n as int));
            assert(pow256((n - k + 1) as nat) == 256 * pow256((n - k) as nat));
        }
        v = v * 256 + data[k - 1] as u128;
        k = k - 1;
    }
    assert(data@.subrange(0, n as int) =~= data@.take(n as int));
    v
}

/// The `n` low-order bytes of `v`, least significant first.
fn le_bytes_of(v: u128, n: usize) -> (out: Vec<u8>)
    ensures
        out@ == le_bytes(v as nat, n as nat),
{
    let mut out: Vec<u8> = Vec::new();
    let mut x = v;
    let mut i: usize = 0;
    while i < n
        invariant
            i <= n,
            out@ + le_bytes(x as nat, (n - i) as nat) == le_bytes(v as nat, n as nat),
        decreases n - i,
    {
        proof {
            assert(le_bytes(x as nat, (n - i) as nat) == seq![(x % 256) as u8] + le_bytes(
                (x / 256) as nat,
                (n - i - 1) as nat,
            ));
            assert(out@.push((x % 256) as u8) + le_bytes((x / 256) as nat, (n - i - 1) as nat)
                =~= out@ + le_bytes(x as nat, (n - i) as nat));
        }
        out.push((x % 256) as u8);
        x = x / 256;
        i = i + 1;
    }
    assert(out@ + le_bytes(x as nat, 0) =~= out@);
    out
}

/// Appends the `n` low-order bytes of `v`, least significant first.
pub(crate) fn push_le_bytes(out: &mut Vec<u8>, v: u128, n: usize)
    ensures
        final(out)@ == old(out)@ + le_bytes(v as nat, n as nat),
{
    let bytes = le_bytes_of(v, n);
    let mut i: usize = 0;
    let ghost start = out@;
    while i < bytes.len()
        invariant
            i <= bytes.len(),
            out@ == start + bytes@.take(i as int),
        decreases bytes.len() - i,
    {
        assert(bytes@.take(i + 1) =~= bytes@.take(i as int).push(bytes@[i as int]));
        out.push(bytes[i]);
        i = i + 1;
    }
    assert(bytes@.take(bytes.len() as int) =~= bytes@);
}

/// Appends the `n` low-order bytes of `v`, most significant first.
pub(crate) fn push_be_bytes(out: &mut Vec<u8>, v: u128, n: usize)
    ensures
        final(out)@ == old(out)@ + be_bytes(v as nat, n as nat),
{
    let bytes = le_bytes_of(v, n);
    proof {
        lemma_le_bytes_len(v as nat, n as nat);
    }
    let mut k: usize = bytes.len();
    let ghost start = out@;
    let ghost rev = bytes@.reverse();
    while k > 0
        invariant
            k <= bytes.len(),
            rev == bytes@.reverse(),
            out@ == start + rev.take((bytes.len() - k) as int),
        decreases k,
    {
        assert(rev.take((bytes.len() - k + 1) as int) =~= rev.take((bytes.len() - k) as int).push(
            bytes@[k - 1],
        ));
        out.push(bytes[k - 1]);
        k = k - 1;
    }
    assert(rev.take(bytes.len() as int) =~= rev);
}

/// Conversion between a value and a `u128` that holds its bytes (right-aligned).
pub trait EndianRepr: Sized {
    /// Whether the conversions are defined for this type: always for the integers; for a
    /// tuple, where each part's width is supported and the parts fit in sixteen bytes.
    open spec fn spec_repr_supported() -> bool {
        true
    }

    open spec fn spec_from_u128(v: u128) -> Self {
        vstd::pervasive::arbitrary()
    }

    open spec fn spec_to_u128(self) -> u128 {
        vstd::pervasive::arbitrary()
    }

    /// Whether the conversions are defined for this type.
    fn repr_supported() -> (r: bool)
        ensures
            r == Self::spec_repr_supported(),
    ;

    fn from_u128(v: u128) -> (r: Self)
        requires
            Self::spec_repr_supported(),
        ensures
            r == Self::spec_from_u128(v),
    ;

    fn to_u128(self) -> (r: u128)
        requires
            Self::spec_repr_supported(),
        ensures
            r == self.spec_to_u128(),
    ;
}

impl EndianRepr for u8 {
    open spec fn spec_from_u128(v: u128) -> u8 {
        v as u8
    }

    open spec fn spec_to_u128(self) -> u128 {
        self as u128
    }

    fn repr_supported() -> (r: bool) {
        true
    }

    fn from_u128(v: u128) -> (r: u8) {
        v as u8
    }

    fn to_u128(self) -> (r: u128) {
        self as u128
    }
}

impl EndianRepr for u16 {
    open spec fn spec_from_u128(v: u128) -> u16 {
        v as u16
    }

    open spec fn spec_to_u128(self) -> u128 {
        self as u128
    }

    fn repr_supported() -> (r: bool) {
        true
    }

    fn from_u128(v: u128) -> (r: u16) {
        v as u16
    }

    fn to_u128(self) -> (r: u128) {
        self as u128
    }
}

impl EndianRepr for u32 {
    open spec fn spec_from_u128(v: u128) -> u32 {
        v as u32
    }

    open spec fn spec_to_u128(self) -> u128 {
        self as u128
    }

    fn repr_supported() -> (r: bool) {
        true
    }

    fn from_u128(v: u128) -> (r: u32) {
        v as u32
    }

    fn to_u128(self) -> (r: u128) {
        self as u128
    }
}

impl EndianRepr for u64 {
    open spec fn spec_from_u128(v: u128) -> u64 {
        v as u64
    }

    open spec fn spec_to_u128(self) -> u128 {
        self as u128
    }

    fn repr_supported() -> (r: bool) {
        true
    }

    fn from_u128(v: u128) -> (r: u64) {
        v as u64
    }

    fn to_u128(self) -> (r: u128) {
        self as u128
    }
}

impl EndianRepr for u128 {
    open spec fn spec_from_u128(v: u128) -> u128 {
        v
    }

    open spec fn spec_to_u128(self) -> u128 {
        self
    }

    fn repr_supported() -> (r: bool) {
        true
    }

    fn from_u128(v: u128) -> (r: u128) {
        v
    }

    fn to_u128(self) -> (r: u128) {
        self
    }
}

/// A value of type `T` held in either byte order.
pub enum EndianValue<T: SpecificEndian<T>> {
    Big(BigEndian<T>),
    Little(LittleEndian<T>),
}

impl<T: SpecificEndian<T>> EndianValue<T> {
    /// The host-order value held.
    pub open spec fn spec_native(self) -> T {
        match self {
            EndianValue::Big(b) => b.spec_native(),
            EndianValue::Little(l) => l.spec_native(),
        }
    }

    /// Converts the held value into host order.
    pub fn to_native(&self) -> (r: T)
        ensures
            r == self.spec_native(),
    {
        match self {
            EndianValue::Big(b) => b.to_native(),
            EndianValue::Little(l) => l.to_native(),
        }
    }
}

/// Types that can be read from, and appended to, a byte buffer in their wire form. A read
/// fails only for want of bytes, with the message `"insufficient data"`; a write fails only
/// where the width is not supported, with the message `"unsupported size"`.
pub trait FromSlice: Sized {
    /// Whether reading is defined for this type (the wire form is at most sixteen bytes).
    open spec fn spec_read_supported() -> bool {
        vstd::pervasive::arbitrary()
    }

    /// What reading from `data` gives: `None` where there are too few bytes.
    open spec fn spec_read(data: Seq<u8>) -> Option<Self> {
        vstd::pervasive::arbitrary()
    }

    /// The wire bytes of this value: `None` where its width is not supported.
    open spec fn spec_wire(&self) -> Option<Seq<u8>> {
        vstd::pervasive::arbitrary()
    }

    fn read_from_slice(data: &[u8]) -> (r: Result<Self, &'static str>)
        requires
            Self::spec_read_supported(),
        ensures
            match r {
                Ok(v) => Self::spec_read(data@) == Some(v),
                Err(e) => Self::spec_read(data@) is None && e@ == "insufficient data"@,
            },
    ;

    fn write_to_extend(&self, out: &mut Vec<u8>) -> (r: Result<(), &'static str>)
        ensures
            match self.spec_wire() {
                Some(b) => r is Ok && final(out)@ == old(out)@ + b,
                None => r is Err && r->Err_0@ == "unsupported size"@ && final(out)@ == old(out)@,
            },
    ;
}

/// Whether `n` is one of the widths that the wire form supports.
pub open spec fn supported_width(n: nat) -> bool {
    n == 1 || n == 2 || n == 4 || n == 8 || n == 16
}

impl<T: SpecificEndian<T> + EndianRepr> FromSlice for BigEndian<T> {
    open spec fn spec_read_supported() -> bool {
        vstd::layout::size_of::<T>() <= 16 && T::spec_repr_supported()
    }

    open spec fn spec_read(data: Seq<u8>) -> Option<Self> {
        let n = vstd::layout::size_of::<T>();
        if data.len() < n {
            None
        } else {
            Some(
                BigEndian(
                    T::spec_from_u128(be_value(data.take(n as int)) as u128).spec_to_big_endian(),
                ),
            )
        }
    }

    open spec fn spec_wire(&self) -> Option<Seq<u8>> {
        let n = vstd::layout::size_of::<T>();
        if supported_width(n) && T::spec_repr_supported() {
            Some(be_bytes(self.spec_native().spec_to_u128() as nat, n))
        } else {
            None
        }
    }

    /// Reads the first `size_of::<T>()` bytes of `data`, most significant first.
    fn read_from_slice(data: &[u8]) -> (r: Result<Self, &'static str>) {
        let n = core::mem::size_of::<T>();
        if data.len() < n {
            return Err("insufficient data");
        }
        let v = be_value_of(data, n);
        Ok(BigEndian::from(T::from_u128(v)))
    }

    /// Appends the host-order value's bytes, most significant first.
    fn write_to_extend(&self, out: &mut Vec<u8>) -> (r: Result<(), &'static str>) {
        let n = core::mem::size_of::<T>();
        if !(n == 1 || n == 2 || n == 4 || n == 8 || n == 16) || !T::repr_supported() {
            return Err("unsupported size");
        }
        let repr = self.to_native().to_u128();
        push_be_bytes(out, repr, n);
        Ok(())
    }
}

impl<T: SpecificEndian<T> + EndianRepr> FromSlice for LittleEndian<T> {
    open spec fn spec_read_supported() -> bool {
        vstd::layout::size_of::<T>() <= 16 && T::spec_repr_supported()
    }

    open spec fn spec_read(data: Seq<u8>) -> Option<Self> {
        let n = vstd::layout::size_of::<T>();
        if data.len() < n {
            None
        } else {
            Some(
                LittleEndian(
                    T::spec_from_u128(le_value(data.take(n as int)) as u128).spec_to_little_endian(),
                ),
            )
        }
    }

    open spec fn spec_wire(&self) -> Option<Seq<u8>> {
        let n = vstd::layout::size_of::<T>();
        if supported_width(n) && T::spec_repr_supported() {
            Some(le_bytes(self.spec_native().spec_to_u128() as nat, n))
        } else {
            None
        }
    }

    /// Reads the first `size_of::<T>()` bytes of `data`, least significant first.
    fn read_from_slice(data: &[u8]) -> (r: Result<Self, &'static str>) {
        let n = core::mem::size_of::<T>();
        if data.len() < n {
            return Err("insufficient data");
        }
        let v = le_value_of(data, n);
        Ok(LittleEndian::from(T::from_u128(v)))
    }

    /// Appends the host-order value's bytes, least significant first.
    fn write_to_extend(&self, out: &mut Vec<u8>) -> (r: Result<(), &'static str>) {
        let n = core::mem::size_of::<T>();
        if !(n == 1 || n == 2 || n == 4 || n == 8 || n == 16) || !T::repr_supported() {
            return Err("unsupported size");
        }
        let repr = self.to_native().to_u128();
        push_le_bytes(out, repr, n);
        Ok(())
    }
}

/// Reads a value of type `E` from the front of `data`.
pub fn read_from_slice<E: FromSlice>(data: &[u8]) -> (r: Result<E, &'static str>)
    requires
        E::spec_read_supported(),
    ensures
        match r {
            Ok(v) => E::spec_read(data@) == Some(v),
            Err(e) => E::spec_read(data@) is None && e@ == "insufficient data"@,
        },
{
    E::read_from_slice(data)
}

/// Appends the wire bytes of `v` to `out`.
pub fn write_to_extend<E: FromSlice>(v: &E, out: &mut Vec<u8>) -> (r: Result<(), &'static str>)
    ensures
        match v.spec_wire() {
            Some(b) => r is Ok && final(out)@ == old(out)@ + b,
            None => r is Err && r->Err_0@ == "unsupported size"@ && final(out)@ == old(out)@,
        },
{
    v.write_to_extend(out)
}

/// Reads a `T` from the front of `data` in the byte order of the executing hardware.
pub fn from_bytes<T: SpecificEndian<T> + Default + EndianRepr>(data: &[u8]) -> (r: Result<
    EndianValue<T>,
    &'static str,
>)
    requires
        vstd::layout::size_of::<T>() <= 16,
        T::spec_repr_supported(),
    ensures
        match r {
            Ok(EndianValue::Big(b)) => spec_host_big() && BigEndian::<T>::spec_read(data@) == Some(b),
            Ok(EndianValue::Little(l)) => !spec_host_big() && LittleEndian::<T>::spec_read(data@)
                == Some(l),
            Err(e) => data@.len() < vstd::layout::size_of::<T>() && e@ == "insufficient data"@,
        },
{
    let default = T::default();
    match default.endian() {
        Endian::Big => match read_from_slice::<BigEndian<T>>(data) {
            Ok(b) => Ok(EndianValue::Big(b)),
            Err(e) => Err(e),
        },
        Endian::Little => match read_from_slice::<LittleEndian<T>>(data) {
            Ok(l) => Ok(EndianValue::Little(l)),
            Err(e) => Err(e),
        },
    }
}

/// Reads a `T` from the front of `data` and returns it in host order.
pub fn from_bytes_to_native<T: SpecificEndian<T> + Default + EndianRepr>(data: &[u8]) -> (r: Result<
    T,
    &'static str,
>)
    requires
        vstd::layout::size_of::<T>() <= 16,
        T::spec_repr_supported(),
    ensures
        match r {
            Ok(v) => data@.len() >= vstd::layout::size_of::<T>() && v == (if spec_host_big() {
                BigEndian::<T>::spec_read(data@).unwrap().spec_native()
            } else {
                LittleEndian::<T>::spec_read(data@).unwrap().spec_native()
            }),
            Err(e) => data@.len() < vstd::layout::size_of::<T>() && e@ == "insufficient data"@,
        },
{
    match from_bytes::<T>(data) {
        Ok(v) => Ok(v.to_native()),
        Err(e) => Err(e),
    }
}


/// Reading back the wire bytes of a big-endian value, with anything after them, gives the value,
/// for a type whose `u128` form is faithful and whose stored forms convert both ways.
proof fn lemma_big_endian_wire_read<T: SpecificEndian<T> + EndianRepr>(v: BigEndian<T>, rest: Seq<u8>)
    requires
        supported_width(vstd::layout::size_of::<T>()),
        T::spec_repr_supported(),
        v.spec_native().spec_to_u128() < pow256(vstd::layout::size_of::<T>()),
        T::spec_from_u128(v.spec_native().spec_to_u128()) == v.spec_native(),
        v.spec_native().spec_to_big_endian() == v@,
    ensures
        v.spec_wire() is Some,
        BigEndian::<T>::spec_read(v.spec_wire().unwrap() + rest) == Some(v),
{
    let n = vstd::layout::size_of::<T>();
    let x = v.spec_native().spec_to_u128();
    let b = be_bytes(x as nat, n);
    lemma_be_value_of_be_bytes(x as nat, n);
    assert((b + rest).take(n as int) =~= b);
    assert((x as nat) % pow256(n) == x as nat) by {
        lemma_pow256_positive(n);
        vstd::arithmetic::div_mod::lemma_small_mod(x as nat, pow256(n));
    }
}

/// Reading back the wire bytes of a little-endian value, with anything after them, gives the
/// value, for a type whose `u128` form is faithful and whose stored forms convert both ways.
proof fn lemma_little_endian_wire_read<T: SpecificEndian<T> + EndianRepr>(
    v: LittleEndian<T>,
    rest: Seq<u8>,
)
    requires
        supported_width(vstd::layout::size_of::<T>()),
        T::spec_repr_supported(),
        v.spec_native().spec_to_u128() < pow256(vstd::layout::size_of::<T>()),
        T::spec_from_u128(v.spec_native().spec_to_u128()) == v.spec_native(),
        v.spec_native().spec_to_little_endian() == v@,
    ensures
        v.spec_wire() is Some,
        LittleEndian::<T>::spec_read(v.spec_wire().unwrap() + rest) == Some(v),
{
    let n = vstd::layout::size_of::<T>();
    let x = v.spec_native().spec_to_u128();
    let b = le_bytes(x as nat, n);
    lemma_le_value_of_le_bytes(x as nat, n);
    lemma_le_bytes_len(x as nat, n);
    assert((b + rest).take(n as int) =~= b);
    assert((x as nat) % pow256(n) == x as nat) by {
        lemma_pow256_positive(n);
        vstd::arithmetic::div_mod::lemma_small_mod(x as nat, pow256(n));
    }
}

/// Writing a `BigEndian<u8>` or `LittleEndian<u8>` to bytes and reading the front of the
/// buffer back gives the same value, whatever bytes follow.
pub proof fn law_u8_wire_round_trip(b: BigEndian<u8>, l: LittleEndian<u8>, rest: Seq<u8>)
    ensures
        b.spec_wire() is Some,
        BigEndian::<u8>::spec_read(b.spec_wire().unwrap() + rest) == Some(b),
        l.spec_wire() is Some,
        LittleEndian::<u8>::spec_read(l.spec_wire().unwrap() + rest) == Some(l),
{
    reveal_with_fuel(pow256, 2);
    assert(pow256(1) == 0x100);
    law_round_trip_u8(b@);
    law_round_trip_u8(l@);
    lemma_big_endian_wire_read(b, rest);
    lemma_little_endian_wire_read(l, rest);
}

/// Writing a `BigEndian<u16>` or `LittleEndian<u16>` to bytes and reading the front of the
/// buffer back gives the same value, whatever bytes follow.
pub proof fn law_u16_wire_round_trip(b: BigEndian<u16>, l: LittleEndian<u16>, rest: Seq<u8>)
    ensures
        b.spec_wire() is Some,
        BigEndian::<u16>::spec_read(b.spec_wire().unwrap() + rest) == Some(b),
        l.spec_wire() is Some,
        LittleEndian::<u16>::spec_read(l.spec_wire().unwrap() + rest) == Some(l),
{
    reveal_with_fuel(pow256, 3);
    assert(pow256(2) == 0x10000);
    law_round_trip_u16(b@);
    law_round_trip_u16(l@);
    lemma_big_endian_wire_read(b, rest);
    lemma_little_endian_wire_read(l, rest);
}

/// Writing a `BigEndian<u32>` or `LittleEndian<u32>` to bytes and reading the front of the
/// buffer back gives the same value, whatever bytes follow.
pub proof fn law_u32_wire_round_trip(b: BigEndian<u32>, l: LittleEndian<u32>, rest: Seq<u8>)
    ensures
        b.spec_wire() is Some,
        BigEndian::<u32>::spec_read(b.spec_wire().unwrap() + rest) == Some(b),
        l.spec_wire() is Some,
        LittleEndian::<u32>::spec_read(l.spec_wire().unwrap() + rest) == Some(l),
{
    reveal_with_fuel(pow256, 5);
    assert(pow256(4) == 0x100000000);
    law_round_trip_u32(b@);
    law_round_trip_u32(l@);
    lemma_big_endian_wire_read(b, rest);
    lemma_little_endian_wire_read(l, rest);
}

/// Writing a `BigEndian<u64>` or `LittleEndian<u64>` to bytes and reading the front of the
/// buffer back gives the same value, whatever bytes follow.
pub proof fn law_u64_wire_round_trip(b: BigEndian<u64>, l: LittleEndian<u64>, rest: Seq<u8>)
    ensures
        b.spec_wire() is Some,
        BigEndian::<u64>::spec_read(b.spec_wire().unwrap() + rest) == Some(b),
        l.spec_wire() is Some,
        LittleEndian::<u64>::spec_read(l.spec_wire().unwrap() + rest) == Some(l),
{
    reveal_with_fuel(pow256, 9);
    assert(pow256(8) == 0x10000000000000000);
    law_round_trip_u64(b@);
    law_round_trip_u64(l@);
    lemma_big_endian_wire_read(b, rest);
    lemma_little_endian_wire_read(l, rest);
}

/// Writing a `BigEndian<u128>` or `LittleEndian<u128>` to bytes and reading the front of the
/// buffer back gives the same value, whatever bytes follow.
pub proof fn law_u128_wire_round_trip(b: BigEndian<u128>, l: LittleEndian<u128>, rest: Seq<u8>)
    ensures
        b.spec_wire() is Some,
        BigEndian::<u128>::spec_read(b.spec_wire().unwrap() + rest) == Some(b),
        l.spec_wire() is Some,
        LittleEndian::<u128>::spec_read(l.spec_wire().unwrap() + rest) == Some(l),
{
    reveal_with_fuel(pow256, 17);
    assert(pow256(16) == 0x100000000000000000000000000000000);
    law_round_trip_u128(b@);
    law_round_trip_u128(l@);
    lemma_big_endian_wire_read(b, rest);
    lemma_little_endian_wire_read(l, rest);
}


/// The wire bytes of a stored `u8` are its host-order value's 1 bytes, most significant first for
/// `BigEndian` and least significant first for `LittleEndian`; in particular those of
/// `BigEndian::from(v)` and `LittleEndian::from(v)` are `v`'s own bytes. A read fails exactly when
/// there are fewer than 1 bytes, and otherwise gives the value whose bytes are the first 1, in
/// the declared order, whatever follows.
pub proof fn law_u8_wire_bytes(v: u8, b: BigEndian<u8>, l: LittleEndian<u8>, data: Seq<u8>)
    ensures
        b.spec_wire() == Some(be_bytes(b.spec_native() as nat, 1)),
        l.spec_wire() == Some(le_bytes(l.spec_native() as nat, 1)),
        BigEndian(v.spec_to_big_endian()).spec_wire() == Some(be_bytes(v as nat, 1)),
        LittleEndian(v.spec_to_little_endian()).spec_wire() == Some(le_bytes(v as nat, 1)),
        BigEndian::<u8>::spec_read(data) is None <==> data.len() < 1,
        LittleEndian::<u8>::spec_read(data) is None <==> data.len() < 1,
        data.len() >= 1 ==> (BigEndian::<u8>::spec_read(data) matches Some(r) && r.spec_native()
            as nat == be_value(data.take(1))),
        data.len() >= 1 ==> (LittleEndian::<u8>::spec_read(data) matches Some(r)
            && r.spec_native() as nat == le_value(data.take(1))),
        BigEndian::<u8>::spec_read(be_bytes(v as nat, 1) + data) == Some(BigEndian(v.spec_to_big_endian())),
        LittleEndian::<u8>::spec_read(le_bytes(v as nat, 1) + data) == Some(
            LittleEndian(v.spec_to_little_endian()),
        ),
{
    reveal_with_fuel(pow256, 2);
    assert(pow256(1) == 0x100);
    law_round_trip_u8(v);
    law_round_trip_u8(b@);
    law_round_trip_u8(l@);
    if data.len() >= 1 {
        let head = data.take(1);
        lemma_le_value_bound(head.reverse());
        lemma_le_value_bound(head);
        law_round_trip_u8(le_value(head.reverse()) as u8);
        law_round_trip_u8(le_value(head) as u8);
    }
    lemma_big_endian_wire_read(BigEndian(v.spec_to_big_endian()), data);
    lemma_little_endian_wire_read(LittleEndian(v.spec_to_little_endian()), data);
}

/// The wire bytes of a stored `u16` are its host-order value's 2 bytes, most significant first for
/// `BigEndian` and least significant first for `LittleEndian`; in particular those of
/// `BigEndian::from(v)` and `LittleEndian::from(v)` are `v`'s own bytes. A read fails exactly when
/// there are fewer than 2 bytes, and otherwise gives the value whose bytes are the first 2, in
/// the declared order, whatever follows.
pub proof fn law_u16_wire_bytes(v: u16, b: BigEndian<u16>, l: LittleEndian<u16>, data: Seq<u8>)
    ensures
        b.spec_wire() == Some(be_bytes(b.spec_native() as nat, 2)),
        l.spec_wire() == Some(le_bytes(l.spec_native() as nat, 2)),
        BigEndian(v.spec_to_big_endian()).spec_wire() == Some(be_bytes(v as nat, 2)),
        LittleEndian(v.spec_to_little_endian()).spec_wire() == Some(le_bytes(v as nat, 2)),
        BigEndian::<u16>::spec_read(data) is None <==> data.len() < 2,
        LittleEndian::<u16>::spec_read(data) is None <==> data.len() < 2,
        data.len() >= 2 ==> (BigEndian::<u16>::spec_read(data) matches Some(r) && r.spec_native()
            as nat == be_value(data.take(2))),
        data.len() >= 2 ==> (LittleEndian::<u16>::spec_read(data) matches Some(r)
            && r.spec_native() as nat == le_value(data.take(2))),
        BigEndian::<u16>::spec_read(be_bytes(v as nat, 2) + data) == Some(BigEndian(v.spec_to_big_endian())),
        LittleEndian::<u16>::spec_read(le_bytes(v as nat, 2) + data) == Some(
            LittleEndian(v.spec_to_little_endian()),
        ),
{
    reveal_with_fuel(pow256, 3);
    assert(pow256(2) == 0x10000);
    law_round_trip_u16(v);
    law_round_trip_u16(b@);
    law_round_trip_u16(l@);
    if data.len() >= 2 {
        let head = data.take(2);
        lemma_le_value_bound(head.reverse());
        lemma_le_value_bound(head);
        law_round_trip_u16(le_value(head.reverse()) as u16);
        law_round_trip_u16(le_value(head) as u16);
    }
    lemma_big_endian_wire_read(BigEndian(v.spec_to_big_endian()), data);
    lemma_little_endian_wire_read(LittleEndian(v.spec_to_little_endian()), data);
}

/// The wire bytes of a stored `u32` are its host-order value's 4 bytes, most significant first for
/// `BigEndian` and least significant first for `LittleEndian`; in particular those of
/// `BigEndian::from(v)` and `LittleEndian::from(v)` are `v`'s own bytes. A read fails exactly when
/// there are fewer than 4 bytes, and otherwise gives the value whose bytes are the first 4, in
/// the declared order, whatever follows.
pub proof fn law_u32_wire_bytes(v: u32, b: BigEndian<u32>, l: LittleEndian<u32>, data: Seq<u8>)
    ensures
        b.spec_wire() == Some(be_bytes(b.spec_native() as nat, 4)),
        l.spec_wire() == Some(le_bytes(l.spec_native() as nat, 4)),
        BigEndian(v.spec_to_big_endian()).spec_wire() == Some(be_bytes(v as nat, 4)),
        LittleEndian(v.spec_to_little_endian()).spec_wire() == Some(le_bytes(v as nat, 4)),
        BigEndian::<u32>::spec_read(data) is None <==> data.len() < 4,
        LittleEndian::<u32>::spec_read(data) is None <==> data.len() < 4,
        data.len() >= 4 ==> (BigEndian::<u32>::spec_read(data) matches Some(r) && r.spec_native()
            as nat == be_value(data.take(4))),
        data.len() >= 4 ==> (LittleEndian::<u32>::spec_read(data) matches Some(r)
            && r.spec_native() as nat == le_value(data.take(4))),
        BigEndian::<u32>::spec_read(be_bytes(v as nat, 4) + data) == Some(BigEndian(v.spec_to_big_endian())),
        LittleEndian::<u32>::spec_read(le_bytes(v as nat, 4) + data) == Some(
            LittleEndian(v.spec_to_little_endian()),
        ),
{
    reveal_with_fuel(pow256, 5);
    assert(pow256(4) == 0x100000000);
    law_round_trip_u32(v);
    law_round_trip_u32(b@);
    law_round_trip_u32(l@);
    if data.len() >= 4 {
        let head = data.take(4);
        lemma_le_value_bound(head.reverse());
        lemma_le_value_bound(head);
        law_round_trip_u32(le_value(head.reverse()) as u32);
        law_round_trip_u32(le_value(head) as u32);
    }
    lemma_big_endian_wire_read(BigEndian(v.spec_to_big_endian()), data);
    lemma_little_endian_wire_read(LittleEndian(v.spec_to_little_endian()), data);
}

/// The wire bytes of a stored `u64` are its host-order value's 8 bytes, most significant first for
/// `BigEndian` and least significant first for `LittleEndian`; in particular those of
/// `BigEndian::from(v)` and `LittleEndian::from(v)` are `v`'s own bytes. A read fails exactly when
/// there are fewer than 8 bytes, and otherwise gives the value whose bytes are the first 8, in
/// the declared order, whatever follows.
pub proof fn law_u64_wire_bytes(v: u64, b: BigEndian<u64>, l: LittleEndian<u64>, data: Seq<u8>)
    ensures
        b.spec_wire() == Some(be_bytes(b.spec_native() as nat, 8)),
        l.spec_wire() == Some(le_bytes(l.spec_native() as nat, 8)),
        BigEndian(v.spec_to_big_endian()).spec_wire() == Some(be_bytes(v as nat, 8)),
        LittleEndian(v.spec_to_little_endian()).spec_wire() == Some(le_bytes(v as nat, 8)),
        BigEndian::<u64>::spec_read(data) is None <==> data.len() < 8,
        LittleEndian::<u64>::spec_read(data) is None <==> data.len() < 8,
        data.len() >= 8 ==> (BigEndian::<u64>::spec_read(data) matches Some(r) && r.spec_native()
            as nat == be_value(data.take(8))),
        data.len() >= 8 ==> (LittleEndian::<u64>::spec_read(data) matches Some(r)
            && r.spec_native() as nat == le_value(data.take(8))),
        BigEndian::<u64>::spec_read(be_bytes(v as nat, 8) + data) == Some(BigEndian(v.spec_to_big_endian())),
        LittleEndian::<u64>::spec_read(le_bytes(v as nat, 8) + data) == Some(
            LittleEndian(v.spec_to_little_endian()),
        ),
{
    reveal_with_fuel(pow256, 9);
    assert(pow256(8) == 0x10000000000000000);
    law_round_trip_u64(v);
    law_round_trip_u64(b@);
    law_round_trip_u64(l@);
    if data.len() >= 8 {
        let head = data.take(8);
        lemma_le_value_bound(head.reverse());
        lemma_le_value_bound(head);
        law_round_trip_u64(le_value(head.reverse()) as u64);
        law_round_trip_u64(le_value(head) as u64);
    }
    lemma_big_endian_wire_read(BigEndian(v.spec_to_big_endian()), data);
    lemma_little_endian_wire_read(LittleEndian(v.spec_to_little_endian()), data);
}

/// The wire bytes of a stored `u128` are its host-order value's 16 bytes, most significant first for
/// `BigEndian` and least significant first for `LittleEndian`; in particular those of
/// `BigEndian::from(v)` and `LittleEndian::from(v)` are `v`'s own bytes. A read fails exactly when
/// there are fewer than 16 bytes, and otherwise gives the value whose bytes are the first 16, in
/// the declared order, whatever follows.
pub proof fn law_u128_wire_bytes(v: u128, b: BigEndian<u128>, l: LittleEndian<u128>, data: Seq<u8>)
    ensures
        b.spec_wire() == Some(be_bytes(b.spec_native() as nat, 16)),
        l.spec_wire() == Some(le_bytes(l.spec_native() as nat, 16)),
        BigEndian(v.spec_to_big_endian()).spec_wire() == Some(be_bytes(v as nat, 16)),
        LittleEndian(v.spec_to_little_endian()).spec_wire() == Some(le_bytes(v as nat, 16)),
        BigEndian::<u128>::spec_read(data) is None <==> data.len() < 16,
        LittleEndian::<u128>::spec_read(data) is None <==> data.len() < 16,
        data.len() >= 16 ==> (BigEndian::<u128>::spec_read(data) matches Some(r) && r.spec_native()
            as nat == be_value(data.take(16))),
        data.len() >= 16 ==> (LittleEndian::<u128>::spec_read(data) matches Some(r)
            && r.spec_native() as nat == le_value(data.take(16))),
        BigEndian::<u128>::spec_read(be_bytes(v as nat, 16) + data) == Some(BigEndian(v.spec_to_big_endian())),
        LittleEndian::<u128>::spec_read(le_bytes(v as nat, 16) + data) == Some(
            LittleEndian(v.spec_to_little_endian()),
        ),
{
    reveal_with_fuel(pow256, 17);
    assert(pow256(16) == 0x100000000000000000000000000000000);
    law_round_trip_u128(v);
    law_round_trip_u128(b@);
    law_round_trip_u128(l@);
    if data.len() >= 16 {
        let head = data.take(16);
        lemma_le_value_bound(head.reverse());
        lemma_le_value_bound(head);
        law_round_trip_u128(le_value(head.reverse()) as u128);
        law_round_trip_u128(le_value(head) as u128);
    }
    lemma_big_endian_wire_read(BigEndian(v.spec_to_big_endian()), data);
    lemma_little_endian_wire_read(LittleEndian(v.spec_to_little_endian()), data);
}

} // verus!
