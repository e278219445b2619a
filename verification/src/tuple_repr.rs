//! `EndianRepr` for tuples: the parts' bytes, most significant first, laid end to end in
//! one number, right-aligned; reading it back cuts the parts out again.
use vstd::prelude::*;

use crate::byte_order::{lemma_pow256_16, lemma_pow256_monotonic, lemma_pow256_positive, pow256};
use crate::io::{EndianRepr, supported_width};

verus! {

/// `acc` followed by the low `n` bytes of `part`.
pub open spec fn pack_part(acc: nat, part: nat, n: nat) -> nat {
    acc * pow256(n) + part % pow256(n)
}

/// The `n` bytes of `v` that have `after` bytes below them.
pub open spec fn unpack_part(v: nat, n: nat, after: nat) -> nat {
    (v / pow256(after)) % pow256(n)
}

/// Widths add as powers multiply.
proof fn lemma_pow256_add(m: nat, n: nat)
    ensures
        pow256(m + n) == pow256(m) * pow256(n),
    decreases n,
{
    if n > 0 {
        lemma_pow256_add(m, (n - 1) as nat);
        assert(pow256(m + n) == 256 * pow256((m + n - 1) as nat));
        assert(pow256(m) * pow256(n) == pow256(m) * (256 * pow256((n - 1) as nat)));
        assert(pow256(m) * (256 * pow256((n - 1) as nat)) == 256 * (pow256(m) * pow256(
            (n - 1) as nat,
        ))) by (nonlinear_arith);
    } else {
        assert(pow256(0) == 1);
        assert(m + n == m);
    }
}

/// `256` to the power `k`, for `k` below sixteen.
fn pow256_of(k: usize) -> (r: u128)
    requires
        k < 16,
    ensures
        r == pow256(k as nat),
{
    proof {
        lemma_pow256_16();
        assert(pow256(16) == 256 * pow256(15));
    }
    let mut r: u128 = 1;
    let mut i: usize = 0;
    while i < k
        invariant
            i <= k,
            k < 16,
            r == pow256(i as nat),
            256 * pow256(15) == pow256(16),
            pow256(16) == 0x1_0000_0000_0000_0000_0000_0000_0000_0000,
        decreases k - i,
    {
        proof {
            lemma_pow256_monotonic(i as nat, 14);
        }
        r = r * 256;
        i = i + 1;
    }
    r
}

/// Whether `n` is a width that a part may have.
fn width_supported(n: usize) -> (r: bool)
    ensures
        r == supported_width(n as nat),
{
    n == 1 || n == 2 || n == 4 || n == 8 || n == 16
}

/// Appends the low `n` bytes of `part` below the `used` bytes of `acc`.
fn pack_step(acc: u128, used: usize, part: u128, n: usize) -> (r: u128)
    requires
        1 <= n,
        used + n <= 16,
        acc < pow256(used as nat),
    ensures
        r == pack_part(acc as nat, part as nat, n as nat),
        r < pow256((used + n) as nat),
{
    proof {
        lemma_pow256_16();
        lemma_pow256_positive(n as nat);
        lemma_pow256_add(used as nat, n as nat);
        lemma_pow256_monotonic((used + n) as nat, 16);
    }
    if n == 16 {
        proof {
            assert(used == 0);
            assert(acc == 0);
            vstd::arithmetic::div_mod::lemma_small_mod(part as nat, pow256(16));
        }
        part
    } else {
        let p = pow256_of(n);
        let m = part % p;
        proof {
            let u = pow256(used as nat);
            assert(acc * p + m < u * p) by (nonlinear_arith)
                requires
                    acc < u,
                    m < p,
            ;
        }
        acc * p + m
    }
}

/// The `n` bytes of `v` that have `after` bytes below them.
fn unpack_step(v: u128, n: usize, after: usize) -> (r: u128)
    requires
        1 <= n,
        n + after <= 16,
    ensures
        r == unpack_part(v as nat, n as nat, after as nat),
{
    proof {
        lemma_pow256_16();
        lemma_pow256_positive(after as nat);
        lemma_pow256_positive(n as nat);
    }
    let q: u128 = if after == 0 {
        v
    } else {
        v / pow256_of(after)
    };
    if n == 16 {
        proof {
            vstd::arithmetic::div_mod::lemma_small_mod(v as nat, pow256(16));
        }
        q
    } else {
        q % pow256_of(n)
    }
}

/// Splitting a packed number after a part: the part and what lies below it form the low bytes.
proof fn lemma_pack_split(x: nat, p: nat, n: nat, after: nat, r: nat)
    requires
        p < pow256(n),
        r < pow256(after),
    ensures
        (x * pow256(n) + p) * pow256(after) + r == x * pow256(n + after) + (p * pow256(after)
            + r),
        p * pow256(after) + r < pow256(n + after),
{
    lemma_pow256_add(n, after);
    let pn = pow256(n);
    let pa = pow256(after);
    assert((x * pn + p) * pa + r == x * (pn * pa) + (p * pa + r)) by (nonlinear_arith);
    assert(p * pa + r < pn * pa) by (nonlinear_arith)
        requires
            p < pn,
            r < pa,
    ;
}

/// A part packed above `r` is cut out again.
proof fn lemma_unpack_packed(x: nat, p: nat, n: nat, after: nat, r: nat)
    requires
        p < pow256(n),
        r < pow256(after),
    ensures
        unpack_part((x * pow256(n) + p) * pow256(after) + r, n, after) == p,
{
    lemma_pow256_positive(n);
    lemma_pow256_positive(after);
    let pn = pow256(n) as int;
    let pa = pow256(after) as int;
    let y = x * pn + p;
    vstd::arithmetic::div_mod::lemma_fundamental_div_mod_converse(y * pa + r, pa, y, r as int);
    vstd::arithmetic::div_mod::lemma_fundamental_div_mod_converse(y, pn, x as int, p as int);
}

/// Shifting by no bytes changes nothing.
proof fn lemma_times_pow256_zero(x: nat)
    ensures
        x * pow256(0) + 0 == x,
{
    assert(pow256(0) == 1);
}

/// A part that fits its width is unchanged by cutting it to that width.
proof fn lemma_fits(p: nat, n: nat)
    requires
        p < pow256(n),
    ensures
        p % pow256(n) == p,
{
    vstd::arithmetic::div_mod::lemma_small_mod(p, pow256(n));
}

impl<A: EndianRepr, B: EndianRepr> EndianRepr for (A, B) {
    open spec fn spec_repr_supported() -> bool {
        A::spec_repr_supported()
        && B::spec_repr_supported()
        && supported_width(vstd::layout::size_of::<A>())
        && supported_width(vstd::layout::size_of::<B>())
        && vstd::layout::size_of::<A>() + vstd::layout::size_of::<B>() <= 16
    }

    /// The parts' bytes in turn, most significant first, each part cut to its width.
    open spec fn spec_to_u128(self) -> u128 {
        pack_part(pack_part(0, self.0.spec_to_u128() as nat, vstd::layout::size_of::<A>()), self.1.spec_to_u128() as nat, vstd::layout::size_of::<B>()) as u128
    }

    /// Each part read from its bytes, in turn from the most significant.
    open spec fn spec_from_u128(v: u128) -> Self {
        (
            A::spec_from_u128(unpack_part(v as nat, vstd::layout::size_of::<A>(), vstd::layout::size_of::<B>()) as u128),
            B::spec_from_u128(unpack_part(v as nat, vstd::layout::size_of::<B>(), 0) as u128),
        )
    }

    fn repr_supported() -> (r: bool) {
        let s0 = core::mem::size_of::<A>();
        let s1 = core::mem::size_of::<B>();
        if !(width_supported(s0) && width_supported(s1)) {
            return false;
        }
        A::repr_supported() && B::repr_supported() && s0 + s1 <= 16
    }

    fn to_u128(self) -> (r: u128) {
        let s0 = core::mem::size_of::<A>();
        let s1 = core::mem::size_of::<B>();
        let acc: u128 = pack_step(0, 0, self.0.to_u128(), s0);
        let acc: u128 = pack_step(acc, s0, self.1.to_u128(), s1);
        acc
    }

    fn from_u128(v: u128) -> (r: Self) {
        let s0 = core::mem::size_of::<A>();
        let s1 = core::mem::size_of::<B>();
        (
            A::from_u128(unpack_step(v, s0, s1)),
            B::from_u128(unpack_step(v, s1, 0)),
        )
    }
}

/// A 2-tuple whose parts each fit their width, and read back unchanged from their own
/// number, is read back unchanged from the tuple's number.
pub proof fn law_tuple2_repr_round_trip<A: EndianRepr, B: EndianRepr>(t: (A, B))
    requires
        <(A, B) as EndianRepr>::spec_repr_supported(),
        t.0.spec_to_u128() < pow256(vstd::layout::size_of::<A>()),
        A::spec_from_u128(t.0.spec_to_u128()) == t.0,
        t.1.spec_to_u128() < pow256(vstd::layout::size_of::<B>()),
        B::spec_from_u128(t.1.spec_to_u128()) == t.1,
    ensures
        <(A, B) as EndianRepr>::spec_from_u128(t.spec_to_u128()) == t,
{
    let s0 = vstd::layout::size_of::<A>();
    let p0 = t.0.spec_to_u128() as nat;
    lemma_fits(p0, s0);
    let s1 = vstd::layout::size_of::<B>();
    let p1 = t.1.spec_to_u128() as nat;
    lemma_fits(p1, s1);
    let x0 = p0;
    let x1 = x0 * pow256(s1) + p1;
    let r1: nat = 0;
    let a1: nat = 0;
    lemma_pow256_positive(a1);
    lemma_pack_split(x0, p1, s1, a1, r1);
    let a0: nat = s1 + a1;
    let r0: nat = p1 * pow256(a1) + r1;
    lemma_times_pow256_zero(x1);
    lemma_unpack_packed(0, p0, s0, a0, r0);
    assert(x0 == 0 * pow256(s0) + p0);
    lemma_unpack_packed(x0, p1, s1, a1, r1);
    lemma_pack_split(0, p0, s0, a0, r0);
    lemma_pow256_monotonic(s0 + a0, 16);
    lemma_pow256_16();
    assert(x1 < 0x1_0000_0000_0000_0000_0000_0000_0000_0000);
    assert(t.spec_to_u128() as nat == x1);
}

impl<A: EndianRepr, B: EndianRepr, C: EndianRepr> EndianRepr for (A, B, C) {
    open spec fn spec_repr_supported() -> bool {
        A::spec_repr_supported()
        && B::spec_repr_supported()
        && C::spec_repr_supported()
        && supported_width(vstd::layout::size_of::<A>())
        && supported_width(vstd::layout::size_of::<B>())
        && supported_width(vstd::layout::size_of::<C>())
        && vstd::layout::size_of::<A>() + vstd::layout::size_of::<B>() + vstd::layout::size_of::<C>() <= 16
    }

    /// The parts' bytes in turn, most significant first, each part cut to its width.
    open spec fn spec_to_u128(self) -> u128 {
        pack_part(pack_part(pack_part(0, self.0.spec_to_u128() as nat, vstd::layout::size_of::<A>()), self.1.spec_to_u128() as nat, vstd::layout::size_of::<B>()), self.2.spec_to_u128() as nat, vstd::layout::size_of::<C>()) as u128
    }

    /// Each part read from its bytes, in turn from the most significant.
    open spec fn spec_from_u128(v: u128) -> Self {
        (
            A::spec_from_u128(unpack_part(v as nat, vstd::layout::size_of::<A>(), vstd::layout::size_of::<B>() + vstd::layout::size_of::<C>()) as u128),
            B::spec_from_u128(unpack_part(v as nat, vstd::layout::size_of::<B>(), vstd::layout::size_of::<C>()) as u128),
            C::spec_from_u128(unpack_part(v as nat, vstd::layout::size_of::<C>(), 0) as u128),
        )
    }

    fn repr_supported() -> (r: bool) {
        let s0 = core::mem::size_of::<A>();
        let s1 = core::mem::size_of::<B>();
        let s2 = core::mem::size_of::<C>();
        if !(width_supported(s0) && width_supported(s1) && width_supported(s2)) {
            return false;
        }
        A::repr_supported() && B::repr_supported() && C::repr_supported() && s0 + s1 + s2 <= 16
    }

    fn to_u128(self) -> (r: u128) {
        let s0 = core::mem::size_of::<A>();
        let s1 = core::mem::size_of::<B>();
        let s2 = core::mem::size_of::<C>();
        let acc: u128 = pack_step(0, 0, self.0.to_u128(), s0);
        let acc: u128 = pack_step(acc, s0, self.1.to_u128(), s1);
        let acc: u128 = pack_step(acc, s0 + s1, self.2.to_u128(), s2);
        acc
    }

    fn from_u128(v: u128) -> (r: Self) {
        let s0 = core::mem::size_of::<A>();
        let s1 = core::mem::size_of::<B>();
        let s2 = core::mem::size_of::<C>();
        (
            A::from_u128(unpack_step(v, s0, s1 + s2)),
            B::from_u128(unpack_step(v, s1, s2)),
            C::from_u128(unpack_step(v, s2, 0)),
        )
    }
}

/// A 3-tuple whose parts each fit their width, and read back unchanged from their own
/// number, is read back unchanged from the tuple's number.
pub proof fn law_tuple3_repr_round_trip<A: EndianRepr, B: EndianRepr, C: EndianRepr>(t: (A, B, C))
    requires
        <(A, B, C) as EndianRepr>::spec_repr_supported(),
        t.0.spec_to_u128() < pow256(vstd::layout::size_of::<A>()),
        A::spec_from_u128(t.0.spec_to_u128()) == t.0,
        t.1.spec_to_u128() < pow256(vstd::layout::size_of::<B>()),
        B::spec_from_u128(t.1.spec_to_u128()) == t.1,
        t.2.spec_to_u128() < pow256(vstd::layout::size_of::<C>()),
        C::spec_from_u128(t.2.spec_to_u128()) == t.2,
    ensures
        <(A, B, C) as EndianRepr>::spec_from_u128(t.spec_to_u128()) == t,
{
    let s0 = vstd::layout::size_of::<A>();
    let p0 = t.0.spec_to_u128() as nat;
    lemma_fits(p0, s0);
    let s1 = vstd::layout::size_of::<B>();
    let p1 = t.1.spec_to_u128() as nat;
    lemma_fits(p1, s1);
    let s2 = vstd::layout::size_of::<C>();
    let p2 = t.2.spec_to_u128() as nat;
    lemma_fits(p2, s2);
    let x0 = p0;
    let x1 = x0 * pow256(s1) + p1;
    let x2 = x1 * pow256(s2) + p2;
    let r2: nat = 0;
    let a2: nat = 0;
    lemma_pow256_positive(a2);
    lemma_pack_split(x1, p2, s2, a2, r2);
    let a1: nat = s2 + a2;
    let r1: nat = p2 * pow256(a2) + r2;
    lemma_pow256_positive(a1);
    lemma_pack_split(x0, p1, s1, a1, r1);
    let a0: nat = s1 + a1;
    let r0: nat = p1 * pow256(a1) + r1;
    lemma_times_pow256_zero(x2);
    lemma_unpack_packed(0, p0, s0, a0, r0);
    assert(x0 == 0 * pow256(s0) + p0);
    lemma_unpack_packed(x0, p1, s1, a1, r1);
    lemma_unpack_packed(x1, p2, s2, a2, r2);
    lemma_pack_split(0, p0, s0, a0, r0);
    lemma_pow256_monotonic(s0 + a0, 16);
    lemma_pow256_16();
    assert(x2 < 0x1_0000_0000_0000_0000_0000_0000_0000_0000);
    assert(t.spec_to_u128() as nat == x2);
}

impl<A: EndianRepr, B: EndianRepr, C: EndianRepr, D: EndianRepr> EndianRepr for (A, B, C, D) {
    open spec fn spec_repr_supported() -> bool {
        A::spec_repr_supported()
        && B::spec_repr_supported()
        && C::spec_repr_supported()
        && D::spec_repr_supported()
        && supported_width(vstd::layout::size_of::<A>())
        && supported_width(vstd::layout::size_of::<B>())
        && supported_width(vstd::layout::size_of::<C>())
        && supported_width(vstd::layout::size_of::<D>())
        && vstd::layout::size_of::<A>() + vstd::layout::size_of::<B>() + vstd::layout::size_of::<C>() + vstd::layout::size_of::<D>() <= 16
    }

    /// The parts' bytes in turn, most significant first, each part cut to its width.
    open spec fn spec_to_u128(self) -> u128 {
        pack_part(pack_part(pack_part(pack_part(0, self.0.spec_to_u128() as nat, vstd::layout::size_of::<A>()), self.1.spec_to_u128() as nat, vstd::layout::size_of::<B>()), self.2.spec_to_u128() as nat, vstd::layout::size_of::<C>()), self.3.spec_to_u128() as nat, vstd::layout::size_of::<D>()) as u128
    }

    /// Each part read from its bytes, in turn from the most significant.
    open spec fn spec_from_u128(v: u128) -> Self {
        (
            A::spec_from_u128(unpack_part(v as nat, vstd::layout::size_of::<A>(), vstd::layout::size_of::<B>() + vstd::layout::size_of::<C>() + vstd::layout::size_of::<D>()) as u128),
            B::spec_from_u128(unpack_part(v as nat, vstd::layout::size_of::<B>(), vstd::layout::size_of::<C>() + vstd::layout::size_of::<D>()) as u128),
            C::spec_from_u128(unpack_part(v as nat, vstd::layout::size_of::<C>(), vstd::layout::size_of::<D>()) as u128),
            D::spec_from_u128(unpack_part(v as nat, vstd::layout::size_of::<D>(), 0) as u128),
        )
    }

    fn repr_supported() -> (r: bool) {
        let s0 = core::mem::size_of::<A>();
        let s1 = core::mem::size_of::<B>();
        let s2 = core::mem::size_of::<C>();
        let s3 = core::mem::size_of::<D>();
        if !(width_supported(s0) && width_supported(s1) && width_supported(s2) && width_supported(s3)) {
            return false;
        }
        A::repr_supported() && B::repr_supported() && C::repr_supported() && D::repr_supported() && s0 + s1 + s2 + s3 <= 16
    }

    fn to_u128(self) -> (r: u128) {
        let s0 = core::mem::size_of::<A>();
        let s1 = core::mem::size_of::<B>();
        let s2 = core::mem::size_of::<C>();
        let s3 = core::mem::size_of::<D>();
        let acc: u128 = pack_step(0, 0, self.0.to_u128(), s0);
        let acc: u128 = pack_step(acc, s0, self.1.to_u128(), s1);
        let acc: u128 = pack_step(acc, s0 + s1, self.2.to_u128(), s2);
        let acc: u128 = pack_step(acc, s0 + s1 + s2, self.3.to_u128(), s3);
        acc
    }

    fn from_u128(v: u128) -> (r: Self) {
        let s0 = core::mem::size_of::<A>();
        let s1 = core::mem::size_of::<B>();
        let s2 = core::mem::size_of::<C>();
        let s3 = core::mem::size_of::<D>();
        (
            A::from_u128(unpack_step(v, s0, s1 + s2 + s3)),
            B::from_u128(unpack_step(v, s1, s2 + s3)),
            C::from_u128(unpack_step(v, s2, s3)),
            D::from_u128(unpack_step(v, s3, 0)),
        )
    }
}

/// A 4-tuple whose parts each fit their width, and read back unchanged from their own
/// number, is read back unchanged from the tuple's number.
pub proof fn law_tuple4_repr_round_trip<A: EndianRepr, B: EndianRepr, C: EndianRepr, D: EndianRepr>(t: (A, B, C, D))
    requires
        <(A, B, C, D) as EndianRepr>::spec_repr_supported(),
        t.0.spec_to_u128() < pow256(vstd::layout::size_of::<A>()),
        A::spec_from_u128(t.0.spec_to_u128()) == t.0,
        t.1.spec_to_u128() < pow256(vstd::layout::size_of::<B>()),
        B::spec_from_u128(t.1.spec_to_u128()) == t.1,
        t.2.spec_to_u128() < pow256(vstd::layout::size_of::<C>()),
        C::spec_from_u128(t.2.spec_to_u128()) == t.2,
        t.3.spec_to_u128() < pow256(vstd::layout::size_of::<D>()),
        D::spec_from_u128(t.3.spec_to_u128()) == t.3,
    ensures
        <(A, B, C, D) as EndianRepr>::spec_from_u128(t.spec_to_u128()) == t,
{
    let s0 = vstd::layout::size_of::<A>();
    let p0 = t.0.spec_to_u128() as nat;
    lemma_fits(p0, s0);
    let s1 = vstd::layout::size_of::<B>();
    let p1 = t.1.spec_to_u128() as nat;
    lemma_fits(p1, s1);
    let s2 = vstd::layout::size_of::<C>();
    let p2 = t.2.spec_to_u128() as nat;
    lemma_fits(p2, s2);
    let s3 = vstd::layout::size_of::<D>();
    let p3 = t.3.spec_to_u128() as nat;
    lemma_fits(p3, s3);
    let x0 = p0;
    let x1 = x0 * pow256(s1) + p1;
    let x2 = x1 * pow256(s2) + p2;
    let x3 = x2 * pow256(s3) + p3;
    let r3: nat = 0;
    let a3: nat = 0;
    lemma_pow256_positive(a3);
    lemma_pack_split(x2, p3, s3, a3, r3);
    let a2: nat = s3 + a3;
    let r2: nat = p3 * pow256(a3) + r3;
    lemma_pow256_positive(a2);
    lemma_pack_split(x1, p2, s2, a2, r2);
    let a1: nat = s2 + a2;
    let r1: nat = p2 * pow256(a2) + r2;
    lemma_pow256_positive(a1);
    lemma_pack_split(x0, p1, s1, a1, r1);
    let a0: nat = s1 + a1;
    let r0: nat = p1 * pow256(a1) + r1;
    lemma_times_pow256_zero(x3);
    lemma_unpack_packed(0, p0, s0, a0, r0);
    assert(x0 == 0 * pow256(s0) + p0);
    lemma_unpack_packed(x0, p1, s1, a1, r1);
    lemma_unpack_packed(x1, p2, s2, a2, r2);
    lemma_unpack_packed(x2, p3, s3, a3, r3);
    lemma_pack_split(0, p0, s0, a0, r0);
    lemma_pow256_monotonic(s0 + a0, 16);
    lemma_pow256_16();
    assert(x3 < 0x1_0000_0000_0000_0000_0000_0000_0000_0000);
    assert(t.spec_to_u128() as nat == x3);
}

impl<A: EndianRepr, B: EndianRepr, C: EndianRepr, D: EndianRepr, E: EndianRepr> EndianRepr for (A, B, C, D, E) {
    open spec fn spec_repr_supported() -> bool {
        A::spec_repr_supported()
        && B::spec_repr_supported()
        && C::spec_repr_supported()
        && D::spec_repr_supported()
        && E::spec_repr_supported()
        && supported_width(vstd::layout::size_of::<A>())
        && supported_width(vstd::layout::size_of::<B>())
        && supported_width(vstd::layout::size_of::<C>())
        && supported_width(vstd::layout::size_of::<D>())
        && supported_width(vstd::layout::size_of::<E>())
        && vstd::layout::size_of::<A>() + vstd::layout::size_of::<B>() + vstd::layout::size_of::<C>() + vstd::layout::size_of::<D>() + vstd::layout::size_of::<E>() <= 16
    }

    /// The parts' bytes in turn, most significant first, each part cut to its width.
    open spec fn spec_to_u128(self) -> u128 {
        pack_part(pack_part(pack_part(pack_part(pack_part(0, self.0.spec_to_u128() as nat, vstd::layout::size_of::<A>()), self.1.spec_to_u128() as nat, vstd::layout::size_of::<B>()), self.2.spec_to_u128() as nat, vstd::layout::size_of::<C>()), self.3.spec_to_u128() as nat, vstd::layout::size_of::<D>()), self.4.spec_to_u128() as nat, vstd::layout::size_of::<E>()) as u128
    }

    /// Each part read from its bytes, in turn from the most significant.
    open spec fn spec_from_u128(v: u128) -> Self {
        (
            A::spec_from_u128(unpack_part(v as nat, vstd::layout::size_of::<A>(), vstd::layout::size_of::<B>() + vstd::layout::size_of::<C>() + vstd::layout::size_of::<D>() + vstd::layout::size_of::<E>()) as u128),
            B::spec_from_u128(unpack_part(v as nat, vstd::layout::size_of::<B>(), vstd::layout::size_of::<C>() + vstd::layout::size_of::<D>() + vstd::layout::size_of::<E>()) as u128),
            C::spec_from_u128(unpack_part(v as nat, vstd::layout::size_of::<C>(), vstd::layout::size_of::<D>() + vstd::layout::size_of::<E>()) as u128),
            D::spec_from_u128(unpack_part(v as nat, vstd::layout::size_of::<D>(), vstd::layout::size_of::<E>()) as u128),
            E::spec_from_u128(unpack_part(v as nat, vstd::layout::size_of::<E>(), 0) as u128),
        )
    }

    fn repr_supported() -> (r: bool) {
        let s0 = core::mem::size_of::<A>();
        let s1 = core::mem::size_of::<B>();
        let s2 = core::mem::size_of::<C>();
        let s3 = core::mem::size_of::<D>();
        let s4 = core::mem::size_of::<E>();
        if !(width_supported(s0) && width_supported(s1) && width_supported(s2) && width_supported(s3) && width_supported(s4)) {
            return false;
        }
        A::repr_supported() && B::repr_supported() && C::repr_supported() && D::repr_supported() && E::repr_supported() && s0 + s1 + s2 + s3 + s4 <= 16
    }

    fn to_u128(self) -> (r: u128) {
        let s0 = core::mem::size_of::<A>();
        let s1 = core::mem::size_of::<B>();
        let s2 = core::mem::size_of::<C>();
        let s3 = core::mem::size_of::<D>();
        let s4 = core::mem::size_of::<E>();
        let acc: u128 = pack_step(0, 0, self.0.to_u128(), s0);
        let acc: u128 = pack_step(acc, s0, self.1.to_u128(), s1);
        let acc: u128 = pack_step(acc, s0 + s1, self.2.to_u128(), s2);
        let acc: u128 = pack_step(acc, s0 + s1 + s2, self.3.to_u128(), s3);
        let acc: u128 = pack_step(acc, s0 + s1 + s2 + s3, self.4.to_u128(), s4);
        acc
    }

    fn from_u128(v: u128) -> (r: Self) {
        let s0 = core::mem::size_of::<A>();
        let s1 = core::mem::size_of::<B>();
        let s2 = core::mem::size_of::<C>();
        let s3 = core::mem::size_of::<D>();
        let s4 = core::mem::size_of::<E>();
        (
            A::from_u128(unpack_step(v, s0, s1 + s2 + s3 + s4)),
            B::from_u128(unpack_step(v, s1, s2 + s3 + s4)),
            C::from_u128(unpack_step(v, s2, s3 + s4)),
            D::from_u128(unpack_step(v, s3, s4)),
            E::from_u128(unpack_step(v, s4, 0)),
        )
    }
}

/// A 5-tuple whose parts each fit their width, and read back unchanged from their own
/// number, is read back unchanged from the tuple's number.
pub proof fn law_tuple5_repr_round_trip<A: EndianRepr, B: EndianRepr, C: EndianRepr, D: EndianRepr, E: EndianRepr>(t: (A, B, C, D, E))
    requires
        <(A, B, C, D, E) as EndianRepr>::spec_repr_supported(),
        t.0.spec_to_u128() < pow256(vstd::layout::size_of::<A>()),
        A::spec_from_u128(t.0.spec_to_u128()) == t.0,
        t.1.spec_to_u128() < pow256(vstd::layout::size_of::<B>()),
        B::spec_from_u128(t.1.spec_to_u128()) == t.1,
        t.2.spec_to_u128() < pow256(vstd::layout::size_of::<C>()),
        C::spec_from_u128(t.2.spec_to_u128()) == t.2,
        t.3.spec_to_u128() < pow256(vstd::layout::size_of::<D>()),
        D::spec_from_u128(t.3.spec_to_u128()) == t.3,
        t.4.spec_to_u128() < pow256(vstd::layout::size_of::<E>()),
        E::spec_from_u128(t.4.spec_to_u128()) == t.4,
    ensures
        <(A, B, C, D, E) as EndianRepr>::spec_from_u128(t.spec_to_u128()) == t,
{
    let s0 = vstd::layout::size_of::<A>();
    let p0 = t.0.spec_to_u128() as nat;
    lemma_fits(p0, s0);
    let s1 = vstd::layout::size_of::<B>();
    let p1 = t.1.spec_to_u128() as nat;
    lemma_fits(p1, s1);
    let s2 = vstd::layout::size_of::<C>();
    let p2 = t.2.spec_to_u128() as nat;
    lemma_fits(p2, s2);
    let s3 = vstd::layout::size_of::<D>();
    let p3 = t.3.spec_to_u128() as nat;
    lemma_fits(p3, s3);
    let s4 = vstd::layout::size_of::<E>();
    let p4 = t.4.spec_to_u128() as nat;
    lemma_fits(p4, s4);
    let x0 = p0;
    let x1 = x0 * pow256(s1) + p1;
    let x2 = x1 * pow256(s2) + p2;
    let x3 = x2 * pow256(s3) + p3;
    let x4 = x3 * pow256(s4) + p4;
    let r4: nat = 0;
    let a4: nat = 0;
    lemma_pow256_positive(a4);
    lemma_pack_split(x3, p4, s4, a4, r4);
    let a3: nat = s4 + a4;
    let r3: nat = p4 * pow256(a4) + r4;
    lemma_pow256_positive(a3);
    lemma_pack_split(x2, p3, s3, a3, r3);
    let a2: nat = s3 + a3;
    let r2: nat = p3 * pow256(a3) + r3;
    lemma_pow256_positive(a2);
    lemma_pack_split(x1, p2, s2, a2, r2);
    let a1: nat = s2 + a2;
    let r1: nat = p2 * pow256(a2) + r2;
    lemma_pow256_positive(a1);
    lemma_pack_split(x0, p1, s1, a1, r1);
    let a0: nat = s1 + a1;
    let r0: nat = p1 * pow256(a1) + r1;
    lemma_times_pow256_zero(x4);
    lemma_unpack_packed(0, p0, s0, a0, r0);
    assert(x0 == 0 * pow256(s0) + p0);
    lemma_unpack_packed(x0, p1, s1, a1, r1);
    lemma_unpack_packed(x1, p2, s2, a2, r2);
    lemma_unpack_packed(x2, p3, s3, a3, r3);
    lemma_unpack_packed(x3, p4, s4, a4, r4);
    lemma_pack_split(0, p0, s0, a0, r0);
    lemma_pow256_monotonic(s0 + a0, 16);
    lemma_pow256_16();
    assert(x4 < 0x1_0000_0000_0000_0000_0000_0000_0000_0000);
    assert(t.spec_to_u128() as nat == x4);
}

impl<A: EndianRepr, B: EndianRepr, C: EndianRepr, D: EndianRepr, E: EndianRepr, F: EndianRepr> EndianRepr for (A, B, C, D, E, F) {
    open spec fn spec_repr_supported() -> bool {
        A::spec_repr_supported()
        && B::spec_repr_supported()
        && C::spec_repr_supported()
        && D::spec_repr_supported()
        && E::spec_repr_supported()
        && F::spec_repr_supported()
        && supported_width(vstd::layout::size_of::<A>())
        && supported_width(vstd::layout::size_of::<B>())
        && supported_width(vstd::layout::size_of::<C>())
        && supported_width(vstd::layout::size_of::<D>())
        && supported_width(vstd::layout::size_of::<E>())
        && supported_width(vstd::layout::size_of::<F>())
        && vstd::layout::size_of::<A>() + vstd::layout::size_of::<B>() + vstd::layout::size_of::<C>() + vstd::layout::size_of::<D>() + vstd::layout::size_of::<E>() + vstd::layout::size_of::<F>() <= 16
    }

    /// The parts' bytes in turn, most significant first, each part cut to its width.
    open spec fn spec_to_u128(self) -> u128 {
        pack_part(pack_part(pack_part(pack_part(pack_part(pack_part(0, self.0.spec_to_u128() as nat, vstd::layout::size_of::<A>()), self.1.spec_to_u128() as nat, vstd::layout::size_of::<B>()), self.2.spec_to_u128() as nat, vstd::layout::size_of::<C>()), self.3.spec_to_u128() as nat, vstd::layout::size_of::<D>()), self.4.spec_to_u128() as nat, vstd::layout::size_of::<E>()), self.5.spec_to_u128() as nat, vstd::layout::size_of::<F>()) as u128
    }

    /// Each part read from its bytes, in turn from the most significant.
    open spec fn spec_from_u128(v: u128) -> Self {
        (
            A::spec_from_u128(unpack_part(v as nat, vstd::layout::size_of::<A>(), vstd::layout::size_of::<B>() + vstd::layout::size_of::<C>() + vstd::layout::size_of::<D>() + vstd::layout::size_of::<E>() + vstd::layout::size_of::<F>()) as u128),
            B::spec_from_u128(unpack_part(v as nat, vstd::layout::size_of::<B>(), vstd::layout::size_of::<C>() + vstd::layout::size_of::<D>() + vstd::layout::size_of::<E>() + vstd::layout::size_of::<F>()) as u128),
            C::spec_from_u128(unpack_part(v as nat, vstd::layout::size_of::<C>(), vstd::layout::size_of::<D>() + vstd::layout::size_of::<E>() + vstd::layout::size_of::<F>()) as u128),
            D::spec_from_u128(unpack_part(v as nat, vstd::layout::size_of::<D>(), vstd::layout::size_of::<E>() + vstd::layout::size_of::<F>()) as u128),
            E::spec_from_u128(unpack_part(v as nat, vstd::layout::size_of::<E>(), vstd::layout::size_of::<F>()) as u128),
            F::spec_from_u128(unpack_part(v as nat, vstd::layout::size_of::<F>(), 0) as u128),
        )
    }

    fn repr_supported() -> (r: bool) {
        let s0 = core::mem::size_of::<A>();
        let s1 = core::mem::size_of::<B>();
        let s2 = core::mem::size_of::<C>();
        let s3 = core::mem::size_of::<D>();
        let s4 = core::mem::size_of::<E>();
        let s5 = core::mem::size_of::<F>();
        if !(width_supported(s0) && width_supported(s1) && width_supported(s2) && width_supported(s3) && width_supported(s4) && width_supported(s5)) {
            return false;
        }
        A::repr_supported() && B::repr_supported() && C::repr_supported() && D::repr_supported() && E::repr_supported() && F::repr_supported() && s0 + s1 + s2 + s3 + s4 + s5 <= 16
    }

    fn to_u128(self) -> (r: u128) {
        let s0 = core::mem::size_of::<A>();
        let s1 = core::mem::size_of::<B>();
        let s2 = core::mem::size_of::<C>();
        let s3 = core::mem::size_of::<D>();
        let s4 = core::mem::size_of::<E>();
        let s5 = core::mem::size_of::<F>();
        let acc: u128 = pack_step(0, 0, self.0.to_u128(), s0);
        let acc: u128 = pack_step(acc, s0, self.1.to_u128(), s1);
        let acc: u128 = pack_step(acc, s0 + s1, self.2.to_u128(), s2);
        let acc: u128 = pack_step(acc, s0 + s1 + s2, self.3.to_u128(), s3);
        let acc: u128 = pack_step(acc, s0 + s1 + s2 + s3, self.4.to_u128(), s4);
        let acc: u128 = pack_step(acc, s0 + s1 + s2 + s3 + s4, self.5.to_u128(), s5);
        acc
    }

    fn from_u128(v: u128) -> (r: Self) {
        let s0 = core::mem::size_of::<A>();
        let s1 = core::mem::size_of::<B>();
        let s2 = core::mem::size_of::<C>();
        let s3 = core::mem::size_of::<D>();
        let s4 = core::mem::size_of::<E>();
        let s5 = core::mem::size_of::<F>();
        (
            A::from_u128(unpack_step(v, s0, s1 + s2 + s3 + s4 + s5)),
            B::from_u128(unpack_step(v, s1, s2 + s3 + s4 + s5)),
            C::from_u128(unpack_step(v, s2, s3 + s4 + s5)),
            D::from_u128(unpack_step(v, s3, s4 + s5)),
            E::from_u128(unpack_step(v, s4, s5)),
            F::from_u128(unpack_step(v, s5, 0)),
        )
    }
}

/// A 6-tuple whose parts each fit their width, and read back unchanged from their own
/// number, is read back unchanged from the tuple's number.
#[verifier::rlimit(100)]
#[verifier::spinoff_prover]
pub proof fn law_tuple6_repr_round_trip<A: EndianRepr, B: EndianRepr, C: EndianRepr, D: EndianRepr, E: EndianRepr, F: EndianRepr>(t: (A, B, C, D, E, F))
    requires
        <(A, B, C, D, E, F) as EndianRepr>::spec_repr_supported(),
        t.0.spec_to_u128() < pow256(vstd::layout::size_of::<A>()),
        A::spec_from_u128(t.0.spec_to_u128()) == t.0,
        t.1.spec_to_u128() < pow256(vstd::layout::size_of::<B>()),
        B::spec_from_u128(t.1.spec_to_u128()) == t.1,
        t.2.spec_to_u128() < pow256(vstd::layout::size_of::<C>()),
        C::spec_from_u128(t.2.spec_to_u128()) == t.2,
        t.3.spec_to_u128() < pow256(vstd::layout::size_of::<D>()),
        D::spec_from_u128(t.3.spec_to_u128()) == t.3,
        t.4.spec_to_u128() < pow256(vstd::layout::size_of::<E>()),
        E::spec_from_u128(t.4.spec_to_u128()) == t.4,
        t.5.spec_to_u128() < pow256(vstd::layout::size_of::<F>()),
        F::spec_from_u128(t.5.spec_to_u128()) == t.5,
    ensures
        <(A, B, C, D, E, F) as EndianRepr>::spec_from_u128(t.spec_to_u128()) == t,
{
    let s0 = vstd::layout::size_of::<A>();
    let p0 = t.0.spec_to_u128() as nat;
    lemma_fits(p0, s0);
    let s1 = vstd::layout::size_of::<B>();
    let p1 = t.1.spec_to_u128() as nat;
    lemma_fits(p1, s1);
    let s2 = vstd::layout::size_of::<C>();
    let p2 = t.2.spec_to_u128() as nat;
    lemma_fits(p2, s2);
    let s3 = vstd::layout::size_of::<D>();
    let p3 = t.3.spec_to_u128() as nat;
    lemma_fits(p3, s3);
    let s4 = vstd::layout::size_of::<E>();
    let p4 = t.4.spec_to_u128() as nat;
    lemma_fits(p4, s4);
    let s5 = vstd::layout::size_of::<F>();
    let p5 = t.5.spec_to_u128() as nat;
    lemma_fits(p5, s5);
    let x0 = p0;
    let x1 = x0 * pow256(s1) + p1;
    let x2 = x1 * pow256(s2) + p2;
    let x3 = x2 * pow256(s3) + p3;
    let x4 = x3 * pow256(s4) + p4;
    let x5 = x4 * pow256(s5) + p5;
    let r5: nat = 0;
    let a5: nat = 0;
    lemma_pow256_positive(a5);
    lemma_pack_split(x4, p5, s5, a5, r5);
    let a4: nat = s5 + a5;
    let r4: nat = p5 * pow256(a5) + r5;
    lemma_pow256_positive(a4);
    lemma_pack_split(x3, p4, s4, a4, r4);
    let a3: nat = s4 + a4;
    let r3: nat = p4 * pow256(a4) + r4;
    lemma_pow256_positive(a3);
    lemma_pack_split(x2, p3, s3, a3, r3);
    let a2: nat = s3 + a3;
    let r2: nat = p3 * pow256(a3) + r3;
    lemma_pow256_positive(a2);
    lemma_pack_split(x1, p2, s2, a2, r2);
    let a1: nat = s2 + a2;
    let r1: nat = p2 * pow256(a2) + r2;
    lemma_pow256_positive(a1);
    lemma_pack_split(x0, p1, s1, a1, r1);
    let a0: nat = s1 + a1;
    let r0: nat = p1 * pow256(a1) + r1;
    lemma_times_pow256_zero(x5);
    lemma_unpack_packed(0, p0, s0, a0, r0);
    assert(x0 == 0 * pow256(s0) + p0);
    lemma_unpack_packed(x0, p1, s1, a1, r1);
    lemma_unpack_packed(x1, p2, s2, a2, r2);
    lemma_unpack_packed(x2, p3, s3, a3, r3);
    lemma_unpack_packed(x3, p4, s4, a4, r4);
    lemma_unpack_packed(x4, p5, s5, a5, r5);
    lemma_pack_split(0, p0, s0, a0, r0);
    lemma_pow256_monotonic(s0 + a0, 16);
    lemma_pow256_16();
    assert(x5 < 0x1_0000_0000_0000_0000_0000_0000_0000_0000);
    assert(t.spec_to_u128() as nat == x5);
}

impl<A: EndianRepr, B: EndianRepr, C: EndianRepr, D: EndianRepr, E: EndianRepr, F: EndianRepr, G: EndianRepr> EndianRepr for (A, B, C, D, E, F, G) {
    open spec fn spec_repr_supported() -> bool {
        A::spec_repr_supported()
        && B::spec_repr_supported()
        && C::spec_repr_supported()
        && D::spec_repr_supported()
        && E::spec_repr_supported()
        && F::spec_repr_supported()
        && G::spec_repr_supported()
        && supported_width(vstd::layout::size_of::<A>())
        && supported_width(vstd::layout::size_of::<B>())
        && supported_width(vstd::layout::size_of::<C>())
        && supported_width(vstd::layout::size_of::<D>())
        && supported_width(vstd::layout::size_of::<E>())
        && supported_width(vstd::layout::size_of::<F>())
        && supported_width(vstd::layout::size_of::<G>())
        && vstd::layout::size_of::<A>() + vstd::layout::size_of::<B>() + vstd::layout::size_of::<C>() + vstd::layout::size_of::<D>() + vstd::layout::size_of::<E>() + vstd::layout::size_of::<F>() + vstd::layout::size_of::<G>() <= 16
    }

    /// The parts' bytes in turn, most significant first, each part cut to its width.
    open spec fn spec_to_u128(self) -> u128 {
        pack_part(pack_part(pack_part(pack_part(pack_part(pack_part(pack_part(0, self.0.spec_to_u128() as nat, vstd::layout::size_of::<A>()), self.1.spec_to_u128() as nat, vstd::layout::size_of::<B>()), self.2.spec_to_u128() as nat, vstd::layout::size_of::<C>()), self.3.spec_to_u128() as nat, vstd::layout::size_of::<D>()), self.4.spec_to_u128() as nat, vstd::layout::size_of::<E>()), self.5.spec_to_u128() as nat, vstd::layout::size_of::<F>()), self.6.spec_to_u128() as nat, vstd::layout::size_of::<G>()) as u128
    }

    /// Each part read from its bytes, in turn from the most significant.
    open spec fn spec_from_u128(v: u128) -> Self {
        (
            A::spec_from_u128(unpack_part(v as nat, vstd::layout::size_of::<A>(), vstd::layout::size_of::<B>() + vstd::layout::size_of::<C>() + vstd::layout::size_of::<D>() + vstd::layout::size_of::<E>() + vstd::layout::size_of::<F>() + vstd::layout::size_of::<G>()) as u128),
            B::spec_from_u128(unpack_part(v as nat, vstd::layout::size_of::<B>(), vstd::layout::size_of::<C>() + vstd::layout::size_of::<D>() + vstd::layout::size_of::<E>() + vstd::layout::size_of::<F>() + vstd::layout::size_of::<G>()) as u128),
            C::spec_from_u128(unpack_part(v as nat, vstd::layout::size_of::<C>(), vstd::layout::size_of::<D>() + vstd::layout::size_of::<E>() + vstd::layout::size_of::<F>() + vstd::layout::size_of::<G>()) as u128),
            D::spec_from_u128(unpack_part(v as nat, vstd::layout::size_of::<D>(), vstd::layout::size_of::<E>() + vstd::layout::size_of::<F>() + vstd::layout::size_of::<G>()) as u128),
            E::spec_from_u128(unpack_part(v as nat, vstd::layout::size_of::<E>(), vstd::layout::size_of::<F>() + vstd::layout::size_of::<G>()) as u128),
            F::spec_from_u128(unpack_part(v as nat, vstd::layout::size_of::<F>(), vstd::layout::size_of::<G>()) as u128),
            G::spec_from_u128(unpack_part(v as nat, vstd::layout::size_of::<G>(), 0) as u128),
        )
    }

    fn repr_supported() -> (r: bool) {
        let s0 = core::mem::size_of::<A>();
        let s1 = core::mem::size_of::<B>();
        let s2 = core::mem::size_of::<C>();
        let s3 = core::mem::size_of::<D>();
        let s4 = core::mem::size_of::<E>();
        let s5 = core::mem::size_of::<F>();
        let s6 = core::mem::size_of::<G>();
        if !(width_supported(s0) && width_supported(s1) && width_supported(s2) && width_supported(s3) && width_supported(s4) && width_supported(s5) && width_supported(s6)) {
            return false;
        }
        A::repr_supported() && B::repr_supported() && C::repr_supported() && D::repr_supported() && E::repr_supported() && F::repr_supported() && G::repr_supported() && s0 + s1 + s2 + s3 + s4 + s5 + s6 <= 16
    }

    fn to_u128(self) -> (r: u128) {
        let s0 = core::mem::size_of::<A>();
        let s1 = core::mem::size_of::<B>();
        let s2 = core::mem::size_of::<C>();
        let s3 = core::mem::size_of::<D>();
        let s4 = core::mem::size_of::<E>();
        let s5 = core::mem::size_of::<F>();
        let s6 = core::mem::size_of::<G>();
        let acc: u128 = pack_step(0, 0, self.0.to_u128(), s0);
        let acc: u128 = pack_step(acc, s0, self.1.to_u128(), s1);
        let acc: u128 = pack_step(acc, s0 + s1, self.2.to_u128(), s2);
        let acc: u128 = pack_step(acc, s0 + s1 + s2, self.3.to_u128(), s3);
        let acc: u128 = pack_step(acc, s0 + s1 + s2 + s3, self.4.to_u128(), s4);
        let acc: u128 = pack_step(acc, s0 + s1 + s2 + s3 + s4, self.5.to_u128(), s5);
        let acc: u128 = pack_step(acc, s0 + s1 + s2 + s3 + s4 + s5, self.6.to_u128(), s6);
        acc
    }

    fn from_u128(v: u128) -> (r: Self) {
        let s0 = core::mem::size_of::<A>();
        let s1 = core::mem::size_of::<B>();
        let s2 = core::mem::size_of::<C>();
        let s3 = core::mem::size_of::<D>();
        let s4 = core::mem::size_of::<E>();
        let s5 = core::mem::size_of::<F>();
        let s6 = core::mem::size_of::<G>();
        (
            A::from_u128(unpack_step(v, s0, s1 + s2 + s3 + s4 + s5 + s6)),
            B::from_u128(unpack_step(v, s1, s2 + s3 + s4 + s5 + s6)),
            C::from_u128(unpack_step(v, s2, s3 + s4 + s5 + s6)),
            D::from_u128(unpack_step(v, s3, s4 + s5 + s6)),
            E::from_u128(unpack_step(v, s4, s5 + s6)),
            F::from_u128(unpack_step(v, s5, s6)),
            G::from_u128(unpack_step(v, s6, 0)),
        )
    }
}

/// A 7-tuple whose parts each fit their width, and read back unchanged from their own
/// number, is read back unchanged from the tuple's number.
#[verifier::rlimit(100)]
#[verifier::spinoff_prover]
pub proof fn law_tuple7_repr_round_trip<A: EndianRepr, B: EndianRepr, C: EndianRepr, D: EndianRepr, E: EndianRepr, F: EndianRepr, G: EndianRepr>(t: (A, B, C, D, E, F, G))
    requires
        <(A, B, C, D, E, F, G) as EndianRepr>::spec_repr_supported(),
        t.0.spec_to_u128() < pow256(vstd::layout::size_of::<A>()),
        A::spec_from_u128(t.0.spec_to_u128()) == t.0,
        t.1.spec_to_u128() < pow256(vstd::layout::size_of::<B>()),
        B::spec_from_u128(t.1.spec_to_u128()) == t.1,
        t.2.spec_to_u128() < pow256(vstd::layout::size_of::<C>()),
        C::spec_from_u128(t.2.spec_to_u128()) == t.2,
        t.3.spec_to_u128() < pow256(vstd::layout::size_of::<D>()),
        D::spec_from_u128(t.3.spec_to_u128()) == t.3,
        t.4.spec_to_u128() < pow256(vstd::layout::size_of::<E>()),
        E::spec_from_u128(t.4.spec_to_u128()) == t.4,
        t.5.spec_to_u128() < pow256(vstd::layout::size_of::<F>()),
        F::spec_from_u128(t.5.spec_to_u128()) == t.5,
        t.6.spec_to_u128() < pow256(vstd::layout::size_of::<G>()),
        G::spec_from_u128(t.6.spec_to_u128()) == t.6,
    ensures
        <(A, B, C, D, E, F, G) as EndianRepr>::spec_from_u128(t.spec_to_u128()) == t,
{
    let s0 = vstd::layout::size_of::<A>();
    let p0 = t.0.spec_to_u128() as nat;
    lemma_fits(p0, s0);
    let s1 = vstd::layout::size_of::<B>();
    let p1 = t.1.spec_to_u128() as nat;
    lemma_fits(p1, s1);
    let s2 = vstd::layout::size_of::<C>();
    let p2 = t.2.spec_to_u128() as nat;
    lemma_fits(p2, s2);
    let s3 = vstd::layout::size_of::<D>();
    let p3 = t.3.spec_to_u128() as nat;
    lemma_fits(p3, s3);
    let s4 = vstd::layout::size_of::<E>();
    let p4 = t.4.spec_to_u128() as nat;
    lemma_fits(p4, s4);
    let s5 = vstd::layout::size_of::<F>();
    let p5 = t.5.spec_to_u128() as nat;
    lemma_fits(p5, s5);
    let s6 = vstd::layout::size_of::<G>();
    let p6 = t.6.spec_to_u128() as nat;
    lemma_fits(p6, s6);
    let x0 = p0;
    let x1 = x0 * pow256(s1) + p1;
    let x2 = x1 * pow256(s2) + p2;
    let x3 = x2 * pow256(s3) + p3;
    let x4 = x3 * pow256(s4) + p4;
    let x5 = x4 * pow256(s5) + p5;
    let x6 = x5 * pow256(s6) + p6;
    let r6: nat = 0;
    let a6: nat = 0;
    lemma_pow256_positive(a6);
    lemma_pack_split(x5, p6, s6, a6, r6);
    let a5: nat = s6 + a6;
    let r5: nat = p6 * pow256(a6) + r6;
    lemma_pow256_positive(a5);
    lemma_pack_split(x4, p5, s5, a5, r5);
    let a4: nat = s5 + a5;
    let r4: nat = p5 * pow256(a5) + r5;
    lemma_pow256_positive(a4);
    lemma_pack_split(x3, p4, s4, a4, r4);
    let a3: nat = s4 + a4;
    let r3: nat = p4 * pow256(a4) + r4;
    lemma_pow256_positive(a3);
    lemma_pack_split(x2, p3, s3, a3, r3);
    let a2: nat = s3 + a3;
    let r2: nat = p3 * pow256(a3) + r3;
    lemma_pow256_positive(a2);
    lemma_pack_split(x1, p2, s2, a2, r2);
    let a1: nat = s2 + a2;
    let r1: nat = p2 * pow256(a2) + r2;
    lemma_pow256_positive(a1);
    lemma_pack_split(x0, p1, s1, a1, r1);
    let a0: nat = s1 + a1;
    let r0: nat = p1 * pow256(a1) + r1;
    lemma_times_pow256_zero(x6);
    lemma_unpack_packed(0, p0, s0, a0, r0);
    assert(x0 == 0 * pow256(s0) + p0);
    lemma_unpack_packed(x0, p1, s1, a1, r1);
    lemma_unpack_packed(x1, p2, s2, a2, r2);
    lemma_unpack_packed(x2, p3, s3, a3, r3);
    lemma_unpack_packed(x3, p4, s4, a4, r4);
    lemma_unpack_packed(x4, p5, s5, a5, r5);
    lemma_unpack_packed(x5, p6, s6, a6, r6);
    lemma_pack_split(0, p0, s0, a0, r0);
    lemma_pow256_monotonic(s0 + a0, 16);
    lemma_pow256_16();
    assert(x6 < 0x1_0000_0000_0000_0000_0000_0000_0000_0000);
    assert(t.spec_to_u128() as nat == x6);
}

impl<A: EndianRepr, B: EndianRepr, C: EndianRepr, D: EndianRepr, E: EndianRepr, F: EndianRepr, G: EndianRepr, H: EndianRepr> EndianRepr for (A, B, C, D, E, F, G, H) {
    open spec fn spec_repr_supported() -> bool {
        A::spec_repr_supported()
        && B::spec_repr_supported()
        && C::spec_repr_supported()
        && D::spec_repr_supported()
        && E::spec_repr_supported()
        && F::spec_repr_supported()
        && G::spec_repr_supported()
        && H::spec_repr_supported()
        && supported_width(vstd::layout::size_of::<A>())
        && supported_width(vstd::layout::size_of::<B>())
        && supported_width(vstd::layout::size_of::<C>())
        && supported_width(vstd::layout::size_of::<D>())
        && supported_width(vstd::layout::size_of::<E>())
        && supported_width(vstd::layout::size_of::<F>())
        && supported_width(vstd::layout::size_of::<G>())
        && supported_width(vstd::layout::size_of::<H>())
        && vstd::layout::size_of::<A>() + vstd::layout::size_of::<B>() + vstd::layout::size_of::<C>() + vstd::layout::size_of::<D>() + vstd::layout::size_of::<E>() + vstd::layout::size_of::<F>() + vstd::layout::size_of::<G>() + vstd::layout::size_of::<H>() <= 16
    }

    /// The parts' bytes in turn, most significant first, each part cut to its width.
    open spec fn spec_to_u128(self) -> u128 {
        pack_part(pack_part(pack_part(pack_part(pack_part(pack_part(pack_part(pack_part(0, self.0.spec_to_u128() as nat, vstd::layout::size_of::<A>()), self.1.spec_to_u128() as nat, vstd::layout::size_of::<B>()), self.2.spec_to_u128() as nat, vstd::layout::size_of::<C>()), self.3.spec_to_u128() as nat, vstd::layout::size_of::<D>()), self.4.spec_to_u128() as nat, vstd::layout::size_of::<E>()), self.5.spec_to_u128() as nat, vstd::layout::size_of::<F>()), self.6.spec_to_u128() as nat, vstd::layout::size_of::<G>()), self.7.spec_to_u128() as nat, vstd::layout::size_of::<H>()) as u128
    }

    /// Each part read from its bytes, in turn from the most significant.
    open spec fn spec_from_u128(v: u128) -> Self {
        (
            A::spec_from_u128(unpack_part(v as nat, vstd::layout::size_of::<A>(), vstd::layout::size_of::<B>() + vstd::layout::size_of::<C>() + vstd::layout::size_of::<D>() + vstd::layout::size_of::<E>() + vstd::layout::size_of::<F>() + vstd::layout::size_of::<G>() + vstd::layout::size_of::<H>()) as u128),
            B::spec_from_u128(unpack_part(v as nat, vstd::layout::size_of::<B>(), vstd::layout::size_of::<C>() + vstd::layout::size_of::<D>() + vstd::layout::size_of::<E>() + vstd::layout::size_of::<F>() + vstd::layout::size_of::<G>() + vstd::layout::size_of::<H>()) as u128),
            C::spec_from_u128(unpack_part(v as nat, vstd::layout::size_of::<C>(), vstd::layout::size_of::<D>() + vstd::layout::size_of::<E>() + vstd::layout::size_of::<F>() + vstd::layout::size_of::<G>() + vstd::layout::size_of::<H>()) as u128),
            D::spec_from_u128(unpack_part(v as nat, vstd::layout::size_of::<D>(), vstd::layout::size_of::<E>() + vstd::layout::size_of::<F>() + vstd::layout::size_of::<G>() + vstd::layout::size_of::<H>()) as u128),
            E::spec_from_u128(unpack_part(v as nat, vstd::layout::size_of::<E>(), vstd::layout::size_of::<F>() + vstd::layout::size_of::<G>() + vstd::layout::size_of::<H>()) as u128),
            F::spec_from_u128(unpack_part(v as nat, vstd::layout::size_of::<F>(), vstd::layout::size_of::<G>() + vstd::layout::size_of::<H>()) as u128),
            G::spec_from_u128(unpack_part(v as nat, vstd::layout::size_of::<G>(), vstd::layout::size_of::<H>()) as u128),
            H::spec_from_u128(unpack_part(v as nat, vstd::layout::size_of::<H>(), 0) as u128),
        )
    }

    fn repr_supported() -> (r: bool) {
        let s0 = core::mem::size_of::<A>();
        let s1 = core::mem::size_of::<B>();
        let s2 = core::mem::size_of::<C>();
        let s3 = core::mem::size_of::<D>();
        let s4 = core::mem::size_of::<E>();
        let s5 = core::mem::size_of::<F>();
        let s6 = core::mem::size_of::<G>();
        let s7 = core::mem::size_of::<H>();
        if !(width_supported(s0) && width_supported(s1) && width_supported(s2) && width_supported(s3) && width_supported(s4) && width_supported(s5) && width_supported(s6) && width_supported(s7)) {
            return false;
        }
        A::repr_supported() && B::repr_supported() && C::repr_supported() && D::repr_supported() && E::repr_supported() && F::repr_supported() && G::repr_supported() && H::repr_supported() && s0 + s1 + s2 + s3 + s4 + s5 + s6 + s7 <= 16
    }

    fn to_u128(self) -> (r: u128) {
        let s0 = core::mem::size_of::<A>();
        let s1 = core::mem::size_of::<B>();
        let s2 = core::mem::size_of::<C>();
        let s3 = core::mem::size_of::<D>();
        let s4 = core::mem::size_of::<E>();
        let s5 = core::mem::size_of::<F>();
        let s6 = core::mem::size_of::<G>();
        let s7 = core::mem::size_of::<H>();
        let acc: u128 = pack_step(0, 0, self.0.to_u128(), s0);
        let acc: u128 = pack_step(acc, s0, self.1.to_u128(), s1);
        let acc: u128 = pack_step(acc, s0 + s1, self.2.to_u128(), s2);
        let acc: u128 = pack_step(acc, s0 + s1 + s2, self.3.to_u128(), s3);
        let acc: u128 = pack_step(acc, s0 + s1 + s2 + s3, self.4.to_u128(), s4);
        let acc: u128 = pack_step(acc, s0 + s1 + s2 + s3 + s4, self.5.to_u128(), s5);
        let acc: u128 = pack_step(acc, s0 + s1 + s2 + s3 + s4 + s5, self.6.to_u128(), s6);
        let acc: u128 = pack_step(acc, s0 + s1 + s2 + s3 + s4 + s5 + s6, self.7.to_u128(), s7);
        acc
    }

    fn from_u128(v: u128) -> (r: Self) {
        let s0 = core::mem::size_of::<A>();
        let s1 = core::mem::size_of::<B>();
        let s2 = core::mem::size_of::<C>();
        let s3 = core::mem::size_of::<D>();
        let s4 = core::mem::size_of::<E>();
        let s5 = core::mem::size_of::<F>();
        let s6 = core::mem::size_of::<G>();
        let s7 = core::mem::size_of::<H>();
        (
            A::from_u128(unpack_step(v, s0, s1 + s2 + s3 + s4 + s5 + s6 + s7)),
            B::from_u128(unpack_step(v, s1, s2 + s3 + s4 + s5 + s6 + s7)),
            C::from_u128(unpack_step(v, s2, s3 + s4 + s5 + s6 + s7)),
            D::from_u128(unpack_step(v, s3, s4 + s5 + s6 + s7)),
            E::from_u128(unpack_step(v, s4, s5 + s6 + s7)),
            F::from_u128(unpack_step(v, s5, s6 + s7)),
            G::from_u128(unpack_step(v, s6, s7)),
            H::from_u128(unpack_step(v, s7, 0)),
        )
    }
}

/// A 8-tuple whose parts each fit their width, and read back unchanged from their own
/// number, is read back unchanged from the tuple's number.
#[verifier::rlimit(100)]
#[verifier::spinoff_prover]
pub proof fn law_tuple8_repr_round_trip<A: EndianRepr, B: EndianRepr, C: EndianRepr, D: EndianRepr, E: EndianRepr, F: EndianRepr, G: EndianRepr, H: EndianRepr>(t: (A, B, C, D, E, F, G, H))
    requires
        <(A, B, C, D, E, F, G, H) as EndianRepr>::spec_repr_supported(),
        t.0.spec_to_u128() < pow256(vstd::layout::size_of::<A>()),
        A::spec_from_u128(t.0.spec_to_u128()) == t.0,
        t.1.spec_to_u128() < pow256(vstd::layout::size_of::<B>()),
        B::spec_from_u128(t.1.spec_to_u128()) == t.1,
        t.2.spec_to_u128() < pow256(vstd::layout::size_of::<C>()),
        C::spec_from_u128(t.2.spec_to_u128()) == t.2,
        t.3.spec_to_u128() < pow256(vstd::layout::size_of::<D>()),
        D::spec_from_u128(t.3.spec_to_u128()) == t.3,
        t.4.spec_to_u128() < pow256(vstd::layout::size_of::<E>()),
        E::spec_from_u128(t.4.spec_to_u128()) == t.4,
        t.5.spec_to_u128() < pow256(vstd::layout::size_of::<F>()),
        F::spec_from_u128(t.5.spec_to_u128()) == t.5,
        t.6.spec_to_u128() < pow256(vstd::layout::size_of::<G>()),
        G::spec_from_u128(t.6.spec_to_u128()) == t.6,
        t.7.spec_to_u128() < pow256(vstd::layout::size_of::<H>()),
        H::spec_from_u128(t.7.spec_to_u128()) == t.7,
    ensures
        <(A, B, C, D, E, F, G, H) as EndianRepr>::spec_from_u128(t.spec_to_u128()) == t,
{
    let s0 = vstd::layout::size_of::<A>();
    let p0 = t.0.spec_to_u128() as nat;
    lemma_fits(p0, s0);
    let s1 = vstd::layout::size_of::<B>();
    let p1 = t.1.spec_to_u128() as nat;
    lemma_fits(p1, s1);
    let s2 = vstd::layout::size_of::<C>();
    let p2 = t.2.spec_to_u128() as nat;
    lemma_fits(p2, s2);
    let s3 = vstd::layout::size_of::<D>();
    let p3 = t.3.spec_to_u128() as nat;
    lemma_fits(p3, s3);
    let s4 = vstd::layout::size_of::<E>();
    let p4 = t.4.spec_to_u128() as nat;
    lemma_fits(p4, s4);
    let s5 = vstd::layout::size_of::<F>();
    let p5 = t.5.spec_to_u128() as nat;
    lemma_fits(p5, s5);
    let s6 = vstd::layout::size_of::<G>();
    let p6 = t.6.spec_to_u128() as nat;
    lemma_fits(p6, s6);
    let s7 = vstd::layout::size_of::<H>();
    let p7 = t.7.spec_to_u128() as nat;
    lemma_fits(p7, s7);
    let x0 = p0;
    let x1 = x0 * pow256(s1) + p1;
    let x2 = x1 * pow256(s2) + p2;
    let x3 = x2 * pow256(s3) + p3;
    let x4 = x3 * pow256(s4) + p4;
    let x5 = x4 * pow256(s5) + p5;
    let x6 = x5 * pow256(s6) + p6;
    let x7 = x6 * pow256(s7) + p7;
    let r7: nat = 0;
    let a7: nat = 0;
    lemma_pow256_positive(a7);
    lemma_pack_split(x6, p7, s7, a7, r7);
    let a6: nat = s7 + a7;
    let r6: nat = p7 * pow256(a7) + r7;
    lemma_pow256_positive(a6);
    lemma_pack_split(x5, p6, s6, a6, r6);
    let a5: nat = s6 + a6;
    let r5: nat = p6 * pow256(a6) + r6;
    lemma_pow256_positive(a5);
    lemma_pack_split(x4, p5, s5, a5, r5);
    let a4: nat = s5 + a5;
    let r4: nat = p5 * pow256(a5) + r5;
    lemma_pow256_positive(a4);
    lemma_pack_split(x3, p4, s4, a4, r4);
    let a3: nat = s4 + a4;
    let r3: nat = p4 * pow256(a4) + r4;
    lemma_pow256_positive(a3);
    lemma_pack_split(x2, p3, s3, a3, r3);
    let a2: nat = s3 + a3;
    let r2: nat = p3 * pow256(a3) + r3;
    lemma_pow256_positive(a2);
    lemma_pack_split(x1, p2, s2, a2, r2);
    let a1: nat = s2 + a2;
    let r1: nat = p2 * pow256(a2) + r2;
    lemma_pow256_positive(a1);
    lemma_pack_split(x0, p1, s1, a1, r1);
    let a0: nat = s1 + a1;
    let r0: nat = p1 * pow256(a1) + r1;
    lemma_times_pow256_zero(x7);
    lemma_unpack_packed(0, p0, s0, a0, r0);
    assert(x0 == 0 * pow256(s0) + p0);
    lemma_unpack_packed(x0, p1, s1, a1, r1);
    lemma_unpack_packed(x1, p2, s2, a2, r2);
    lemma_unpack_packed(x2, p3, s3, a3, r3);
    lemma_unpack_packed(x3, p4, s4, a4, r4);
    lemma_unpack_packed(x4, p5, s5, a5, r5);
    lemma_unpack_packed(x5, p6, s6, a6, r6);
    lemma_unpack_packed(x6, p7, s7, a7, r7);
    lemma_pack_split(0, p0, s0, a0, r0);
    lemma_pow256_monotonic(s0 + a0, 16);
    lemma_pow256_16();
    assert(x7 < 0x1_0000_0000_0000_0000_0000_0000_0000_0000);
    assert(t.spec_to_u128() as nat == x7);
}

impl<A: EndianRepr, B: EndianRepr, C: EndianRepr, D: EndianRepr, E: EndianRepr, F: EndianRepr, G: EndianRepr, H: EndianRepr, I: EndianRepr> EndianRepr for (A, B, C, D, E, F, G, H, I) {
    open spec fn spec_repr_supported() -> bool {
        A::spec_repr_supported()
        && B::spec_repr_supported()
        && C::spec_repr_supported()
        && D::spec_repr_supported()
        && E::spec_repr_supported()
        && F::spec_repr_supported()
        && G::spec_repr_supported()
        && H::spec_repr_supported()
        && I::spec_repr_supported()
        && supported_width(vstd::layout::size_of::<A>())
        && supported_width(vstd::layout::size_of::<B>())
        && supported_width(vstd::layout::size_of::<C>())
        && supported_width(vstd::layout::size_of::<D>())
        && supported_width(vstd::layout::size_of::<E>())
        && supported_width(vstd::layout::size_of::<F>())
        && supported_width(vstd::layout::size_of::<G>())
        && supported_width(vstd::layout::size_of::<H>())
        && supported_width(vstd::layout::size_of::<I>())
        && vstd::layout::size_of::<A>() + vstd::layout::size_of::<B>() + vstd::layout::size_of::<C>() + vstd::layout::size_of::<D>() + vstd::layout::size_of::<E>() + vstd::layout::size_of::<F>() + vstd::layout::size_of::<G>() + vstd::layout::size_of::<H>() + vstd::layout::size_of::<I>() <= 16
    }

    /// The parts' bytes in turn, most significant first, each part cut to its width.
    open spec fn spec_to_u128(self) -> u128 {
        pack_part(pack_part(pack_part(pack_part(pack_part(pack_part(pack_part(pack_part(pack_part(0, self.0.spec_to_u128() as nat, vstd::layout::size_of::<A>()), self.1.spec_to_u128() as nat, vstd::layout::size_of::<B>()), self.2.spec_to_u128() as nat, vstd::layout::size_of::<C>()), self.3.spec_to_u128() as nat, vstd::layout::size_of::<D>()), self.4.spec_to_u128() as nat, vstd::layout::size_of::<E>()), self.5.spec_to_u128() as nat, vstd::layout::size_of::<F>()), self.6.spec_to_u128() as nat, vstd::layout::size_of::<G>()), self.7.spec_to_u128() as nat, vstd::layout::size_of::<H>()), self.8.spec_to_u128() as nat, vstd::layout::size_of::<I>()) as u128
    }

    /// Each part read from its bytes, in turn from the most significant.
    open spec fn spec_from_u128(v: u128) -> Self {
        (
            A::spec_from_u128(unpack_part(v as nat, vstd::layout::size_of::<A>(), vstd::layout::size_of::<B>() + vstd::layout::size_of::<C>() + vstd::layout::size_of::<D>() + vstd::layout::size_of::<E>() + vstd::layout::size_of::<F>() + vstd::layout::size_of::<G>() + vstd::layout::size_of::<H>() + vstd::layout::size_of::<I>()) as u128),
            B::spec_from_u128(unpack_part(v as nat, vstd::layout::size_of::<B>(), vstd::layout::size_of::<C>() + vstd::layout::size_of::<D>() + vstd::layout::size_of::<E>() + vstd::layout::size_of::<F>() + vstd::layout::size_of::<G>() + vstd::layout::size_of::<H>() + vstd::layout::size_of::<I>()) as u128),
            C::spec_from_u128(unpack_part(v as nat, vstd::layout::size_of::<C>(), vstd::layout::size_of::<D>() + vstd::layout::size_of::<E>() + vstd::layout::size_of::<F>() + vstd::layout::size_of::<G>() + vstd::layout::size_of::<H>() + vstd::layout::size_of::<I>()) as u128),
            D::spec_from_u128(unpack_part(v as nat, vstd::layout::size_of::<D>(), vstd::layout::size_of::<E>() + vstd::layout::size_of::<F>() + vstd::layout::size_of::<G>() + vstd::layout::size_of::<H>() + vstd::layout::size_of::<I>()) as u128),
            E::spec_from_u128(unpack_part(v as nat, vstd::layout::size_of::<E>(), vstd::layout::size_of::<F>() + vstd::layout::size_of::<G>() + vstd::layout::size_of::<H>() + vstd::layout::size_of::<I>()) as u128),
            F::spec_from_u128(unpack_part(v as nat, vstd::layout::size_of::<F>(), vstd::layout::size_of::<G>() + vstd::layout::size_of::<H>() + vstd::layout::size_of::<I>()) as u128),
            G::spec_from_u128(unpack_part(v as nat, vstd::layout::size_of::<G>(), vstd::layout::size_of::<H>() + vstd::layout::size_of::<I>()) as u128),
            H::spec_from_u128(unpack_part(v as nat, vstd::layout::size_of::<H>(), vstd::layout::size_of::<I>()) as u128),
            I::spec_from_u128(unpack_part(v as nat, vstd::layout::size_of::<I>(), 0) as u128),
        )
    }

    fn repr_supported() -> (r: bool) {
        let s0 = core::mem::size_of::<A>();
        let s1 = core::mem::size_of::<B>();
        let s2 = core::mem::size_of::<C>();
        let s3 = core::mem::size_of::<D>();
        let s4 = core::mem::size_of::<E>();
        let s5 = core::mem::size_of::<F>();
        let s6 = core::mem::size_of::<G>();
        let s7 = core::mem::size_of::<H>();
        let s8 = core::mem::size_of::<I>();
        if !(width_supported(s0) && width_supported(s1) && width_supported(s2) && width_supported(s3) && width_supported(s4) && width_supported(s5) && width_supported(s6) && width_supported(s7) && width_supported(s8)) {
            return false;
        }
        A::repr_supported() && B::repr_supported() && C::repr_supported() && D::repr_supported() && E::repr_supported() && F::repr_supported() && G::repr_supported() && H::repr_supported() && I::repr_supported() && s0 + s1 + s2 + s3 + s4 + s5 + s6 + s7 + s8 <= 16
    }

    #[verifier::rlimit(60)]
    fn to_u128(self) -> (r: u128) {
        let s0 = core::mem::size_of::<A>();
        let s1 = core::mem::size_of::<B>();
        let s2 = core::mem::size_of::<C>();
        let s3 = core::mem::size_of::<D>();
        let s4 = core::mem::size_of::<E>();
        let s5 = core::mem::size_of::<F>();
        let s6 = core::mem::size_of::<G>();
        let s7 = core::mem::size_of::<H>();
        let s8 = core::mem::size_of::<I>();
        let acc: u128 = pack_step(0, 0, self.0.to_u128(), s0);
        let acc: u128 = pack_step(acc, s0, self.1.to_u128(), s1);
        let acc: u128 = pack_step(acc, s0 + s1, self.2.to_u128(), s2);
        let acc: u128 = pack_step(acc, s0 + s1 + s2, self.3.to_u128(), s3);
        let acc: u128 = pack_step(acc, s0 + s1 + s2 + s3, self.4.to_u128(), s4);
        let acc: u128 = pack_step(acc, s0 + s1 + s2 + s3 + s4, self.5.to_u128(), s5);
        let acc: u128 = pack_step(acc, s0 + s1 + s2 + s3 + s4 + s5, self.6.to_u128(), s6);
        let acc: u128 = pack_step(acc, s0 + s1 + s2 + s3 + s4 + s5 + s6, self.7.to_u128(), s7);
        let acc: u128 = pack_step(acc, s0 + s1 + s2 + s3 + s4 + s5 + s6 + s7, self.8.to_u128(), s8);
        acc
    }

    #[verifier::rlimit(60)]
    fn from_u128(v: u128) -> (r: Self) {
        let s0 = core::mem::size_of::<A>();
        let s1 = core::mem::size_of::<B>();
        let s2 = core::mem::size_of::<C>();
        let s3 = core::mem::size_of::<D>();
        let s4 = core::mem::size_of::<E>();
        let s5 = core::mem::size_of::<F>();
        let s6 = core::mem::size_of::<G>();
        let s7 = core::mem::size_of::<H>();
        let s8 = core::mem::size_of::<I>();
        (
            A::from_u128(unpack_step(v, s0, s1 + s2 + s3 + s4 + s5 + s6 + s7 + s8)),
            B::from_u128(unpack_step(v, s1, s2 + s3 + s4 + s5 + s6 + s7 + s8)),
            C::from_u128(unpack_step(v, s2, s3 + s4 + s5 + s6 + s7 + s8)),
            D::from_u128(unpack_step(v, s3, s4 + s5 + s6 + s7 + s8)),
            E::from_u128(unpack_step(v, s4, s5 + s6 + s7 + s8)),
            F::from_u128(unpack_step(v, s5, s6 + s7 + s8)),
            G::from_u128(unpack_step(v, s6, s7 + s8)),
            H::from_u128(unpack_step(v, s7, s8)),
            I::from_u128(unpack_step(v, s8, 0)),
        )
    }
}

/// A 9-tuple whose parts each fit their width, and read back unchanged from their own
/// number, is read back unchanged from the tuple's number.
#[verifier::rlimit(100)]
#[verifier::spinoff_prover]
pub proof fn law_tuple9_repr_round_trip<A: EndianRepr, B: EndianRepr, C: EndianRepr, D: EndianRepr, E: EndianRepr, F: EndianRepr, G: EndianRepr, H: EndianRepr, I: EndianRepr>(t: (A, B, C, D, E, F, G, H, I))
    requires
        <(A, B, C, D, E, F, G, H, I) as EndianRepr>::spec_repr_supported(),
        t.0.spec_to_u128() < pow256(vstd::layout::size_of::<A>()),
        A::spec_from_u128(t.0.spec_to_u128()) == t.0,
        t.1.spec_to_u128() < pow256(vstd::layout::size_of::<B>()),
        B::spec_from_u128(t.1.spec_to_u128()) == t.1,
        t.2.spec_to_u128() < pow256(vstd::layout::size_of::<C>()),
        C::spec_from_u128(t.2.spec_to_u128()) == t.2,
        t.3.spec_to_u128() < pow256(vstd::layout::size_of::<D>()),
        D::spec_from_u128(t.3.spec_to_u128()) == t.3,
        t.4.spec_to_u128() < pow256(vstd::layout::size_of::<E>()),
        E::spec_from_u128(t.4.spec_to_u128()) == t.4,
        t.5.spec_to_u128() < pow256(vstd::layout::size_of::<F>()),
        F::spec_from_u128(t.5.spec_to_u128()) == t.5,
        t.6.spec_to_u128() < pow256(vstd::layout::size_of::<G>()),
        G::spec_from_u128(t.6.spec_to_u128()) == t.6,
        t.7.spec_to_u128() < pow256(vstd::layout::size_of::<H>()),
        H::spec_from_u128(t.7.spec_to_u128()) == t.7,
        t.8.spec_to_u128() < pow256(vstd::layout::size_of::<I>()),
        I::spec_from_u128(t.8.spec_to_u128()) == t.8,
    ensures
        <(A, B, C, D, E, F, G, H, I) as EndianRepr>::spec_from_u128(t.spec_to_u128()) == t,
{
    let s0 = vstd::layout::size_of::<A>();
    let p0 = t.0.spec_to_u128() as nat;
    lemma_fits(p0, s0);
    let s1 = vstd::layout::size_of::<B>();
    let p1 = t.1.spec_to_u128() as nat;
    lemma_fits(p1, s1);
    let s2 = vstd::layout::size_of::<C>();
    let p2 = t.2.spec_to_u128() as nat;
    lemma_fits(p2, s2);
    let s3 = vstd::layout::size_of::<D>();
    let p3 = t.3.spec_to_u128() as nat;
    lemma_fits(p3, s3);
    let s4 = vstd::layout::size_of::<E>();
    let p4 = t.4.spec_to_u128() as nat;
    lemma_fits(p4, s4);
    let s5 = vstd::layout::size_of::<F>();
    let p5 = t.5.spec_to_u128() as nat;
    lemma_fits(p5, s5);
    let s6 = vstd::layout::size_of::<G>();
    let p6 = t.6.spec_to_u128() as nat;
    lemma_fits(p6, s6);
    let s7 = vstd::layout::size_of::<H>();
    let p7 = t.7.spec_to_u128() as nat;
    lemma_fits(p7, s7);
    let s8 = vstd::layout::size_of::<I>();
    let p8 = t.8.spec_to_u128() as nat;
    lemma_fits(p8, s8);
    let x0 = p0;
    let x1 = x0 * pow256(s1) + p1;
    let x2 = x1 * pow256(s2) + p2;
    let x3 = x2 * pow256(s3) + p3;
    let x4 = x3 * pow256(s4) + p4;
    let x5 = x4 * pow256(s5) + p5;
    let x6 = x5 * pow256(s6) + p6;
    let x7 = x6 * pow256(s7) + p7;
    let x8 = x7 * pow256(s8) + p8;
    let r8: nat = 0;
    let a8: nat = 0;
    lemma_pow256_positive(a8);
    lemma_pack_split(x7, p8, s8, a8, r8);
    let a7: nat = s8 + a8;
    let r7: nat = p8 * pow256(a8) + r8;
    lemma_pow256_positive(a7);
    lemma_pack_split(x6, p7, s7, a7, r7);
    let a6: nat = s7 + a7;
    let r6: nat = p7 * pow256(a7) + r7;
    lemma_pow256_positive(a6);
    lemma_pack_split(x5, p6, s6, a6, r6);
    let a5: nat = s6 + a6;
    let r5: nat = p6 * pow256(a6) + r6;
    lemma_pow256_positive(a5);
    lemma_pack_split(x4, p5, s5, a5, r5);
    let a4: nat = s5 + a5;
    let r4: nat = p5 * pow256(a5) + r5;
    lemma_pow256_positive(a4);
    lemma_pack_split(x3, p4, s4, a4, r4);
    let a3: nat = s4 + a4;
    let r3: nat = p4 * pow256(a4) + r4;
    lemma_pow256_positive(a3);
    lemma_pack_split(x2, p3, s3, a3, r3);
    let a2: nat = s3 + a3;
    let r2: nat = p3 * pow256(a3) + r3;
    lemma_pow256_positive(a2);
    lemma_pack_split(x1, p2, s2, a2, r2);
    let a1: nat = s2 + a2;
    let r1: nat = p2 * pow256(a2) + r2;
    lemma_pow256_positive(a1);
    lemma_pack_split(x0, p1, s1, a1, r1);
    let a0: nat = s1 + a1;
    let r0: nat = p1 * pow256(a1) + r1;
    lemma_times_pow256_zero(x8);
    lemma_unpack_packed(0, p0, s0, a0, r0);
    assert(x0 == 0 * pow256(s0) + p0);
    lemma_unpack_packed(x0, p1, s1, a1, r1);
    lemma_unpack_packed(x1, p2, s2, a2, r2);
    lemma_unpack_packed(x2, p3, s3, a3, r3);
    lemma_unpack_packed(x3, p4, s4, a4, r4);
    lemma_unpack_packed(x4, p5, s5, a5, r5);
    lemma_unpack_packed(x5, p6, s6, a6, r6);
    lemma_unpack_packed(x6, p7, s7, a7, r7);
    lemma_unpack_packed(x7, p8, s8, a8, r8);
    lemma_pack_split(0, p0, s0, a0, r0);
    lemma_pow256_monotonic(s0 + a0, 16);
    lemma_pow256_16();
    assert(x8 < 0x1_0000_0000_0000_0000_0000_0000_0000_0000);
    assert(t.spec_to_u128() as nat == x8);
}

impl<A: EndianRepr, B: EndianRepr, C: EndianRepr, D: EndianRepr, E: EndianRepr, F: EndianRepr, G: EndianRepr, H: EndianRepr, I: EndianRepr, J: EndianRepr> EndianRepr for (A, B, C, D, E, F, G, H, I, J) {
    open spec fn spec_repr_supported() -> bool {
        A::spec_repr_supported()
        && B::spec_repr_supported()
        && C::spec_repr_supported()
        && D::spec_repr_supported()
        && E::spec_repr_supported()
        && F::spec_repr_supported()
        && G::spec_repr_supported()
        && H::spec_repr_supported()
        && I::spec_repr_supported()
        && J::spec_repr_supported()
        && supported_width(vstd::layout::size_of::<A>())
        && supported_width(vstd::layout::size_of::<B>())
        && supported_width(vstd::layout::size_of::<C>())
        && supported_width(vstd::layout::size_of::<D>())
        && supported_width(vstd::layout::size_of::<E>())
        && supported_width(vstd::layout::size_of::<F>())
        && supported_width(vstd::layout::size_of::<G>())
        && supported_width(vstd::layout::size_of::<H>())
        && supported_width(vstd::layout::size_of::<I>())
        && supported_width(vstd::layout::size_of::<J>())
        && vstd::layout::size_of::<A>() + vstd::layout::size_of::<B>() + vstd::layout::size_of::<C>() + vstd::layout::size_of::<D>() + vstd::layout::size_of::<E>() + vstd::layout::size_of::<F>() + vstd::layout::size_of::<G>() + vstd::layout::size_of::<H>() + vstd::layout::size_of::<I>() + vstd::layout::size_of::<J>() <= 16
    }

    /// The parts' bytes in turn, most significant first, each part cut to its width.
    open spec fn spec_to_u128(self) -> u128 {
        pack_part(pack_part(pack_part(pack_part(pack_part(pack_part(pack_part(pack_part(pack_part(pack_part(0, self.0.spec_to_u128() as nat, vstd::layout::size_of::<A>()), self.1.spec_to_u128() as nat, vstd::layout::size_of::<B>()), self.2.spec_to_u128() as nat, vstd::layout::size_of::<C>()), self.3.spec_to_u128() as nat, vstd::layout::size_of::<D>()), self.4.spec_to_u128() as nat, vstd::layout::size_of::<E>()), self.5.spec_to_u128() as nat, vstd::layout::size_of::<F>()), self.6.spec_to_u128() as nat, vstd::layout::size_of::<G>()), self.7.spec_to_u128() as nat, vstd::layout::size_of::<H>()), self.8.spec_to_u128() as nat, vstd::layout::size_of::<I>()), self.9.spec_to_u128() as nat, vstd::layout::size_of::<J>()) as u128
    }

    /// Each part read from its bytes, in turn from the most significant.
    open spec fn spec_from_u128(v: u128) -> Self {
        (
            A::spec_from_u128(unpack_part(v as nat, vstd::layout::size_of::<A>(), vstd::layout::size_of::<B>() + vstd::layout::size_of::<C>() + vstd::layout::size_of::<D>() + vstd::layout::size_of::<E>() + vstd::layout::size_of::<F>() + vstd::layout::size_of::<G>() + vstd::layout::size_of::<H>() + vstd::layout::size_of::<I>() + vstd::layout::size_of::<J>()) as u128),
            B::spec_from_u128(unpack_part(v as nat, vstd::layout::size_of::<B>(), vstd::layout::size_of::<C>() + vstd::layout::size_of::<D>() + vstd::layout::size_of::<E>() + vstd::layout::size_of::<F>() + vstd::layout::size_of::<G>() + vstd::layout::size_of::<H>() + vstd::layout::size_of::<I>() + vstd::layout::size_of::<J>()) as u128),
            C::spec_from_u128(unpack_part(v as nat, vstd::layout::size_of::<C>(), vstd::layout::size_of::<D>() + vstd::layout::size_of::<E>() + vstd::layout::size_of::<F>() + vstd::layout::size_of::<G>() + vstd::layout::size_of::<H>() + vstd::layout::size_of::<I>() + vstd::layout::size_of::<J>()) as u128),
            D::spec_from_u128(unpack_part(v as nat, vstd::layout::size_of::<D>(), vstd::layout::size_of::<E>() + vstd::layout::size_of::<F>() + vstd::layout::size_of::<G>() + vstd::layout::size_of::<H>() + vstd::layout::size_of::<I>() + vstd::layout::size_of::<J>()) as u128),
            E::spec_from_u128(unpack_part(v as nat, vstd::layout::size_of::<E>(), vstd::layout::size_of::<F>() + vstd::layout::size_of::<G>() + vstd::layout::size_of::<H>() + vstd::layout::size_of::<I>() + vstd::layout::size_of::<J>()) as u128),
            F::spec_from_u128(unpack_part(v as nat, vstd::layout::size_of::<F>(), vstd::layout::size_of::<G>() + vstd::layout::size_of::<H>() + vstd::layout::size_of::<I>() + vstd::layout::size_of::<J>()) as u128),
            G::spec_from_u128(unpack_part(v as nat, vstd::layout::size_of::<G>(), vstd::layout::size_of::<H>() + vstd::layout::size_of::<I>() + vstd::layout::size_of::<J>()) as u128),
            H::spec_from_u128(unpack_part(v as nat, vstd::layout::size_of::<H>(), vstd::layout::size_of::<I>() + vstd::layout::size_of::<J>()) as u128),
            I::spec_from_u128(unpack_part(v as nat, vstd::layout::size_of::<I>(), vstd::layout::size_of::<J>()) as u128),
            J::spec_from_u128(unpack_part(v as nat, vstd::layout::size_of::<J>(), 0) as u128),
        )
    }

    fn repr_supported() -> (r: bool) {
        let s0 = core::mem::size_of::<A>();
        let s1 = core::mem::size_of::<B>();
        let s2 = core::mem::size_of::<C>();
        let s3 = core::mem::size_of::<D>();
        let s4 = core::mem::size_of::<E>();
        let s5 = core::mem::size_of::<F>();
        let s6 = core::mem::size_of::<G>();
        let s7 = core::mem::size_of::<H>();
        let s8 = core::mem::size_of::<I>();
        let s9 = core::mem::size_of::<J>();
        if !(width_supported(s0) && width_supported(s1) && width_supported(s2) && width_supported(s3) && width_supported(s4) && width_supported(s5) && width_supported(s6) && width_supported(s7) && width_supported(s8) && width_supported(s9)) {
            return false;
        }
        A::repr_supported() && B::repr_supported() && C::repr_supported() && D::repr_supported() && E::repr_supported() && F::repr_supported() && G::repr_supported() && H::repr_supported() && I::repr_supported() && J::repr_supported() && s0 + s1 + s2 + s3 + s4 + s5 + s6 + s7 + s8 + s9 <= 16
    }

    #[verifier::rlimit(60)]
    fn to_u128(self) -> (r: u128) {
        let s0 = core::mem::size_of::<A>();
        let s1 = core::mem::size_of::<B>();
        let s2 = core::mem::size_of::<C>();
        let s3 = core::mem::size_of::<D>();
        let s4 = core::mem::size_of::<E>();
        let s5 = core::mem::size_of::<F>();
        let s6 = core::mem::size_of::<G>();
        let s7 = core::mem::size_of::<H>();
        let s8 = core::mem::size_of::<I>();
        let s9 = core::mem::size_of::<J>();
        let acc: u128 = pack_step(0, 0, self.0.to_u128(), s0);
        let acc: u128 = pack_step(acc, s0, self.1.to_u128(), s1);
        let acc: u128 = pack_step(acc, s0 + s1, self.2.to_u128(), s2);
        let acc: u128 = pack_step(acc, s0 + s1 + s2, self.3.to_u128(), s3);
        let acc: u128 = pack_step(acc, s0 + s1 + s2 + s3, self.4.to_u128(), s4);
        let acc: u128 = pack_step(acc, s0 + s1 + s2 + s3 + s4, self.5.to_u128(), s5);
        let acc: u128 = pack_step(acc, s0 + s1 + s2 + s3 + s4 + s5, self.6.to_u128(), s6);
        let acc: u128 = pack_step(acc, s0 + s1 + s2 + s3 + s4 + s5 + s6, self.7.to_u128(), s7);
        let acc: u128 = pack_step(acc, s0 + s1 + s2 + s3 + s4 + s5 + s6 + s7, self.8.to_u128(), s8);
        let acc: u128 = pack_step(acc, s0 + s1 + s2 + s3 + s4 + s5 + s6 + s7 + s8, self.9.to_u128(), s9);
        acc
    }

    #[verifier::rlimit(60)]
    fn from_u128(v: u128) -> (r: Self) {
        let s0 = core::mem::size_of::<A>();
        let s1 = core::mem::size_of::<B>();
        let s2 = core::mem::size_of::<C>();
        let s3 = core::mem::size_of::<D>();
        let s4 = core::mem::size_of::<E>();
        let s5 = core::mem::size_of::<F>();
        let s6 = core::mem::size_of::<G>();
        let s7 = core::mem::size_of::<H>();
        let s8 = core::mem::size_of::<I>();
        let s9 = core::mem::size_of::<J>();
        (
            A::from_u128(unpack_step(v, s0, s1 + s2 + s3 + s4 + s5 + s6 + s7 + s8 + s9)),
            B::from_u128(unpack_step(v, s1, s2 + s3 + s4 + s5 + s6 + s7 + s8 + s9)),
            C::from_u128(unpack_step(v, s2, s3 + s4 + s5 + s6 + s7 + s8 + s9)),
            D::from_u128(unpack_step(v, s3, s4 + s5 + s6 + s7 + s8 + s9)),
            E::from_u128(unpack_step(v, s4, s5 + s6 + s7 + s8 + s9)),
            F::from_u128(unpack_step(v, s5, s6 + s7 + s8 + s9)),
            G::from_u128(unpack_step(v, s6, s7 + s8 + s9)),
            H::from_u128(unpack_step(v, s7, s8 + s9)),
            I::from_u128(unpack_step(v, s8, s9)),
            J::from_u128(unpack_step(v, s9, 0)),
        )
    }
}

/// A 10-tuple whose parts each fit their width, and read back unchanged from their own
/// number, is read back unchanged from the tuple's number.
#[verifier::rlimit(100)]
#[verifier::spinoff_prover]
pub proof fn law_tuple10_repr_round_trip<A: EndianRepr, B: EndianRepr, C: EndianRepr, D: EndianRepr, E: EndianRepr, F: EndianRepr, G: EndianRepr, H: EndianRepr, I: EndianRepr, J: EndianRepr>(t: (A, B, C, D, E, F, G, H, I, J))
    requires
        <(A, B, C, D, E, F, G, H, I, J) as EndianRepr>::spec_repr_supported(),
        t.0.spec_to_u128() < pow256(vstd::layout::size_of::<A>()),
        A::spec_from_u128(t.0.spec_to_u128()) == t.0,
        t.1.spec_to_u128() < pow256(vstd::layout::size_of::<B>()),
        B::spec_from_u128(t.1.spec_to_u128()) == t.1,
        t.2.spec_to_u128() < pow256(vstd::layout::size_of::<C>()),
        C::spec_from_u128(t.2.spec_to_u128()) == t.2,
        t.3.spec_to_u128() < pow256(vstd::layout::size_of::<D>()),
        D::spec_from_u128(t.3.spec_to_u128()) == t.3,
        t.4.spec_to_u128() < pow256(vstd::layout::size_of::<E>()),
        E::spec_from_u128(t.4.spec_to_u128()) == t.4,
        t.5.spec_to_u128() < pow256(vstd::layout::size_of::<F>()),
        F::spec_from_u128(t.5.spec_to_u128()) == t.5,
        t.6.spec_to_u128() < pow256(vstd::layout::size_of::<G>()),
        G::spec_from_u128(t.6.spec_to_u128()) == t.6,
        t.7.spec_to_u128() < pow256(vstd::layout::size_of::<H>()),
        H::spec_from_u128(t.7.spec_to_u128()) == t.7,
        t.8.spec_to_u128() < pow256(vstd::layout::size_of::<I>()),
        I::spec_from_u128(t.8.spec_to_u128()) == t.8,
        t.9.spec_to_u128() < pow256(vstd::layout::size_of::<J>()),
        J::spec_from_u128(t.9.spec_to_u128()) == t.9,
    ensures
        <(A, B, C, D, E, F, G, H, I, J) as EndianRepr>::spec_from_u128(t.spec_to_u128()) == t,
{
    let s0 = vstd::layout::size_of::<A>();
    let p0 = t.0.spec_to_u128() as nat;
    lemma_fits(p0, s0);
    let s1 = vstd::layout::size_of::<B>();
    let p1 = t.1.spec_to_u128() as nat;
    lemma_fits(p1, s1);
    let s2 = vstd::layout::size_of::<C>();
    let p2 = t.2.spec_to_u128() as nat;
    lemma_fits(p2, s2);
    let s3 = vstd::layout::size_of::<D>();
    let p3 = t.3.spec_to_u128() as nat;
    lemma_fits(p3, s3);
    let s4 = vstd::layout::size_of::<E>();
    let p4 = t.4.spec_to_u128() as nat;
    lemma_fits(p4, s4);
    let s5 = vstd::layout::size_of::<F>();
    let p5 = t.5.spec_to_u128() as nat;
    lemma_fits(p5, s5);
    let s6 = vstd::layout::size_of::<G>();
    let p6 = t.6.spec_to_u128() as nat;
    lemma_fits(p6, s6);
    let s7 = vstd::layout::size_of::<H>();
    let p7 = t.7.spec_to_u128() as nat;
    lemma_fits(p7, s7);
    let s8 = vstd::layout::size_of::<I>();
    let p8 = t.8.spec_to_u128() as nat;
    lemma_fits(p8, s8);
    let s9 = vstd::layout::size_of::<J>();
    let p9 = t.9.spec_to_u128() as nat;
    lemma_fits(p9, s9);
    let x0 = p0;
    let x1 = x0 * pow256(s1) + p1;
    let x2 = x1 * pow256(s2) + p2;
    let x3 = x2 * pow256(s3) + p3;
    let x4 = x3 * pow256(s4) + p4;
    let x5 = x4 * pow256(s5) + p5;
    let x6 = x5 * pow256(s6) + p6;
    let x7 = x6 * pow256(s7) + p7;
    let x8 = x7 * pow256(s8) + p8;
    let x9 = x8 * pow256(s9) + p9;
    let r9: nat = 0;
    let a9: nat = 0;
    lemma_pow256_positive(a9);
    lemma_pack_split(x8, p9, s9, a9, r9);
    let a8: nat = s9 + a9;
    let r8: nat = p9 * pow256(a9) + r9;
    lemma_pow256_positive(a8);
    lemma_pack_split(x7, p8, s8, a8, r8);
    let a7: nat = s8 + a8;
    let r7: nat = p8 * pow256(a8) + r8;
    lemma_pow256_positive(a7);
    lemma_pack_split(x6, p7, s7, a7, r7);
    let a6: nat = s7 + a7;
    let r6: nat = p7 * pow256(a7) + r7;
    lemma_pow256_positive(a6);
    lemma_pack_split(x5, p6, s6, a6, r6);
    let a5: nat = s6 + a6;
    let r5: nat = p6 * pow256(a6) + r6;
    lemma_pow256_positive(a5);
    lemma_pack_split(x4, p5, s5, a5, r5);
    let a4: nat = s5 + a5;
    let r4: nat = p5 * pow256(a5) + r5;
    lemma_pow256_positive(a4);
    lemma_pack_split(x3, p4, s4, a4, r4);
    let a3: nat = s4 + a4;
    let r3: nat = p4 * pow256(a4) + r4;
    lemma_pow256_positive(a3);
    lemma_pack_split(x2, p3, s3, a3, r3);
    let a2: nat = s3 + a3;
    let r2: nat = p3 * pow256(a3) + r3;
    lemma_pow256_positive(a2);
    lemma_pack_split(x1, p2, s2, a2, r2);
    let a1: nat = s2 + a2;
    let r1: nat = p2 * pow256(a2) + r2;
    lemma_pow256_positive(a1);
    lemma_pack_split(x0, p1, s1, a1, r1);
    let a0: nat = s1 + a1;
    let r0: nat = p1 * pow256(a1) + r1;
    lemma_times_pow256_zero(x9);
    lemma_unpack_packed(0, p0, s0, a0, r0);
    assert(x0 == 0 * pow256(s0) + p0);
    lemma_unpack_packed(x0, p1, s1, a1, r1);
    lemma_unpack_packed(x1, p2, s2, a2, r2);
    lemma_unpack_packed(x2, p3, s3, a3, r3);
    lemma_unpack_packed(x3, p4, s4, a4, r4);
    lemma_unpack_packed(x4, p5, s5, a5, r5);
    lemma_unpack_packed(x5, p6, s6, a6, r6);
    lemma_unpack_packed(x6, p7, s7, a7, r7);
    lemma_unpack_packed(x7, p8, s8, a8, r8);
    lemma_unpack_packed(x8, p9, s9, a9, r9);
    lemma_pack_split(0, p0, s0, a0, r0);
    lemma_pow256_monotonic(s0 + a0, 16);
    lemma_pow256_16();
    assert(x9 < 0x1_0000_0000_0000_0000_0000_0000_0000_0000);
    assert(t.spec_to_u128() as nat == x9);
}

impl<A: EndianRepr, B: EndianRepr, C: EndianRepr, D: EndianRepr, E: EndianRepr, F: EndianRepr, G: EndianRepr, H: EndianRepr, I: EndianRepr, J: EndianRepr, K: EndianRepr> EndianRepr for (A, B, C, D, E, F, G, H, I, J, K) {
    open spec fn spec_repr_supported() -> bool {
        A::spec_repr_supported()
        && B::spec_repr_supported()
        && C::spec_repr_supported()
        && D::spec_repr_supported()
        && E::spec_repr_supported()
        && F::spec_repr_supported()
        && G::spec_repr_supported()
        && H::spec_repr_supported()
        && I::spec_repr_supported()
        && J::spec_repr_supported()
        && K::spec_repr_supported()
        && supported_width(vstd::layout::size_of::<A>())
        && supported_width(vstd::layout::size_of::<B>())
        && supported_width(vstd::layout::size_of::<C>())
        && supported_width(vstd::layout::size_of::<D>())
        && supported_width(vstd::layout::size_of::<E>())
        && supported_width(vstd::layout::size_of::<F>())
        && supported_width(vstd::layout::size_of::<G>())
        && supported_width(vstd::layout::size_of::<H>())
        && supported_width(vstd::layout::size_of::<I>())
        && supported_width(vstd::layout::size_of::<J>())
        && supported_width(vstd::layout::size_of::<K>())
        && vstd::layout::size_of::<A>() + vstd::layout::size_of::<B>() + vstd::layout::size_of::<C>() + vstd::layout::size_of::<D>() + vstd::layout::size_of::<E>() + vstd::layout::size_of::<F>() + vstd::layout::size_of::<G>() + vstd::layout::size_of::<H>() + vstd::layout::size_of::<I>() + vstd::layout::size_of::<J>() + vstd::layout::size_of::<K>() <= 16
    }

    /// The parts' bytes in turn, most significant first, each part cut to its width.
    open spec fn spec_to_u128(self) -> u128 {
        pack_part(pack_part(pack_part(pack_part(pack_part(pack_part(pack_part(pack_part(pack_part(pack_part(pack_part(0, self.0.spec_to_u128() as nat, vstd::layout::size_of::<A>()), self.1.spec_to_u128() as nat, vstd::layout::size_of::<B>()), self.2.spec_to_u128() as nat, vstd::layout::size_of::<C>()), self.3.spec_to_u128() as nat, vstd::layout::size_of::<D>()), self.4.spec_to_u128() as nat, vstd::layout::size_of::<E>()), self.5.spec_to_u128() as nat, vstd::layout::size_of::<F>()), self.6.spec_to_u128() as nat, vstd::layout::size_of::<G>()), self.7.spec_to_u128() as nat, vstd::layout::size_of::<H>()), self.8.spec_to_u128() as nat, vstd::layout::size_of::<I>()), self.9.spec_to_u128() as nat, vstd::layout::size_of::<J>()), self.10.spec_to_u128() as nat, vstd::layout::size_of::<K>()) as u128
    }

    /// Each part read from its bytes, in turn from the most significant.
    open spec fn spec_from_u128(v: u128) -> Self {
        (
            A::spec_from_u128(unpack_part(v as nat, vstd::layout::size_of::<A>(), vstd::layout::size_of::<B>() + vstd::layout::size_of::<C>() + vstd::layout::size_of::<D>() + vstd::layout::size_of::<E>() + vstd::layout::size_of::<F>() + vstd::layout::size_of::<G>() + vstd::layout::size_of::<H>() + vstd::layout::size_of::<I>() + vstd::layout::size_of::<J>() + vstd::layout::size_of::<K>()) as u128),
            B::spec_from_u128(unpack_part(v as nat, vstd::layout::size_of::<B>(), vstd::layout::size_of::<C>() + vstd::layout::size_of::<D>() + vstd::layout::size_of::<E>() + vstd::layout::size_of::<F>() + vstd::layout::size_of::<G>() + vstd::layout::size_of::<H>() + vstd::layout::size_of::<I>() + vstd::layout::size_of::<J>() + vstd::layout::size_of::<K>()) as u128),
            C::spec_from_u128(unpack_part(v as nat, vstd::layout::size_of::<C>(), vstd::layout::size_of::<D>() + vstd::layout::size_of::<E>() + vstd::layout::size_of::<F>() + vstd::layout::size_of::<G>() + vstd::layout::size_of::<H>() + vstd::layout::size_of::<I>() + vstd::layout::size_of::<J>() + vstd::layout::size_of::<K>()) as u128),
            D::spec_from_u128(unpack_part(v as nat, vstd::layout::size_of::<D>(), vstd::layout::size_of::<E>() + vstd::layout::size_of::<F>() + vstd::layout::size_of::<G>() + vstd::layout::size_of::<H>() + vstd::layout::size_of::<I>() + vstd::layout::size_of::<J>() + vstd::layout::size_of::<K>()) as u128),
            E::spec_from_u128(unpack_part(v as nat, vstd::layout::size_of::<E>(), vstd::layout::size_of::<F>() + vstd::layout::size_of::<G>() + vstd::layout::size_of::<H>() + vstd::layout::size_of::<I>() + vstd::layout::size_of::<J>() + vstd::layout::size_of::<K>()) as u128),
            F::spec_from_u128(unpack_part(v as nat, vstd::layout::size_of::<F>(), vstd::layout::size_of::<G>() + vstd::layout::size_of::<H>() + vstd::layout::size_of::<I>() + vstd::layout::size_of::<J>() + vstd::layout::size_of::<K>()) as u128),
            G::spec_from_u128(unpack_part(v as nat, vstd::layout::size_of::<G>(), vstd::layout::size_of::<H>() + vstd::layout::size_of::<I>() + vstd::layout::size_of::<J>() + vstd::layout::size_of::<K>()) as u128),
            H::spec_from_u128(unpack_part(v as nat, vstd::layout::size_of::<H>(), vstd::layout::size_of::<I>() + vstd::layout::size_of::<J>() + vstd::layout::size_of::<K>()) as u128),
            I::spec_from_u128(unpack_part(v as nat, vstd::layout::size_of::<I>(), vstd::layout::size_of::<J>() + vstd::layout::size_of::<K>()) as u128),
            J::spec_from_u128(unpack_part(v as nat, vstd::layout::size_of::<J>(), vstd::layout::size_of::<K>()) as u128),
            K::spec_from_u128(unpack_part(v as nat, vstd::layout::size_of::<K>(), 0) as u128),
        )
    }

    fn repr_supported() -> (r: bool) {
        let s0 = core::mem::size_of::<A>();
        let s1 = core::mem::size_of::<B>();
        let s2 = core::mem::size_of::<C>();
        let s3 = core::mem::size_of::<D>();
        let s4 = core::mem::size_of::<E>();
        let s5 = core::mem::size_of::<F>();
        let s6 = core::mem::size_of::<G>();
        let s7 = core::mem::size_of::<H>();
        let s8 = core::mem::size_of::<I>();
        let s9 = core::mem::size_of::<J>();
        let s10 = core::mem::size_of::<K>();
        if !(width_supported(s0) && width_supported(s1) && width_supported(s2) && width_supported(s3) && width_supported(s4) && width_supported(s5) && width_supported(s6) && width_supported(s7) && width_supported(s8) && width_supported(s9) && width_supported(s10)) {
            return false;
        }
        A::repr_supported() && B::repr_supported() && C::repr_supported() && D::repr_supported() && E::repr_supported() && F::repr_supported() && G::repr_supported() && H::repr_supported() && I::repr_supported() && J::repr_supported() && K::repr_supported() && s0 + s1 + s2 + s3 + s4 + s5 + s6 + s7 + s8 + s9 + s10 <= 16
    }

    #[verifier::rlimit(60)]
    fn to_u128(self) -> (r: u128) {
        let s0 = core::mem::size_of::<A>();
        let s1 = core::mem::size_of::<B>();
        let s2 = core::mem::size_of::<C>();
        let s3 = core::mem::size_of::<D>();
        let s4 = core::mem::size_of::<E>();
        let s5 = core::mem::size_of::<F>();
        let s6 = core::mem::size_of::<G>();
        let s7 = core::mem::size_of::<H>();
        let s8 = core::mem::size_of::<I>();
        let s9 = core::mem::size_of::<J>();
        let s10 = core::mem::size_of::<K>();
        let acc: u128 = pack_step(0, 0, self.0.to_u128(), s0);
        let acc: u128 = pack_step(acc, s0, self.1.to_u128(), s1);
        let acc: u128 = pack_step(acc, s0 + s1, self.2.to_u128(), s2);
        let acc: u128 = pack_step(acc, s0 + s1 + s2, self.3.to_u128(), s3);
        let acc: u128 = pack_step(acc, s0 + s1 + s2 + s3, self.4.to_u128(), s4);
        let acc: u128 = pack_step(acc, s0 + s1 + s2 + s3 + s4, self.5.to_u128(), s5);
        let acc: u128 = pack_step(acc, s0 + s1 + s2 + s3 + s4 + s5, self.6.to_u128(), s6);
        let acc: u128 = pack_step(acc, s0 + s1 + s2 + s3 + s4 + s5 + s6, self.7.to_u128(), s7);
        let acc: u128 = pack_step(acc, s0 + s1 + s2 + s3 + s4 + s5 + s6 + s7, self.8.to_u128(), s8);
        let acc: u128 = pack_step(acc, s0 + s1 + s2 + s3 + s4 + s5 + s6 + s7 + s8, self.9.to_u128(), s9);
        let acc: u128 = pack_step(acc, s0 + s1 + s2 + s3 + s4 + s5 + s6 + s7 + s8 + s9, self.10.to_u128(), s10);
        acc
    }

    #[verifier::rlimit(60)]
    fn from_u128(v: u128) -> (r: Self) {
        let s0 = core::mem::size_of::<A>();
        let s1 = core::mem::size_of::<B>();
        let s2 = core::mem::size_of::<C>();
        let s3 = core::mem::size_of::<D>();
        let s4 = core::mem::size_of::<E>();
        let s5 = core::mem::size_of::<F>();
        let s6 = core::mem::size_of::<G>();
        let s7 = core::mem::size_of::<H>();
        let s8 = core::mem::size_of::<I>();
        let s9 = core::mem::size_of::<J>();
        let s10 = core::mem::size_of::<K>();
        (
            A::from_u128(unpack_step(v, s0, s1 + s2 + s3 + s4 + s5 + s6 + s7 + s8 + s9 + s10)),
            B::from_u128(unpack_step(v, s1, s2 + s3 + s4 + s5 + s6 + s7 + s8 + s9 + s10)),
            C::from_u128(unpack_step(v, s2, s3 + s4 + s5 + s6 + s7 + s8 + s9 + s10)),
            D::from_u128(unpack_step(v, s3, s4 + s5 + s6 + s7 + s8 + s9 + s10)),
            E::from_u128(unpack_step(v, s4, s5 + s6 + s7 + s8 + s9 + s10)),
            F::from_u128(unpack_step(v, s5, s6 + s7 + s8 + s9 + s10)),
            G::from_u128(unpack_step(v, s6, s7 + s8 + s9 + s10)),
            H::from_u128(unpack_step(v, s7, s8 + s9 + s10)),
            I::from_u128(unpack_step(v, s8, s9 + s10)),
            J::from_u128(unpack_step(v, s9, s10)),
            K::from_u128(unpack_step(v, s10, 0)),
        )
    }
}

/// A 11-tuple whose parts each fit their width, and read back unchanged from their own
/// number, is read back unchanged from the tuple's number.
#[verifier::rlimit(100)]
#[verifier::spinoff_prover]
pub proof fn law_tuple11_repr_round_trip<A: EndianRepr, B: EndianRepr, C: EndianRepr, D: EndianRepr, E: EndianRepr, F: EndianRepr, G: EndianRepr, H: EndianRepr, I: EndianRepr, J: EndianRepr, K: EndianRepr>(t: (A, B, C, D, E, F, G, H, I, J, K))
    requires
        <(A, B, C, D, E, F, G, H, I, J, K) as EndianRepr>::spec_repr_supported(),
        t.0.spec_to_u128() < pow256(vstd::layout::size_of::<A>()),
        A::spec_from_u128(t.0.spec_to_u128()) == t.0,
        t.1.spec_to_u128() < pow256(vstd::layout::size_of::<B>()),
        B::spec_from_u128(t.1.spec_to_u128()) == t.1,
        t.2.spec_to_u128() < pow256(vstd::layout::size_of::<C>()),
        C::spec_from_u128(t.2.spec_to_u128()) == t.2,
        t.3.spec_to_u128() < pow256(vstd::layout::size_of::<D>()),
        D::spec_from_u128(t.3.spec_to_u128()) == t.3,
        t.4.spec_to_u128() < pow256(vstd::layout::size_of::<E>()),
        E::spec_from_u128(t.4.spec_to_u128()) == t.4,
        t.5.spec_to_u128() < pow256(vstd::layout::size_of::<F>()),
        F::spec_from_u128(t.5.spec_to_u128()) == t.5,
        t.6.spec_to_u128() < pow256(vstd::layout::size_of::<G>()),
        G::spec_from_u128(t.6.spec_to_u128()) == t.6,
        t.7.spec_to_u128() < pow256(vstd::layout::size_of::<H>()),
        H::spec_from_u128(t.7.spec_to_u128()) == t.7,
        t.8.spec_to_u128() < pow256(vstd::layout::size_of::<I>()),
        I::spec_from_u128(t.8.spec_to_u128()) == t.8,
        t.9.spec_to_u128() < pow256(vstd::layout::size_of::<J>()),
        J::spec_from_u128(t.9.spec_to_u128()) == t.9,
        t.10.spec_to_u128() < pow256(vstd::layout::size_of::<K>()),
        K::spec_from_u128(t.10.spec_to_u128()) == t.10,
    ensures
        <(A, B, C, D, E, F, G, H, I, J, K) as EndianRepr>::spec_from_u128(t.spec_to_u128()) == t,
{
    let s0 = vstd::layout::size_of::<A>();
    let p0 = t.0.spec_to_u128() as nat;
    lemma_fits(p0, s0);
    let s1 = vstd::layout::size_of::<B>();
    let p1 = t.1.spec_to_u128() as nat;
    lemma_fits(p1, s1);
    let s2 = vstd::layout::size_of::<C>();
    let p2 = t.2.spec_to_u128() as nat;
    lemma_fits(p2, s2);
    let s3 = vstd::layout::size_of::<D>();
    let p3 = t.3.spec_to_u128() as nat;
    lemma_fits(p3, s3);
    let s4 = vstd::layout::size_of::<E>();
    let p4 = t.4.spec_to_u128() as nat;
    lemma_fits(p4, s4);
    let s5 = vstd::layout::size_of::<F>();
    let p5 = t.5.spec_to_u128() as nat;
    lemma_fits(p5, s5);
    let s6 = vstd::layout::size_of::<G>();
    let p6 = t.6.spec_to_u128() as nat;
    lemma_fits(p6, s6);
    let s7 = vstd::layout::size_of::<H>();
    let p7 = t.7.spec_to_u128() as nat;
    lemma_fits(p7, s7);
    let s8 = vstd::layout::size_of::<I>();
    let p8 = t.8.spec_to_u128() as nat;
    lemma_fits(p8, s8);
    let s9 = vstd::layout::size_of::<J>();
    let p9 = t.9.spec_to_u128() as nat;
    lemma_fits(p9, s9);
    let s10 = vstd::layout::size_of::<K>();
    let p10 = t.10.spec_to_u128() as nat;
    lemma_fits(p10, s10);
    let x0 = p0;
    let x1 = x0 * pow256(s1) + p1;
    let x2 = x1 * pow256(s2) + p2;
    let x3 = x2 * pow256(s3) + p3;
    let x4 = x3 * pow256(s4) + p4;
    let x5 = x4 * pow256(s5) + p5;
    let x6 = x5 * pow256(s6) + p6;
    let x7 = x6 * pow256(s7) + p7;
    let x8 = x7 * pow256(s8) + p8;
    let x9 = x8 * pow256(s9) + p9;
    let x10 = x9 * pow256(s10) + p10;
    let r10: nat = 0;
    let a10: nat = 0;
    lemma_pow256_positive(a10);
    lemma_pack_split(x9, p10, s10, a10, r10);
    let a9: nat = s10 + a10;
    let r9: nat = p10 * pow256(a10) + r10;
    lemma_pow256_positive(a9);
    lemma_pack_split(x8, p9, s9, a9, r9);
    let a8: nat = s9 + a9;
    let r8: nat = p9 * pow256(a9) + r9;
    lemma_pow256_positive(a8);
    lemma_pack_split(x7, p8, s8, a8, r8);
    let a7: nat = s8 + a8;
    let r7: nat = p8 * pow256(a8) + r8;
    lemma_pow256_positive(a7);
    lemma_pack_split(x6, p7, s7, a7, r7);
    let a6: nat = s7 + a7;
    let r6: nat = p7 * pow256(a7) + r7;
    lemma_pow256_positive(a6);
    lemma_pack_split(x5, p6, s6, a6, r6);
    let a5: nat = s6 + a6;
    let r5: nat = p6 * pow256(a6) + r6;
    lemma_pow256_positive(a5);
    lemma_pack_split(x4, p5, s5, a5, r5);
    let a4: nat = s5 + a5;
    let r4: nat = p5 * pow256(a5) + r5;
    lemma_pow256_positive(a4);
    lemma_pack_split(x3, p4, s4, a4, r4);
    let a3: nat = s4 + a4;
    let r3: nat = p4 * pow256(a4) + r4;
    lemma_pow256_positive(a3);
    lemma_pack_split(x2, p3, s3, a3, r3);
    let a2: nat = s3 + a3;
    let r2: nat = p3 * pow256(a3) + r3;
    lemma_pow256_positive(a2);
    lemma_pack_split(x1, p2, s2, a2, r2);
    let a1: nat = s2 + a2;
    let r1: nat = p2 * pow256(a2) + r2;
    lemma_pow256_positive(a1);
    lemma_pack_split(x0, p1, s1, a1, r1);
    let a0: nat = s1 + a1;
    let r0: nat = p1 * pow256(a1) + r1;
    lemma_times_pow256_zero(x10);
    lemma_unpack_packed(0, p0, s0, a0, r0);
    assert(x0 == 0 * pow256(s0) + p0);
    lemma_unpack_packed(x0, p1, s1, a1, r1);
    lemma_unpack_packed(x1, p2, s2, a2, r2);
    lemma_unpack_packed(x2, p3, s3, a3, r3);
    lemma_unpack_packed(x3, p4, s4, a4, r4);
    lemma_unpack_packed(x4, p5, s5, a5, r5);
    lemma_unpack_packed(x5, p6, s6, a6, r6);
    lemma_unpack_packed(x6, p7, s7, a7, r7);
    lemma_unpack_packed(x7, p8, s8, a8, r8);
    lemma_unpack_packed(x8, p9, s9, a9, r9);
    lemma_unpack_packed(x9, p10, s10, a10, r10);
    lemma_pack_split(0, p0, s0, a0, r0);
    lemma_pow256_monotonic(s0 + a0, 16);
    lemma_pow256_16();
    assert(x10 < 0x1_0000_0000_0000_0000_0000_0000_0000_0000);
    assert(t.spec_to_u128() as nat == x10);
}

impl<A: EndianRepr, B: EndianRepr, C: EndianRepr, D: EndianRepr, E: EndianRepr, F: EndianRepr, G: EndianRepr, H: EndianRepr, I: EndianRepr, J: EndianRepr, K: EndianRepr, L: EndianRepr> EndianRepr for (A, B, C, D, E, F, G, H, I, J, K, L) {
    open spec fn spec_repr_supported() -> bool {
        A::spec_repr_supported()
        && B::spec_repr_supported()
        && C::spec_repr_supported()
        && D::spec_repr_supported()
        && E::spec_repr_supported()
        && F::spec_repr_supported()
        && G::spec_repr_supported()
        && H::spec_repr_supported()
        && I::spec_repr_supported()
        && J::spec_repr_supported()
        && K::spec_repr_supported()
        && L::spec_repr_supported()
        && supported_width(vstd::layout::size_of::<A>())
        && supported_width(vstd::layout::size_of::<B>())
        && supported_width(vstd::layout::size_of::<C>())
        && supported_width(vstd::layout::size_of::<D>())
        && supported_width(vstd::layout::size_of::<E>())
        && supported_width(vstd::layout::size_of::<F>())
        && supported_width(vstd::layout::size_of::<G>())
        && supported_width(vstd::layout::size_of::<H>())
        && supported_width(vstd::layout::size_of::<I>())
        && supported_width(vstd::layout::size_of::<J>())
        && supported_width(vstd::layout::size_of::<K>())
        && supported_width(vstd::layout::size_of::<L>())
        && vstd::layout::size_of::<A>() + vstd::layout::size_of::<B>() + vstd::layout::size_of::<C>() + vstd::layout::size_of::<D>() + vstd::layout::size_of::<E>() + vstd::layout::size_of::<F>() + vstd::layout::size_of::<G>() + vstd::layout::size_of::<H>() + vstd::layout::size_of::<I>() + vstd::layout::size_of::<J>() + vstd::layout::size_of::<K>() + vstd::layout::size_of::<L>() <= 16
    }

    /// The parts' bytes in turn, most significant first, each part cut to its width.
    open spec fn spec_to_u128(self) -> u128 {
        pack_part(pack_part(pack_part(pack_part(pack_part(pack_part(pack_part(pack_part(pack_part(pack_part(pack_part(pack_part(0, self.0.spec_to_u128() as nat, vstd::layout::size_of::<A>()), self.1.spec_to_u128() as nat, vstd::layout::size_of::<B>()), self.2.spec_to_u128() as nat, vstd::layout::size_of::<C>()), self.3.spec_to_u128() as nat, vstd::layout::size_of::<D>()), self.4.spec_to_u128() as nat, vstd::layout::size_of::<E>()), self.5.spec_to_u128() as nat, vstd::layout::size_of::<F>()), self.6.spec_to_u128() as nat, vstd::layout::size_of::<G>()), self.7.spec_to_u128() as nat, vstd::layout::size_of::<H>()), self.8.spec_to_u128() as nat, vstd::layout::size_of::<I>()), self.9.spec_to_u128() as nat, vstd::layout::size_of::<J>()), self.10.spec_to_u128() as nat, vstd::layout::size_of::<K>()), self.11.spec_to_u128() as nat, vstd::layout::size_of::<L>()) as u128
    }

    /// Each part read from its bytes, in turn from the most significant.
    open spec fn spec_from_u128(v: u128) -> Self {
        (
            A::spec_from_u128(unpack_part(v as nat, vstd::layout::size_of::<A>(), vstd::layout::size_of::<B>() + vstd::layout::size_of::<C>() + vstd::layout::size_of::<D>() + vstd::layout::size_of::<E>() + vstd::layout::size_of::<F>() + vstd::layout::size_of::<G>() + vstd::layout::size_of::<H>() + vstd::layout::size_of::<I>() + vstd::layout::size_of::<J>() + vstd::layout::size_of::<K>() + vstd::layout::size_of::<L>()) as u128),
            B::spec_from_u128(unpack_part(v as nat, vstd::layout::size_of::<B>(), vstd::layout::size_of::<C>() + vstd::layout::size_of::<D>() + vstd::layout::size_of::<E>() + vstd::layout::size_of::<F>() + vstd::layout::size_of::<G>() + vstd::layout::size_of::<H>() + vstd::layout::size_of::<I>() + vstd::layout::size_of::<J>() + vstd::layout::size_of::<K>() + vstd::layout::size_of::<L>()) as u128),
            C::spec_from_u128(unpack_part(v as nat, vstd::layout::size_of::<C>(), vstd::layout::size_of::<D>() + vstd::layout::size_of::<E>() + vstd::layout::size_of::<F>() + vstd::layout::size_of::<G>() + vstd::layout::size_of::<H>() + vstd::layout::size_of::<I>() + vstd::layout::size_of::<J>() + vstd::layout::size_of::<K>() + vstd::layout::size_of::<L>()) as u128),
            D::spec_from_u128(unpack_part(v as nat, vstd::layout::size_of::<D>(), vstd::layout::size_of::<E>() + vstd::layout::size_of::<F>() + vstd::layout::size_of::<G>() + vstd::layout::size_of::<H>() + vstd::layout::size_of::<I>() + vstd::layout::size_of::<J>() + vstd::layout::size_of::<K>() + vstd::layout::size_of::<L>()) as u128),
            E::spec_from_u128(unpack_part(v as nat, vstd::layout::size_of::<E>(), vstd::layout::size_of::<F>() + vstd::layout::size_of::<G>() + vstd::layout::size_of::<H>() + vstd::layout::size_of::<I>() + vstd::layout::size_of::<J>() + vstd::layout::size_of::<K>() + vstd::layout::size_of::<L>()) as u128),
            F::spec_from_u128(unpack_part(v as nat, vstd::layout::size_of::<F>(), vstd::layout::size_of::<G>() + vstd::layout::size_of::<H>() + vstd::layout::size_of::<I>() + vstd::layout::size_of::<J>() + vstd::layout::size_of::<K>() + vstd::layout::size_of::<L>()) as u128),
            G::spec_from_u128(unpack_part(v as nat, vstd::layout::size_of::<G>(), vstd::layout::size_of::<H>() + vstd::layout::size_of::<I>() + vstd::layout::size_of::<J>() + vstd::layout::size_of::<K>() + vstd::layout::size_of::<L>()) as u128),
            H::spec_from_u128(unpack_part(v as nat, vstd::layout::size_of::<H>(), vstd::layout::size_of::<I>() + vstd::layout::size_of::<J>() + vstd::layout::size_of::<K>() + vstd::layout::size_of::<L>()) as u128),
            I::spec_from_u128(unpack_part(v as nat, vstd::layout::size_of::<I>(), vstd::layout::size_of::<J>() + vstd::layout::size_of::<K>() + vstd::layout::size_of::<L>()) as u128),
            J::spec_from_u128(unpack_part(v as nat, vstd::layout::size_of::<J>(), vstd::layout::size_of::<K>() + vstd::layout::size_of::<L>()) as u128),
            K::spec_from_u128(unpack_part(v as nat, vstd::layout::size_of::<K>(), vstd::layout::size_of::<L>()) as u128),
            L::spec_from_u128(unpack_part(v as nat, vstd::layout::size_of::<L>(), 0) as u128),
        )
    }

    fn repr_supported() -> (r: bool) {
        let s0 = core::mem::size_of::<A>();
        let s1 = core::mem::size_of::<B>();
        let s2 = core::mem::size_of::<C>();
        let s3 = core::mem::size_of::<D>();
        let s4 = core::mem::size_of::<E>();
        let s5 = core::mem::size_of::<F>();
        let s6 = core::mem::size_of::<G>();
        let s7 = core::mem::size_of::<H>();
        let s8 = core::mem::size_of::<I>();
        let s9 = core::mem::size_of::<J>();
        let s10 = core::mem::size_of::<K>();
        let s11 = core::mem::size_of::<L>();
        if !(width_supported(s0) && width_supported(s1) && width_supported(s2) && width_supported(s3) && width_supported(s4) && width_supported(s5) && width_supported(s6) && width_supported(s7) && width_supported(s8) && width_supported(s9) && width_supported(s10) && width_supported(s11)) {
            return false;
        }
        A::repr_supported() && B::repr_supported() && C::repr_supported() && D::repr_supported() && E::repr_supported() && F::repr_supported() && G::repr_supported() && H::repr_supported() && I::repr_supported() && J::repr_supported() && K::repr_supported() && L::repr_supported() && s0 + s1 + s2 + s3 + s4 + s5 + s6 + s7 + s8 + s9 + s10 + s11 <= 16
    }

    #[verifier::rlimit(60)]
    fn to_u128(self) -> (r: u128) {
        let s0 = core::mem::size_of::<A>();
        let s1 = core::mem::size_of::<B>();
        let s2 = core::mem::size_of::<C>();
        let s3 = core::mem::size_of::<D>();
        let s4 = core::mem::size_of::<E>();
        let s5 = core::mem::size_of::<F>();
        let s6 = core::mem::size_of::<G>();
        let s7 = core::mem::size_of::<H>();
        let s8 = core::mem::size_of::<I>();
        let s9 = core::mem::size_of::<J>();
        let s10 = core::mem::size_of::<K>();
        let s11 = core::mem::size_of::<L>();
        let acc: u128 = pack_step(0, 0, self.0.to_u128(), s0);
        let acc: u128 = pack_step(acc, s0, self.1.to_u128(), s1);
        let acc: u128 = pack_step(acc, s0 + s1, self.2.to_u128(), s2);
        let acc: u128 = pack_step(acc, s0 + s1 + s2, self.3.to_u128(), s3);
        let acc: u128 = pack_step(acc, s0 + s1 + s2 + s3, self.4.to_u128(), s4);
        let acc: u128 = pack_step(acc, s0 + s1 + s2 + s3 + s4, self.5.to_u128(), s5);
        let acc: u128 = pack_step(acc, s0 + s1 + s2 + s3 + s4 + s5, self.6.to_u128(), s6);
        let acc: u128 = pack_step(acc, s0 + s1 + s2 + s3 + s4 + s5 + s6, self.7.to_u128(), s7);
        let acc: u128 = pack_step(acc, s0 + s1 + s2 + s3 + s4 + s5 + s6 + s7, self.8.to_u128(), s8);
        let acc: u128 = pack_step(acc, s0 + s1 + s2 + s3 + s4 + s5 + s6 + s7 + s8, self.9.to_u128(), s9);
        let acc: u128 = pack_step(acc, s0 + s1 + s2 + s3 + s4 + s5 + s6 + s7 + s8 + s9, self.10.to_u128(), s10);
        let acc: u128 = pack_step(acc, s0 + s1 + s2 + s3 + s4 + s5 + s6 + s7 + s8 + s9 + s10, self.11.to_u128(), s11);
        acc
    }

    #[verifier::rlimit(60)]
    fn from_u128(v: u128) -> (r: Self) {
        let s0 = core::mem::size_of::<A>();
        let s1 = core::mem::size_of::<B>();
        let s2 = core::mem::size_of::<C>();
        let s3 = core::mem::size_of::<D>();
        let s4 = core::mem::size_of::<E>();
        let s5 = core::mem::size_of::<F>();
        let s6 = core::mem::size_of::<G>();
        let s7 = core::mem::size_of::<H>();
        let s8 = core::mem::size_of::<I>();
        let s9 = core::mem::size_of::<J>();
        let s10 = core::mem::size_of::<K>();
        let s11 = core::mem::size_of::<L>();
        (
            A::from_u128(unpack_step(v, s0, s1 + s2 + s3 + s4 + s5 + s6 + s7 + s8 + s9 + s10 + s11)),
            B::from_u128(unpack_step(v, s1, s2 + s3 + s4 + s5 + s6 + s7 + s8 + s9 + s10 + s11)),
            C::from_u128(unpack_step(v, s2, s3 + s4 + s5 + s6 + s7 + s8 + s9 + s10 + s11)),
            D::from_u128(unpack_step(v, s3, s4 + s5 + s6 + s7 + s8 + s9 + s10 + s11)),
            E::from_u128(unpack_step(v, s4, s5 + s6 + s7 + s8 + s9 + s10 + s11)),
            F::from_u128(unpack_step(v, s5, s6 + s7 + s8 + s9 + s10 + s11)),
            G::from_u128(unpack_step(v, s6, s7 + s8 + s9 + s10 + s11)),
            H::from_u128(unpack_step(v, s7, s8 + s9 + s10 + s11)),
            I::from_u128(unpack_step(v, s8, s9 + s10 + s11)),
            J::from_u128(unpack_step(v, s9, s10 + s11)),
            K::from_u128(unpack_step(v, s10, s11)),
            L::from_u128(unpack_step(v, s11, 0)),
        )
    }
}

/// A 12-tuple whose parts each fit their width, and read back unchanged from their own
/// number, is read back unchanged from the tuple's number.
#[verifier::rlimit(100)]
#[verifier::spinoff_prover]
pub proof fn law_tuple12_repr_round_trip<A: EndianRepr, B: EndianRepr, C: EndianRepr, D: EndianRepr, E: EndianRepr, F: EndianRepr, G: EndianRepr, H: EndianRepr, I: EndianRepr, J: EndianRepr, K: EndianRepr, L: EndianRepr>(t: (A, B, C, D, E, F, G, H, I, J, K, L))
    requires
        <(A, B, C, D, E, F, G, H, I, J, K, L) as EndianRepr>::spec_repr_supported(),
        t.0.spec_to_u128() < pow256(vstd::layout::size_of::<A>()),
        A::spec_from_u128(t.0.spec_to_u128()) == t.0,
        t.1.spec_to_u128() < pow256(vstd::layout::size_of::<B>()),
        B::spec_from_u128(t.1.spec_to_u128()) == t.1,
        t.2.spec_to_u128() < pow256(vstd::layout::size_of::<C>()),
        C::spec_from_u128(t.2.spec_to_u128()) == t.2,
        t.3.spec_to_u128() < pow256(vstd::layout::size_of::<D>()),
        D::spec_from_u128(t.3.spec_to_u128()) == t.3,
        t.4.spec_to_u128() < pow256(vstd::layout::size_of::<E>()),
        E::spec_from_u128(t.4.spec_to_u128()) == t.4,
        t.5.spec_to_u128() < pow256(vstd::layout::size_of::<F>()),
        F::spec_from_u128(t.5.spec_to_u128()) == t.5,
        t.6.spec_to_u128() < pow256(vstd::layout::size_of::<G>()),
        G::spec_from_u128(t.6.spec_to_u128()) == t.6,
        t.7.spec_to_u128() < pow256(vstd::layout::size_of::<H>()),
        H::spec_from_u128(t.7.spec_to_u128()) == t.7,
        t.8.spec_to_u128() < pow256(vstd::layout::size_of::<I>()),
        I::spec_from_u128(t.8.spec_to_u128()) == t.8,
        t.9.spec_to_u128() < pow256(vstd::layout::size_of::<J>()),
        J::spec_from_u128(t.9.spec_to_u128()) == t.9,
        t.10.spec_to_u128() < pow256(vstd::layout::size_of::<K>()),
        K::spec_from_u128(t.10.spec_to_u128()) == t.10,
        t.11.spec_to_u128() < pow256(vstd::layout::size_of::<L>()),
        L::spec_from_u128(t.11.spec_to_u128()) == t.11,
    ensures
        <(A, B, C, D, E, F, G, H, I, J, K, L) as EndianRepr>::spec_from_u128(t.spec_to_u128()) == t,
{
    let s0 = vstd::layout::size_of::<A>();
    let p0 = t.0.spec_to_u128() as nat;
    lemma_fits(p0, s0);
    let s1 = vstd::layout::size_of::<B>();
    let p1 = t.1.spec_to_u128() as nat;
    lemma_fits(p1, s1);
    let s2 = vstd::layout::size_of::<C>();
    let p2 = t.2.spec_to_u128() as nat;
    lemma_fits(p2, s2);
    let s3 = vstd::layout::size_of::<D>();
    let p3 = t.3.spec_to_u128() as nat;
    lemma_fits(p3, s3);
    let s4 = vstd::layout::size_of::<E>();
    let p4 = t.4.spec_to_u128() as nat;
    lemma_fits(p4, s4);
    let s5 = vstd::layout::size_of::<F>();
    let p5 = t.5.spec_to_u128() as nat;
    lemma_fits(p5, s5);
    let s6 = vstd::layout::size_of::<G>();
    let p6 = t.6.spec_to_u128() as nat;
    lemma_fits(p6, s6);
    let s7 = vstd::layout::size_of::<H>();
    let p7 = t.7.spec_to_u128() as nat;
    lemma_fits(p7, s7);
    let s8 = vstd::layout::size_of::<I>();
    let p8 = t.8.spec_to_u128() as nat;
    lemma_fits(p8, s8);
    let s9 = vstd::layout::size_of::<J>();
    let p9 = t.9.spec_to_u128() as nat;
    lemma_fits(p9, s9);
    let s10 = vstd::layout::size_of::<K>();
    let p10 = t.10.spec_to_u128() as nat;
    lemma_fits(p10, s10);
    let s11 = vstd::layout::size_of::<L>();
    let p11 = t.11.spec_to_u128() as nat;
    lemma_fits(p11, s11);
    let x0 = p0;
    let x1 = x0 * pow256(s1) + p1;
    let x2 = x1 * pow256(s2) + p2;
    let x3 = x2 * pow256(s3) + p3;
    let x4 = x3 * pow256(s4) + p4;
    let x5 = x4 * pow256(s5) + p5;
    let x6 = x5 * pow256(s6) + p6;
    let x7 = x6 * pow256(s7) + p7;
    let x8 = x7 * pow256(s8) + p8;
    let x9 = x8 * pow256(s9) + p9;
    let x10 = x9 * pow256(s10) + p10;
    let x11 = x10 * pow256(s11) + p11;
    let r11: nat = 0;
    let a11: nat = 0;
    lemma_pow256_positive(a11);
    lemma_pack_split(x10, p11, s11, a11, r11);
    let a10: nat = s11 + a11;
    let r10: nat = p11 * pow256(a11) + r11;
    lemma_pow256_positive(a10);
    lemma_pack_split(x9, p10, s10, a10, r10);
    let a9: nat = s10 + a10;
    let r9: nat = p10 * pow256(a10) + r10;
    lemma_pow256_positive(a9);
    lemma_pack_split(x8, p9, s9, a9, r9);
    let a8: nat = s9 + a9;
    let r8: nat = p9 * pow256(a9) + r9;
    lemma_pow256_positive(a8);
    lemma_pack_split(x7, p8, s8, a8, r8);
    let a7: nat = s8 + a8;
    let r7: nat = p8 * pow256(a8) + r8;
    lemma_pow256_positive(a7);
    lemma_pack_split(x6, p7, s7, a7, r7);
    let a6: nat = s7 + a7;
    let r6: nat = p7 * pow256(a7) + r7;
    lemma_pow256_positive(a6);
    lemma_pack_split(x5, p6, s6, a6, r6);
    let a5: nat = s6 + a6;
    let r5: nat = p6 * pow256(a6) + r6;
    lemma_pow256_positive(a5);
    lemma_pack_split(x4, p5, s5, a5, r5);
    let a4: nat = s5 + a5;
    let r4: nat = p5 * pow256(a5) + r5;
    lemma_pow256_positive(a4);
    lemma_pack_split(x3, p4, s4, a4, r4);
    let a3: nat = s4 + a4;
    let r3: nat = p4 * pow256(a4) + r4;
    lemma_pow256_positive(a3);
    lemma_pack_split(x2, p3, s3, a3, r3);
    let a2: nat = s3 + a3;
    let r2: nat = p3 * pow256(a3) + r3;
    lemma_pow256_positive(a2);
    lemma_pack_split(x1, p2, s2, a2, r2);
    let a1: nat = s2 + a2;
    let r1: nat = p2 * pow256(a2) + r2;
    lemma_pow256_positive(a1);
    lemma_pack_split(x0, p1, s1, a1, r1);
    let a0: nat = s1 + a1;
    let r0: nat = p1 * pow256(a1) + r1;
    lemma_times_pow256_zero(x11);
    lemma_unpack_packed(0, p0, s0, a0, r0);
    assert(x0 == 0 * pow256(s0) + p0);
    lemma_unpack_packed(x0, p1, s1, a1, r1);
    lemma_unpack_packed(x1, p2, s2, a2, r2);
    lemma_unpack_packed(x2, p3, s3, a3, r3);
    lemma_unpack_packed(x3, p4, s4, a4, r4);
    lemma_unpack_packed(x4, p5, s5, a5, r5);
    lemma_unpack_packed(x5, p6, s6, a6, r6);
    lemma_unpack_packed(x6, p7, s7, a7, r7);
    lemma_unpack_packed(x7, p8, s8, a8, r8);
    lemma_unpack_packed(x8, p9, s9, a9, r9);
    lemma_unpack_packed(x9, p10, s10, a10, r10);
    lemma_unpack_packed(x10, p11, s11, a11, r11);
    lemma_pack_split(0, p0, s0, a0, r0);
    lemma_pow256_monotonic(s0 + a0, 16);
    lemma_pow256_16();
    assert(x11 < 0x1_0000_0000_0000_0000_0000_0000_0000_0000);
    assert(t.spec_to_u128() as nat == x11);
}

} // verus!
