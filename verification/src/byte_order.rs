//! Byte exchange on fixed-width integers and the byte order of the executing hardware.
use vstd::prelude::*;

use vstd::arithmetic::div_mod::{lemma_div_denominator, lemma_mod_breakdown};

verus! {

/// Byte order of a value or of the executing hardware.
pub enum Endian {
    Big,
    Little,
}

/// True when the executing hardware stores multi-byte integers most significant byte first.
pub open spec fn spec_host_big() -> bool {
    vstd::endian::endianness() == vstd::endian::Endian::Big
}

/// The value of `x` with its two bytes in reverse order.
pub open spec fn swap16(x: u16) -> u16 {
    ((x & 0xff) << 8) | (x >> 8)
}

/// The value of `x` with its four bytes in reverse order.
pub open spec fn swap32(x: u32) -> u32 {
    (x << 24) | ((x & 0xff00) << 8) | ((x >> 8) & 0xff00) | (x >> 24)
}

/// The value of `x` with its eight bytes in reverse order.
pub open spec fn swap64(x: u64) -> u64 {
    ((swap32(x as u32) as u64) << 32) | (swap32((x >> 32) as u32) as u64)
}

/// The value of `x` with its sixteen bytes in reverse order.
pub open spec fn swap128(x: u128) -> u128 {
    ((swap64(x as u64) as u128) << 64) | (swap64((x >> 64) as u64) as u128)
}

/// The value of `x` with its bytes in reverse order, for either width of `usize`.
pub open spec fn swap_usize(x: usize) -> usize {
    if usize::BITS == 64 {
        swap64(x as u64) as usize
    } else {
        swap32(x as u32) as usize
    }
}

/// Calls `u16::to_be`, which std documents as a no-op on big-endian targets and a
/// byte swap on little-endian ones; the contract restates exactly that, in terms of
/// vstd's abstraction of the hardware byte order.
#[verifier::external_body]
fn u16_to_be(x: u16) -> (r: u16)
    ensures
        r == (if spec_host_big() { x } else { swap16(x) }),
{
    x.to_be()
}

/// Reports the byte order of the executing hardware.
pub fn host_endian() -> (e: Endian)
    ensures
        (e is Big) == spec_host_big(),
{
    let probe = u16_to_be(1);
    assert(swap16(1) == 256) by (bit_vector);
    if probe == 1 {
        Endian::Big
    } else {
        Endian::Little
    }
}

/// Exchanges the two bytes of `x`.
pub fn swap_bytes_u16(x: u16) -> (r: u16)
    ensures
        r == swap16(x),
{
    ((x & 0xff) << 8) | (x >> 8)
}

/// Reverses the four bytes of `x`.
pub fn swap_bytes_u32(x: u32) -> (r: u32)
    ensures
        r == swap32(x),
{
    (x << 24) | ((x & 0xff00) << 8) | ((x >> 8) & 0xff00) | (x >> 24)
}

/// Reverses the eight bytes of `x`.
pub fn swap_bytes_u64(x: u64) -> (r: u64)
    ensures
        r == swap64(x),
{
    ((swap_bytes_u32(x as u32) as u64) << 32) | (swap_bytes_u32((x >> 32) as u32) as u64)
}

/// Reverses the sixteen bytes of `x`.
pub fn swap_bytes_u128(x: u128) -> (r: u128)
    ensures
        r == swap128(x),
{
    ((swap_bytes_u64(x as u64) as u128) << 64) | (swap_bytes_u64((x >> 64) as u64) as u128)
}

/// Reverses the bytes of `x`, whatever the width of `usize`.
pub fn swap_bytes_usize(x: usize) -> (r: usize)
    ensures
        r == swap_usize(x),
{
    if usize::BITS == 64 {
        swap_bytes_u64(x as u64) as usize
    } else {
        swap_bytes_u32(x as u32) as usize
    }
}

/// Reversing the bytes twice gives the value back.
pub proof fn lemma_swap16_involution(x: u16)
    ensures
        swap16(swap16(x)) == x,
{
    assert(swap16(swap16(x)) == x) by (bit_vector);
}

/// Reversing the bytes twice gives the value back.
pub proof fn lemma_swap32_involution(x: u32)
    ensures
        swap32(swap32(x)) == x,
{
    assert(swap32(swap32(x)) == x) by (bit_vector);
}

/// Reversing the bytes twice gives the value back.
pub proof fn lemma_swap64_involution(x: u64)
    ensures
        swap64(swap64(x)) == x,
{
    assert(swap64(swap64(x)) == x) by (bit_vector);
}

/// Reversing the bytes twice gives the value back.
pub proof fn lemma_swap128_involution(x: u128)
    ensures
        swap128(swap128(x)) == x,
{
    assert(swap128(swap128(x)) == x) by (bit_vector);
}

/// Reversing the bytes twice gives the value back.
pub proof fn lemma_swap_usize_involution(x: usize)
    ensures
        swap_usize(swap_usize(x)) == x,
{
    if usize::BITS == 64 {
        assert(swap_usize(swap_usize(x)) == x) by (bit_vector)
            requires
                usize::BITS == 64,
        ;
    } else {
        assert(swap_usize(swap_usize(x)) == x) by (bit_vector)
            requires
                usize::BITS == 32,
        ;
    }
}


/// `256` to the power `n`: one more than the largest value that `n` bytes hold.
pub open spec fn pow256(n: nat) -> nat
    decreases n,
{
    if n == 0 {
        1
    } else {
        256 * pow256((n - 1) as nat)
    }
}

/// The `n` low-order bytes of `v`, least significant first.
pub open spec fn le_bytes(v: nat, n: nat) -> Seq<u8>
    decreases n,
{
    if n == 0 {
        Seq::empty()
    } else {
        seq![(v % 256) as u8] + le_bytes(v / 256, (n - 1) as nat)
    }
}

/// The `n` low-order bytes of `v`, most significant first.
pub open spec fn be_bytes(v: nat, n: nat) -> Seq<u8> {
    le_bytes(v, n).reverse()
}

/// The bytes of `v` as the executing hardware lays them out in memory.
pub open spec fn ne_bytes(v: nat, n: nat) -> Seq<u8> {
    if spec_host_big() {
        be_bytes(v, n)
    } else {
        le_bytes(v, n)
    }
}

/// The number whose bytes, least significant first, are `s`.
pub open spec fn le_value(s: Seq<u8>) -> nat
    decreases s.len(),
{
    if s.len() == 0 {
        0
    } else {
        s[0] as nat + 256 * le_value(s.drop_first())
    }
}

/// The number whose bytes, most significant first, are `s`.
pub open spec fn be_value(s: Seq<u8>) -> nat {
    le_value(s.reverse())
}

pub proof fn lemma_pow256_positive(n: nat)
    ensures
        pow256(n) > 0,
    decreases n,
{
    if n > 0 {
        lemma_pow256_positive((n - 1) as nat);
    }
}

pub proof fn lemma_pow256_monotonic(m: nat, n: nat)
    requires
        m <= n,
    ensures
        pow256(m) <= pow256(n),
    decreases n,
{
    lemma_pow256_positive(n);
    if m < n {
        lemma_pow256_monotonic(m, (n - 1) as nat);
    }
}

/// `256^16` is `2^128`, so sixteen bytes hold exactly the `u128` values.
pub proof fn lemma_pow256_16()
    ensures
        pow256(16) == 0x1_0000_0000_0000_0000_0000_0000_0000_0000,
{
    reveal_with_fuel(pow256, 17);
}

pub proof fn lemma_le_bytes_len(v: nat, n: nat)
    ensures
        le_bytes(v, n).len() == n,
    decreases n,
{
    if n > 0 {
        lemma_le_bytes_len(v / 256, (n - 1) as nat);
    }
}

/// Byte `i` (least significant first) of `v`.
pub proof fn lemma_le_bytes_index(v: nat, n: nat, i: nat)
    requires
        i < n,
    ensures
        le_bytes(v, n)[i as int] == ((v / pow256(i)) % 256) as u8,
    decreases i,
{
    let rest = le_bytes(v / 256, (n - 1) as nat);
    lemma_le_bytes_len(v / 256, (n - 1) as nat);
    assert(le_bytes(v, n) == seq![(v % 256) as u8] + rest);
    if i > 0 {
        assert(le_bytes(v, n)[i as int] == rest[i - 1]);
        lemma_le_bytes_index(v / 256, (n - 1) as nat, (i - 1) as nat);
        lemma_pow256_positive((i - 1) as nat);
        lemma_div_denominator(v as int, 256, pow256((i - 1) as nat) as int);
        assert(pow256(i) == 256 * pow256((i - 1) as nat));
        assert((v / 256) / pow256((i - 1) as nat) == v / pow256(i));
    } else {
        assert(le_bytes(v, n)[0] == (v % 256) as u8);
        assert(pow256(0) == 1);
        assert(v / pow256(i) == v);
    }
}

/// Reading back the `n` bytes of `v` gives `v` reduced to `n` bytes.
pub proof fn lemma_le_value_of_le_bytes(v: nat, n: nat)
    ensures
        le_value(le_bytes(v, n)) == v % pow256(n),
    decreases n,
{
    if n > 0 {
        let rest = le_bytes(v / 256, (n - 1) as nat);
        assert(le_bytes(v, n).drop_first() =~= rest);
        lemma_le_value_of_le_bytes(v / 256, (n - 1) as nat);
        lemma_pow256_positive((n - 1) as nat);
        lemma_mod_breakdown(v as int, 256, pow256((n - 1) as nat) as int);
    }
}

/// A number read from bytes fits in that many bytes.
pub proof fn lemma_le_value_bound(s: Seq<u8>)
    ensures
        le_value(s) < pow256(s.len()),
    decreases s.len(),
{
    if s.len() > 0 {
        lemma_le_value_bound(s.drop_first());
    }
}

/// Writing out the number read from `s` gives `s` back.
pub proof fn lemma_le_bytes_of_le_value(s: Seq<u8>)
    ensures
        le_bytes(le_value(s), s.len()) =~= s,
    decreases s.len(),
{
    if s.len() > 0 {
        let t = s.drop_first();
        let v = le_value(s);
        assert(v % 256 == s[0] as nat && v / 256 == le_value(t)) by (nonlinear_arith)
            requires
                v == s[0] as nat + 256 * le_value(t),
                s[0] < 256,
        ;
        lemma_le_bytes_of_le_value(t);
        lemma_le_bytes_len(v / 256, (s.len() - 1) as nat);
        assert(le_bytes(v, s.len()) =~= seq![s[0]] + t);
        assert(seq![s[0]] + t =~= s);
    }
}

/// Reading back the `n` big-endian bytes of `v` gives `v` reduced to `n` bytes.
pub proof fn lemma_be_value_of_be_bytes(v: nat, n: nat)
    ensures
        be_value(be_bytes(v, n)) == v % pow256(n),
        be_bytes(v, n).len() == n,
{
    assert(be_bytes(v, n).reverse() =~= le_bytes(v, n));
    lemma_le_value_of_le_bytes(v, n);
    lemma_le_bytes_len(v, n);
}

/// Appending a least significant byte.
pub proof fn lemma_be_value_push(s: Seq<u8>, b: u8)
    ensures
        be_value(s.push(b)) == be_value(s) * 256 + b,
{
    assert(s.push(b).reverse().drop_first() =~= s.reverse());
}

/// Prepending a least significant byte.
pub proof fn lemma_le_value_cons(b: u8, s: Seq<u8>)
    ensures
        le_value(seq![b] + s) == b + 256 * le_value(s),
{
    assert((seq![b] + s).drop_first() =~= s);
}

/// Byte `i` (most significant first) of `v`.
pub proof fn lemma_be_bytes_index(v: nat, n: nat, i: nat)
    requires
        i < n,
    ensures
        be_bytes(v, n)[i as int] == ((v / pow256((n - 1 - i) as nat)) % 256) as u8,
{
    lemma_le_bytes_len(v, n);
    lemma_le_bytes_index(v, n, (n - 1 - i) as nat);
}


/// Byte `i` (least significant first) of `v`.
pub open spec fn byte_at(v: nat, i: nat) -> nat {
    (v / pow256(i)) % 256
}

/// Two numbers whose `n` bytes are each other's in reverse order.
pub proof fn lemma_reversed_bytes(x: nat, y: nat, n: nat)
    requires
        forall|i: nat| i < n ==> #[trigger] byte_at(x, i) == byte_at(y, (n - 1 - i) as nat),
    ensures
        le_bytes(x, n) =~= be_bytes(y, n),
{
    lemma_le_bytes_len(x, n);
    lemma_le_bytes_len(y, n);
    assert forall|i: int| 0 <= i < n implies #[trigger] le_bytes(x, n)[i] == be_bytes(y, n)[i] by {
        lemma_le_bytes_index(x, n, i as nat);
        lemma_be_bytes_index(y, n, i as nat);
        assert(byte_at(x, i as nat) == byte_at(y, (n - 1 - i) as nat));
    }
}

/// Each byte of `swap16(x)` is the byte of `x` at the mirrored position.
proof fn lemma_swap16_byte_facts(x: u16)
    by (bit_vector)
    ensures
        (swap16(x) / 0x1) % 0x100 == (x / 0x100) % 0x100,
        (x / 0x1) % 0x100 == (swap16(x) / 0x100) % 0x100,
        (swap16(x) / 0x100) % 0x100 == (x / 0x1) % 0x100,
        (x / 0x100) % 0x100 == (swap16(x) / 0x1) % 0x100,
{
}

/// The bytes of `swap16(x)` are those of `x` in reverse order.
pub proof fn lemma_swap16_bytes(x: u16)
    ensures
        le_bytes(swap16(x) as nat, 2) =~= be_bytes(x as nat, 2),
        le_bytes(x as nat, 2) =~= be_bytes(swap16(x) as nat, 2),
{
    assert forall|i: nat| i < 2 implies #[trigger] byte_at(swap16(x) as nat, i) == byte_at(
        x as nat,
        (2 - 1 - i) as nat,
    ) && byte_at(x as nat, i) == byte_at(swap16(x) as nat, (2 - 1 - i) as nat) by {
        reveal_with_fuel(pow256, 3);
        lemma_swap16_byte_facts(x);
    }
    lemma_reversed_bytes(swap16(x) as nat, x as nat, 2);
    assert forall|i: nat| i < 2 implies #[trigger] byte_at(x as nat, i) == byte_at(
        swap16(x) as nat,
        (2 - 1 - i) as nat,
    ) by {
        assert(byte_at(x as nat, i) == byte_at(swap16(x) as nat, (2 - 1 - i) as nat));
    }
    lemma_reversed_bytes(x as nat, swap16(x) as nat, 2);
}

/// Each byte of `swap32(x)` is the byte of `x` at the mirrored position.
proof fn lemma_swap32_byte_facts(x: u32)
    by (bit_vector)
    ensures
        (swap32(x) / 0x1) % 0x100 == (x / 0x1000000) % 0x100,
        (x / 0x1) % 0x100 == (swap32(x) / 0x1000000) % 0x100,
        (swap32(x) / 0x100) % 0x100 == (x / 0x10000) % 0x100,
        (x / 0x100) % 0x100 == (swap32(x) / 0x10000) % 0x100,
        (swap32(x) / 0x10000) % 0x100 == (x / 0x100) % 0x100,
        (x / 0x10000) % 0x100 == (swap32(x) / 0x100) % 0x100,
        (swap32(x) / 0x1000000) % 0x100 == (x / 0x1) % 0x100,
        (x / 0x1000000) % 0x100 == (swap32(x) / 0x1) % 0x100,
{
}

/// The bytes of `swap32(x)` are those of `x` in reverse order.
pub proof fn lemma_swap32_bytes(x: u32)
    ensures
        le_bytes(swap32(x) as nat, 4) =~= be_bytes(x as nat, 4),
        le_bytes(x as nat, 4) =~= be_bytes(swap32(x) as nat, 4),
{
    assert forall|i: nat| i < 4 implies #[trigger] byte_at(swap32(x) as nat, i) == byte_at(
        x as nat,
        (4 - 1 - i) as nat,
    ) && byte_at(x as nat, i) == byte_at(swap32(x) as nat, (4 - 1 - i) as nat) by {
        reveal_with_fuel(pow256, 5);
        lemma_swap32_byte_facts(x);
    }
    lemma_reversed_bytes(swap32(x) as nat, x as nat, 4);
    assert forall|i: nat| i < 4 implies #[trigger] byte_at(x as nat, i) == byte_at(
        swap32(x) as nat,
        (4 - 1 - i) as nat,
    ) by {
        assert(byte_at(x as nat, i) == byte_at(swap32(x) as nat, (4 - 1 - i) as nat));
    }
    lemma_reversed_bytes(x as nat, swap32(x) as nat, 4);
}

/// Each byte of `swap64(x)` is the byte of `x` at the mirrored position.
proof fn lemma_swap64_byte_facts(x: u64)
    by (bit_vector)
    ensures
        (swap64(x) / 0x1) % 0x100 == (x / 0x100000000000000) % 0x100,
        (x / 0x1) % 0x100 == (swap64(x) / 0x100000000000000) % 0x100,
        (swap64(x) / 0x100) % 0x100 == (x / 0x1000000000000) % 0x100,
        (x / 0x100) % 0x100 == (swap64(x) / 0x1000000000000) % 0x100,
        (swap64(x) / 0x10000) % 0x100 == (x / 0x10000000000) % 0x100,
        (x / 0x10000) % 0x100 == (swap64(x) / 0x10000000000) % 0x100,
        (swap64(x) / 0x1000000) % 0x100 == (x / 0x100000000) % 0x100,
        (x / 0x1000000) % 0x100 == (swap64(x) / 0x100000000) % 0x100,
        (swap64(x) / 0x100000000) % 0x100 == (x / 0x1000000) % 0x100,
        (x / 0x100000000) % 0x100 == (swap64(x) / 0x1000000) % 0x100,
        (swap64(x) / 0x10000000000) % 0x100 == (x / 0x10000) % 0x100,
        (x / 0x10000000000) % 0x100 == (swap64(x) / 0x10000) % 0x100,
        (swap64(x) / 0x1000000000000) % 0x100 == (x / 0x100) % 0x100,
        (x / 0x1000000000000) % 0x100 == (swap64(x) / 0x100) % 0x100,
        (swap64(x) / 0x100000000000000) % 0x100 == (x / 0x1) % 0x100,
        (x / 0x100000000000000) % 0x100 == (swap64(x) / 0x1) % 0x100,
{
}

/// The bytes of `swap64(x)` are those of `x` in reverse order.
#[verifier::rlimit(60)]
pub proof fn lemma_swap64_bytes(x: u64)
    ensures
        le_bytes(swap64(x) as nat, 8) =~= be_bytes(x as nat, 8),
        le_bytes(x as nat, 8) =~= be_bytes(swap64(x) as nat, 8),
{
    assert forall|i: nat| i < 8 implies #[trigger] byte_at(swap64(x) as nat, i) == byte_at(
        x as nat,
        (8 - 1 - i) as nat,
    ) && byte_at(x as nat, i) == byte_at(swap64(x) as nat, (8 - 1 - i) as nat) by {
        reveal_with_fuel(pow256, 9);
        lemma_swap64_byte_facts(x);
    }
    lemma_reversed_bytes(swap64(x) as nat, x as nat, 8);
    assert forall|i: nat| i < 8 implies #[trigger] byte_at(x as nat, i) == byte_at(
        swap64(x) as nat,
        (8 - 1 - i) as nat,
    ) by {
        assert(byte_at(x as nat, i) == byte_at(swap64(x) as nat, (8 - 1 - i) as nat));
    }
    lemma_reversed_bytes(x as nat, swap64(x) as nat, 8);
}

/// Each byte of `swap128(x)` is the byte of `x` at the mirrored position.
proof fn lemma_swap128_byte_facts(x: u128)
    by (bit_vector)
    ensures
        (swap128(x) / 0x1) % 0x100 == (x / 0x1000000000000000000000000000000) % 0x100,
        (x / 0x1) % 0x100 == (swap128(x) / 0x1000000000000000000000000000000) % 0x100,
        (swap128(x) / 0x100) % 0x100 == (x / 0x10000000000000000000000000000) % 0x100,
        (x / 0x100) % 0x100 == (swap128(x) / 0x10000000000000000000000000000) % 0x100,
        (swap128(x) / 0x10000) % 0x100 == (x / 0x100000000000000000000000000) % 0x100,
        (x / 0x10000) % 0x100 == (swap128(x) / 0x100000000000000000000000000) % 0x100,
        (swap128(x) / 0x1000000) % 0x100 == (x / 0x1000000000000000000000000) % 0x100,
        (x / 0x1000000) % 0x100 == (swap128(x) / 0x1000000000000000000000000) % 0x100,
        (swap128(x) / 0x100000000) % 0x100 == (x / 0x10000000000000000000000) % 0x100,
        (x / 0x100000000) % 0x100 == (swap128(x) / 0x10000000000000000000000) % 0x100,
        (swap128(x) / 0x10000000000) % 0x100 == (x / 0x100000000000000000000) % 0x100,
        (x / 0x10000000000) % 0x100 == (swap128(x) / 0x100000000000000000000) % 0x100,
        (swap128(x) / 0x1000000000000) % 0x100 == (x / 0x1000000000000000000) % 0x100,
        (x / 0x1000000000000) % 0x100 == (swap128(x) / 0x1000000000000000000) % 0x100,
        (swap128(x) / 0x100000000000000) % 0x100 == (x / 0x10000000000000000) % 0x100,
        (x / 0x100000000000000) % 0x100 == (swap128(x) / 0x10000000000000000) % 0x100,
        (swap128(x) / 0x10000000000000000) % 0x100 == (x / 0x100000000000000) % 0x100,
        (x / 0x10000000000000000) % 0x100 == (swap128(x) / 0x100000000000000) % 0x100,
        (swap128(x) / 0x1000000000000000000) % 0x100 == (x / 0x1000000000000) % 0x100,
        (x / 0x1000000000000000000) % 0x100 == (swap128(x) / 0x1000000000000) % 0x100,
        (swap128(x) / 0x100000000000000000000) % 0x100 == (x / 0x10000000000) % 0x100,
        (x / 0x100000000000000000000) % 0x100 == (swap128(x) / 0x10000000000) % 0x100,
        (swap128(x) / 0x10000000000000000000000) % 0x100 == (x / 0x100000000) % 0x100,
        (x / 0x10000000000000000000000) % 0x100 == (swap128(x) / 0x100000000) % 0x100,
        (swap128(x) / 0x1000000000000000000000000) % 0x100 == (x / 0x1000000) % 0x100,
        (x / 0x1000000000000000000000000) % 0x100 == (swap128(x) / 0x1000000) % 0x100,
        (swap128(x) / 0x100000000000000000000000000) % 0x100 == (x / 0x10000) % 0x100,
        (x / 0x100000000000000000000000000) % 0x100 == (swap128(x) / 0x10000) % 0x100,
        (swap128(x) / 0x10000000000000000000000000000) % 0x100 == (x / 0x100) % 0x100,
        (x / 0x10000000000000000000000000000) % 0x100 == (swap128(x) / 0x100) % 0x100,
        (swap128(x) / 0x1000000000000000000000000000000) % 0x100 == (x / 0x1) % 0x100,
        (x / 0x1000000000000000000000000000000) % 0x100 == (swap128(x) / 0x1) % 0x100,
{
}

/// The bytes of `swap128(x)` are those of `x` in reverse order.
#[verifier::rlimit(60)]
pub proof fn lemma_swap128_bytes(x: u128)
    ensures
        le_bytes(swap128(x) as nat, 16) =~= be_bytes(x as nat, 16),
        le_bytes(x as nat, 16) =~= be_bytes(swap128(x) as nat, 16),
{
    assert forall|i: nat| i < 16 implies #[trigger] byte_at(swap128(x) as nat, i) == byte_at(
        x as nat,
        (16 - 1 - i) as nat,
    ) && byte_at(x as nat, i) == byte_at(swap128(x) as nat, (16 - 1 - i) as nat) by {
        reveal_with_fuel(pow256, 17);
        lemma_swap128_byte_facts(x);
    }
    lemma_reversed_bytes(swap128(x) as nat, x as nat, 16);
    assert forall|i: nat| i < 16 implies #[trigger] byte_at(x as nat, i) == byte_at(
        swap128(x) as nat,
        (16 - 1 - i) as nat,
    ) by {
        assert(byte_at(x as nat, i) == byte_at(swap128(x) as nat, (16 - 1 - i) as nat));
    }
    lemma_reversed_bytes(x as nat, swap128(x) as nat, 16);
}

} // verus!
