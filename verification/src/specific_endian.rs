//! The `SpecificEndian` trait, its implementations for the primitive types, and the
//! `BigEndian<T>` / `LittleEndian<T>` wrappers.
use vstd::prelude::*;

use crate::byte_order::{
    be_bytes, le_bytes, ne_bytes, lemma_swap16_bytes, lemma_swap32_bytes, lemma_swap64_bytes,
    lemma_swap128_bytes, lemma_swap16_involution, lemma_swap32_involution, lemma_swap64_involution,
    lemma_swap128_involution, lemma_swap_usize_involution,
    Endian, host_endian, spec_host_big, swap16, swap32, swap64, swap128, swap_usize,
    swap_bytes_u16, swap_bytes_u32, swap_bytes_u64, swap_bytes_u128, swap_bytes_usize,
};

verus! {

/// A type whose values can be converted between host order and big- or little-endian order.
///
/// `to_*` turns a host-order value into the stored form of that byte order; `from_*` turns a
/// stored form back into host order.
pub trait SpecificEndian<T>: Sized + Copy {
    /// The big-endian stored form of this host-order value.
    open spec fn spec_to_big_endian(&self) -> T {
        vstd::pervasive::arbitrary()
    }

    /// The little-endian stored form of this host-order value.
    open spec fn spec_to_little_endian(&self) -> T {
        vstd::pervasive::arbitrary()
    }

    /// The host-order value of this big-endian stored form.
    open spec fn spec_from_big_endian(&self) -> T {
        vstd::pervasive::arbitrary()
    }

    /// The host-order value of this little-endian stored form.
    open spec fn spec_from_little_endian(&self) -> T {
        vstd::pervasive::arbitrary()
    }

    /// Whether `{:X}`, `{:x}`, `{:o}` and `{:b}` write a value of this type as the digits of
    /// its `spec_radix_value`, as std does for its primitive integers.
    open spec fn spec_formats_as_integer() -> bool {
        false
    }

    /// The number whose digits the radix formats write: an unsigned integer's value, or a
    /// signed integer's two's-complement bit pattern read as unsigned.
    open spec fn spec_radix_value(&self) -> nat {
        0
    }

    fn to_big_endian(&self) -> (r: T)
        ensures
            r == self.spec_to_big_endian(),
    ;

    fn to_little_endian(&self) -> (r: T)
        ensures
            r == self.spec_to_little_endian(),
    ;

    fn from_big_endian(&self) -> (r: T)
        ensures
            r == self.spec_from_big_endian(),
    ;

    fn from_little_endian(&self) -> (r: T)
        ensures
            r == self.spec_from_little_endian(),
    ;

    /// The byte order of the executing hardware.
    fn endian(&self) -> (e: Endian)
        ensures
            (e is Big) == spec_host_big(),
    {
        host_endian()
    }
}

/// A type whose big- and little-endian forms are distinct types (text and buffer types that
/// are not `Copy`).
pub trait SpecificEndianOwned: Sized {
    /// The big-endian form of this type.
    type Big;

    /// The little-endian form of this type.
    type Little;

    /// `b` holds the same host-order content as `self`, in big-endian form.
    open spec fn spec_is_big_form(&self, b: Self::Big) -> bool {
        vstd::pervasive::arbitrary()
    }

    /// `l` holds the same host-order content as `self`, in little-endian form.
    open spec fn spec_is_little_form(&self, l: Self::Little) -> bool {
        vstd::pervasive::arbitrary()
    }

    fn to_big_endian(&self) -> (r: Self::Big)
        ensures
            self.spec_is_big_form(r),
    ;

    fn to_little_endian(&self) -> (r: Self::Little)
        ensures
            self.spec_is_little_form(r),
    ;

    fn from_big_endian(&self) -> (r: Self::Big)
        ensures
            self.spec_is_big_form(r),
    ;

    fn from_little_endian(&self) -> (r: Self::Little)
        ensures
            self.spec_is_little_form(r),
    ;

    /// The byte order of the executing hardware.
    fn endian(&self) -> (e: Endian)
        ensures
            (e is Big) == spec_host_big(),
    {
        host_endian()
    }
}

/// A value converts to and from both stored forms without change.
pub open spec fn round_trips<T: SpecificEndian<T>>(v: T) -> bool {
    &&& v.spec_to_big_endian().spec_from_big_endian() == v
    &&& v.spec_to_little_endian().spec_from_little_endian() == v
}

impl SpecificEndian<u8> for u8 {
    open spec fn spec_formats_as_integer() -> bool {
        true
    }

    open spec fn spec_radix_value(&self) -> nat {
        *self as nat
    }

    open spec fn spec_to_big_endian(&self) -> u8 {
        *self
    }

    open spec fn spec_to_little_endian(&self) -> u8 {
        *self
    }

    open spec fn spec_from_big_endian(&self) -> u8 {
        *self
    }

    open spec fn spec_from_little_endian(&self) -> u8 {
        *self
    }

    fn to_big_endian(&self) -> (r: u8) {
        *self
    }

    fn to_little_endian(&self) -> (r: u8) {
        *self
    }

    fn from_big_endian(&self) -> (r: u8) {
        *self
    }

    fn from_little_endian(&self) -> (r: u8) {
        *self
    }
}

impl SpecificEndian<i8> for i8 {
    open spec fn spec_formats_as_integer() -> bool {
        true
    }

    open spec fn spec_radix_value(&self) -> nat {
        (*self as u8) as nat
    }

    open spec fn spec_to_big_endian(&self) -> i8 {
        *self
    }

    open spec fn spec_to_little_endian(&self) -> i8 {
        *self
    }

    open spec fn spec_from_big_endian(&self) -> i8 {
        *self
    }

    open spec fn spec_from_little_endian(&self) -> i8 {
        *self
    }

    fn to_big_endian(&self) -> (r: i8) {
        *self
    }

    fn to_little_endian(&self) -> (r: i8) {
        *self
    }

    fn from_big_endian(&self) -> (r: i8) {
        *self
    }

    fn from_little_endian(&self) -> (r: i8) {
        *self
    }
}

impl SpecificEndian<bool> for bool {
    open spec fn spec_to_big_endian(&self) -> bool {
        *self
    }

    open spec fn spec_to_little_endian(&self) -> bool {
        *self
    }

    open spec fn spec_from_big_endian(&self) -> bool {
        *self
    }

    open spec fn spec_from_little_endian(&self) -> bool {
        *self
    }

    fn to_big_endian(&self) -> (r: bool) {
        *self
    }

    fn to_little_endian(&self) -> (r: bool) {
        *self
    }

    fn from_big_endian(&self) -> (r: bool) {
        *self
    }

    fn from_little_endian(&self) -> (r: bool) {
        *self
    }
}

impl SpecificEndian<char> for char {
    open spec fn spec_to_big_endian(&self) -> char {
        *self
    }

    open spec fn spec_to_little_endian(&self) -> char {
        *self
    }

    open spec fn spec_from_big_endian(&self) -> char {
        *self
    }

    open spec fn spec_from_little_endian(&self) -> char {
        *self
    }

    fn to_big_endian(&self) -> (r: char) {
        *self
    }

    fn to_little_endian(&self) -> (r: char) {
        *self
    }

    fn from_big_endian(&self) -> (r: char) {
        *self
    }

    fn from_little_endian(&self) -> (r: char) {
        *self
    }
}

/// The big-endian form of a host-order `u16`: unchanged on big-endian hardware, byte-reversed otherwise.
pub open spec fn spec_u16_to_be(x: u16) -> u16 {
    if spec_host_big() {
        x
    } else {
        swap16(x)
    }
}

/// The little-endian form of a host-order `u16`: byte-reversed on big-endian hardware, unchanged otherwise.
pub open spec fn spec_u16_to_le(x: u16) -> u16 {
    if spec_host_big() {
        swap16(x)
    } else {
        x
    }
}

fn u16_to_be(x: u16) -> (r: u16)
    ensures
        r == spec_u16_to_be(x),
{
    match host_endian() {
        Endian::Big => x,
        Endian::Little => swap_bytes_u16(x),
    }
}

fn u16_to_le(x: u16) -> (r: u16)
    ensures
        r == spec_u16_to_le(x),
{
    match host_endian() {
        Endian::Big => swap_bytes_u16(x),
        Endian::Little => x,
    }
}

impl SpecificEndian<u16> for u16 {
    open spec fn spec_formats_as_integer() -> bool {
        true
    }

    open spec fn spec_radix_value(&self) -> nat {
        *self as nat
    }

    open spec fn spec_to_big_endian(&self) -> u16 {
        spec_u16_to_be(*self)
    }

    open spec fn spec_to_little_endian(&self) -> u16 {
        spec_u16_to_le(*self)
    }

    open spec fn spec_from_big_endian(&self) -> u16 {
        spec_u16_to_be(*self)
    }

    open spec fn spec_from_little_endian(&self) -> u16 {
        spec_u16_to_le(*self)
    }

    fn to_big_endian(&self) -> (r: u16) {
        u16_to_be(*self)
    }

    fn to_little_endian(&self) -> (r: u16) {
        u16_to_le(*self)
    }

    fn from_big_endian(&self) -> (r: u16) {
        u16_to_be(*self)
    }

    fn from_little_endian(&self) -> (r: u16) {
        u16_to_le(*self)
    }
}

/// The big-endian form of a host-order `i16`: unchanged on big-endian hardware, byte-reversed otherwise.
pub open spec fn spec_i16_to_be(x: i16) -> i16 {
    if spec_host_big() {
        x
    } else {
        swap16(x as u16) as i16
    }
}

/// The little-endian form of a host-order `i16`: byte-reversed on big-endian hardware, unchanged otherwise.
pub open spec fn spec_i16_to_le(x: i16) -> i16 {
    if spec_host_big() {
        swap16(x as u16) as i16
    } else {
        x
    }
}

fn i16_to_be(x: i16) -> (r: i16)
    ensures
        r == spec_i16_to_be(x),
{
    match host_endian() {
        Endian::Big => x,
        Endian::Little => swap_bytes_u16(x as u16) as i16,
    }
}

fn i16_to_le(x: i16) -> (r: i16)
    ensures
        r == spec_i16_to_le(x),
{
    match host_endian() {
        Endian::Big => swap_bytes_u16(x as u16) as i16,
        Endian::Little => x,
    }
}

impl SpecificEndian<i16> for i16 {
    open spec fn spec_formats_as_integer() -> bool {
        true
    }

    open spec fn spec_radix_value(&self) -> nat {
        (*self as u16) as nat
    }

    open spec fn spec_to_big_endian(&self) -> i16 {
        spec_i16_to_be(*self)
    }

    open spec fn spec_to_little_endian(&self) -> i16 {
        spec_i16_to_le(*self)
    }

    open spec fn spec_from_big_endian(&self) -> i16 {
        spec_i16_to_be(*self)
    }

    open spec fn spec_from_little_endian(&self) -> i16 {
        spec_i16_to_le(*self)
    }

    fn to_big_endian(&self) -> (r: i16) {
        i16_to_be(*self)
    }

    fn to_little_endian(&self) -> (r: i16) {
        i16_to_le(*self)
    }

    fn from_big_endian(&self) -> (r: i16) {
        i16_to_be(*self)
    }

    fn from_little_endian(&self) -> (r: i16) {
        i16_to_le(*self)
    }
}

/// The big-endian form of a host-order `u32`: unchanged on big-endian hardware, byte-reversed otherwise.
pub open spec fn spec_u32_to_be(x: u32) -> u32 {
    if spec_host_big() {
        x
    } else {
        swap32(x)
    }
}

/// The little-endian form of a host-order `u32`: byte-reversed on big-endian hardware, unchanged otherwise.
pub open spec fn spec_u32_to_le(x: u32) -> u32 {
    if spec_host_big() {
        swap32(x)
    } else {
        x
    }
}

fn u32_to_be(x: u32) -> (r: u32)
    ensures
        r == spec_u32_to_be(x),
{
    match host_endian() {
        Endian::Big => x,
        Endian::Little => swap_bytes_u32(x),
    }
}

fn u32_to_le(x: u32) -> (r: u32)
    ensures
        r == spec_u32_to_le(x),
{
    match host_endian() {
        Endian::Big => swap_bytes_u32(x),
        Endian::Little => x,
    }
}

impl SpecificEndian<u32> for u32 {
    open spec fn spec_formats_as_integer() -> bool {
        true
    }

    open spec fn spec_radix_value(&self) -> nat {
        *self as nat
    }

    open spec fn spec_to_big_endian(&self) -> u32 {
        spec_u32_to_be(*self)
    }

    open spec fn spec_to_little_endian(&self) -> u32 {
        spec_u32_to_le(*self)
    }

    open spec fn spec_from_big_endian(&self) -> u32 {
        spec_u32_to_be(*self)
    }

    open spec fn spec_from_little_endian(&self) -> u32 {
        spec_u32_to_le(*self)
    }

    fn to_big_endian(&self) -> (r: u32) {
        u32_to_be(*self)
    }

    fn to_little_endian(&self) -> (r: u32) {
        u32_to_le(*self)
    }

    fn from_big_endian(&self) -> (r: u32) {
        u32_to_be(*self)
    }

    fn from_little_endian(&self) -> (r: u32) {
        u32_to_le(*self)
    }
}

/// The big-endian form of a host-order `i32`: unchanged on big-endian hardware, byte-reversed otherwise.
pub open spec fn spec_i32_to_be(x: i32) -> i32 {
    if spec_host_big() {
        x
    } else {
        swap32(x as u32) as i32
    }
}

/// The little-endian form of a host-order `i32`: byte-reversed on big-endian hardware, unchanged otherwise.
pub open spec fn spec_i32_to_le(x: i32) -> i32 {
    if spec_host_big() {
        swap32(x as u32) as i32
    } else {
        x
    }
}

fn i32_to_be(x: i32) -> (r: i32)
    ensures
        r == spec_i32_to_be(x),
{
    match host_endian() {
        Endian::Big => x,
        Endian::Little => swap_bytes_u32(x as u32) as i32,
    }
}

fn i32_to_le(x: i32) -> (r: i32)
    ensures
        r == spec_i32_to_le(x),
{
    match host_endian() {
        Endian::Big => swap_bytes_u32(x as u32) as i32,
        Endian::Little => x,
    }
}

impl SpecificEndian<i32> for i32 {
    open spec fn spec_formats_as_integer() -> bool {
        true
    }

    open spec fn spec_radix_value(&self) -> nat {
        (*self as u32) as nat
    }

    open spec fn spec_to_big_endian(&self) -> i32 {
        spec_i32_to_be(*self)
    }

    open spec fn spec_to_little_endian(&self) -> i32 {
        spec_i32_to_le(*self)
    }

    open spec fn spec_from_big_endian(&self) -> i32 {
        spec_i32_to_be(*self)
    }

    open spec fn spec_from_little_endian(&self) -> i32 {
        spec_i32_to_le(*self)
    }

    fn to_big_endian(&self) -> (r: i32) {
        i32_to_be(*self)
    }

    fn to_little_endian(&self) -> (r: i32) {
        i32_to_le(*self)
    }

    fn from_big_endian(&self) -> (r: i32) {
        i32_to_be(*self)
    }

    fn from_little_endian(&self) -> (r: i32) {
        i32_to_le(*self)
    }
}

/// The big-endian form of a host-order `u64`: unchanged on big-endian hardware, byte-reversed otherwise.
pub open spec fn spec_u64_to_be(x: u64) -> u64 {
    if spec_host_big() {
        x
    } else {
        swap64(x)
    }
}

/// The little-endian form of a host-order `u64`: byte-reversed on big-endian hardware, unchanged otherwise.
pub open spec fn spec_u64_to_le(x: u64) -> u64 {
    if spec_host_big() {
        swap64(x)
    } else {
        x
    }
}

fn u64_to_be(x: u64) -> (r: u64)
    ensures
        r == spec_u64_to_be(x),
{
    match host_endian() {
        Endian::Big => x,
        Endian::Little => swap_bytes_u64(x),
    }
}

fn u64_to_le(x: u64) -> (r: u64)
    ensures
        r == spec_u64_to_le(x),
{
    match host_endian() {
        Endian::Big => swap_bytes_u64(x),
        Endian::Little => x,
    }
}

impl SpecificEndian<u64> for u64 {
    open spec fn spec_formats_as_integer() -> bool {
        true
    }

    open spec fn spec_radix_value(&self) -> nat {
        *self as nat
    }

    open spec fn spec_to_big_endian(&self) -> u64 {
        spec_u64_to_be(*self)
    }

    open spec fn spec_to_little_endian(&self) -> u64 {
        spec_u64_to_le(*self)
    }

    open spec fn spec_from_big_endian(&self) -> u64 {
        spec_u64_to_be(*self)
    }

    open spec fn spec_from_little_endian(&self) -> u64 {
        spec_u64_to_le(*self)
    }

    fn to_big_endian(&self) -> (r: u64) {
        u64_to_be(*self)
    }

    fn to_little_endian(&self) -> (r: u64) {
        u64_to_le(*self)
    }

    fn from_big_endian(&self) -> (r: u64) {
        u64_to_be(*self)
    }

    fn from_little_endian(&self) -> (r: u64) {
        u64_to_le(*self)
    }
}

/// The big-endian form of a host-order `i64`: unchanged on big-endian hardware, byte-reversed otherwise.
pub open spec fn spec_i64_to_be(x: i64) -> i64 {
    if spec_host_big() {
        x
    } else {
        swap64(x as u64) as i64
    }
}

/// The little-endian form of a host-order `i64`: byte-reversed on big-endian hardware, unchanged otherwise.
pub open spec fn spec_i64_to_le(x: i64) -> i64 {
    if spec_host_big() {
        swap64(x as u64) as i64
    } else {
        x
    }
}

fn i64_to_be(x: i64) -> (r: i64)
    ensures
        r == spec_i64_to_be(x),
{
    match host_endian() {
        Endian::Big => x,
        Endian::Little => swap_bytes_u64(x as u64) as i64,
    }
}

fn i64_to_le(x: i64) -> (r: i64)
    ensures
        r == spec_i64_to_le(x),
{
    match host_endian() {
        Endian::Big => swap_bytes_u64(x as u64) as i64,
        Endian::Little => x,
    }
}

impl SpecificEndian<i64> for i64 {
    open spec fn spec_formats_as_integer() -> bool {
        true
    }

    open spec fn spec_radix_value(&self) -> nat {
        (*self as u64) as nat
    }

    open spec fn spec_to_big_endian(&self) -> i64 {
        spec_i64_to_be(*self)
    }

    open spec fn spec_to_little_endian(&self) -> i64 {
        spec_i64_to_le(*self)
    }

    open spec fn spec_from_big_endian(&self) -> i64 {
        spec_i64_to_be(*self)
    }

    open spec fn spec_from_little_endian(&self) -> i64 {
        spec_i64_to_le(*self)
    }

    fn to_big_endian(&self) -> (r: i64) {
        i64_to_be(*self)
    }

    fn to_little_endian(&self) -> (r: i64) {
        i64_to_le(*self)
    }

    fn from_big_endian(&self) -> (r: i64) {
        i64_to_be(*self)
    }

    fn from_little_endian(&self) -> (r: i64) {
        i64_to_le(*self)
    }
}

/// The big-endian form of a host-order `u128`: unchanged on big-endian hardware, byte-reversed otherwise.
pub open spec fn spec_u128_to_be(x: u128) -> u128 {
    if spec_host_big() {
        x
    } else {
        swap128(x)
    }
}

/// The little-endian form of a host-order `u128`: byte-reversed on big-endian hardware, unchanged otherwise.
pub open spec fn spec_u128_to_le(x: u128) -> u128 {
    if spec_host_big() {
        swap128(x)
    } else {
        x
    }
}

fn u128_to_be(x: u128) -> (r: u128)
    ensures
        r == spec_u128_to_be(x),
{
    match host_endian() {
        Endian::Big => x,
        Endian::Little => swap_bytes_u128(x),
    }
}

fn u128_to_le(x: u128) -> (r: u128)
    ensures
        r == spec_u128_to_le(x),
{
    match host_endian() {
        Endian::Big => swap_bytes_u128(x),
        Endian::Little => x,
    }
}

impl SpecificEndian<u128> for u128 {
    open spec fn spec_formats_as_integer() -> bool {
        true
    }

    open spec fn spec_radix_value(&self) -> nat {
        *self as nat
    }

    open spec fn spec_to_big_endian(&self) -> u128 {
        spec_u128_to_be(*self)
    }

    open spec fn spec_to_little_endian(&self) -> u128 {
        spec_u128_to_le(*self)
    }

    open spec fn spec_from_big_endian(&self) -> u128 {
        spec_u128_to_be(*self)
    }

    open spec fn spec_from_little_endian(&self) -> u128 {
        spec_u128_to_le(*self)
    }

    fn to_big_endian(&self) -> (r: u128) {
        u128_to_be(*self)
    }

    fn to_little_endian(&self) -> (r: u128) {
        u128_to_le(*self)
    }

    fn from_big_endian(&self) -> (r: u128) {
        u128_to_be(*self)
    }

    fn from_little_endian(&self) -> (r: u128) {
        u128_to_le(*self)
    }
}

/// The big-endian form of a host-order `i128`: unchanged on big-endian hardware, byte-reversed otherwise.
pub open spec fn spec_i128_to_be(x: i128) -> i128 {
    if spec_host_big() {
        x
    } else {
        swap128(x as u128) as i128
    }
}

/// The little-endian form of a host-order `i128`: byte-reversed on big-endian hardware, unchanged otherwise.
pub open spec fn spec_i128_to_le(x: i128) -> i128 {
    if spec_host_big() {
        swap128(x as u128) as i128
    } else {
        x
    }
}

fn i128_to_be(x: i128) -> (r: i128)
    ensures
        r == spec_i128_to_be(x),
{
    match host_endian() {
        Endian::Big => x,
        Endian::Little => swap_bytes_u128(x as u128) as i128,
    }
}

fn i128_to_le(x: i128) -> (r: i128)
    ensures
        r == spec_i128_to_le(x),
{
    match host_endian() {
        Endian::Big => swap_bytes_u128(x as u128) as i128,
        Endian::Little => x,
    }
}

impl SpecificEndian<i128> for i128 {
    open spec fn spec_formats_as_integer() -> bool {
        true
    }

    open spec fn spec_radix_value(&self) -> nat {
        (*self as u128) as nat
    }

    open spec fn spec_to_big_endian(&self) -> i128 {
        spec_i128_to_be(*self)
    }

    open spec fn spec_to_little_endian(&self) -> i128 {
        spec_i128_to_le(*self)
    }

    open spec fn spec_from_big_endian(&self) -> i128 {
        spec_i128_to_be(*self)
    }

    open spec fn spec_from_little_endian(&self) -> i128 {
        spec_i128_to_le(*self)
    }

    fn to_big_endian(&self) -> (r: i128) {
        i128_to_be(*self)
    }

    fn to_little_endian(&self) -> (r: i128) {
        i128_to_le(*self)
    }

    fn from_big_endian(&self) -> (r: i128) {
        i128_to_be(*self)
    }

    fn from_little_endian(&self) -> (r: i128) {
        i128_to_le(*self)
    }
}

/// The big-endian form of a host-order `usize`: unchanged on big-endian hardware, byte-reversed otherwise.
pub open spec fn spec_usize_to_be(x: usize) -> usize {
    if spec_host_big() {
        x
    } else {
        swap_usize(x)
    }
}

/// The little-endian form of a host-order `usize`: byte-reversed on big-endian hardware, unchanged otherwise.
pub open spec fn spec_usize_to_le(x: usize) -> usize {
    if spec_host_big() {
        swap_usize(x)
    } else {
        x
    }
}

fn usize_to_be(x: usize) -> (r: usize)
    ensures
        r == spec_usize_to_be(x),
{
    match host_endian() {
        Endian::Big => x,
        Endian::Little => swap_bytes_usize(x),
    }
}

fn usize_to_le(x: usize) -> (r: usize)
    ensures
        r == spec_usize_to_le(x),
{
    match host_endian() {
        Endian::Big => swap_bytes_usize(x),
        Endian::Little => x,
    }
}

impl SpecificEndian<usize> for usize {
    open spec fn spec_formats_as_integer() -> bool {
        true
    }

    open spec fn spec_radix_value(&self) -> nat {
        *self as nat
    }

    open spec fn spec_to_big_endian(&self) -> usize {
        spec_usize_to_be(*self)
    }

    open spec fn spec_to_little_endian(&self) -> usize {
        spec_usize_to_le(*self)
    }

    open spec fn spec_from_big_endian(&self) -> usize {
        spec_usize_to_be(*self)
    }

    open spec fn spec_from_little_endian(&self) -> usize {
        spec_usize_to_le(*self)
    }

    fn to_big_endian(&self) -> (r: usize) {
        usize_to_be(*self)
    }

    fn to_little_endian(&self) -> (r: usize) {
        usize_to_le(*self)
    }

    fn from_big_endian(&self) -> (r: usize) {
        usize_to_be(*self)
    }

    fn from_little_endian(&self) -> (r: usize) {
        usize_to_le(*self)
    }
}

/// The big-endian form of a host-order `isize`: unchanged on big-endian hardware, byte-reversed otherwise.
pub open spec fn spec_isize_to_be(x: isize) -> isize {
    if spec_host_big() {
        x
    } else {
        swap_usize(x as usize) as isize
    }
}

/// The little-endian form of a host-order `isize`: byte-reversed on big-endian hardware, unchanged otherwise.
pub open spec fn spec_isize_to_le(x: isize) -> isize {
    if spec_host_big() {
        swap_usize(x as usize) as isize
    } else {
        x
    }
}

fn isize_to_be(x: isize) -> (r: isize)
    ensures
        r == spec_isize_to_be(x),
{
    match host_endian() {
        Endian::Big => x,
        Endian::Little => swap_bytes_usize(x as usize) as isize,
    }
}

fn isize_to_le(x: isize) -> (r: isize)
    ensures
        r == spec_isize_to_le(x),
{
    match host_endian() {
        Endian::Big => swap_bytes_usize(x as usize) as isize,
        Endian::Little => x,
    }
}

impl SpecificEndian<isize> for isize {
    open spec fn spec_formats_as_integer() -> bool {
        true
    }

    open spec fn spec_radix_value(&self) -> nat {
        (*self as usize) as nat
    }

    open spec fn spec_to_big_endian(&self) -> isize {
        spec_isize_to_be(*self)
    }

    open spec fn spec_to_little_endian(&self) -> isize {
        spec_isize_to_le(*self)
    }

    open spec fn spec_from_big_endian(&self) -> isize {
        spec_isize_to_be(*self)
    }

    open spec fn spec_from_little_endian(&self) -> isize {
        spec_isize_to_le(*self)
    }

    fn to_big_endian(&self) -> (r: isize) {
        isize_to_be(*self)
    }

    fn to_little_endian(&self) -> (r: isize) {
        isize_to_le(*self)
    }

    fn from_big_endian(&self) -> (r: isize) {
        isize_to_be(*self)
    }

    fn from_little_endian(&self) -> (r: isize) {
        isize_to_le(*self)
    }
}

} // verus!

verus! {

/// A big-endian representation of a `T`. The field holds the stored (big-endian) form; use
/// `from`/`into` to store a host-order value and `to_native` to read it back.
#[derive(Copy, Clone, Debug, Default, Eq, Hash, PartialEq)]
pub struct BigEndian<T: SpecificEndian<T>>(pub T);

/// A little-endian representation of a `T`. The field holds the stored (little-endian) form;
/// use `from`/`into` to store a host-order value and `to_native` to read it back.
#[derive(Copy, Clone, Debug, Default, Eq, Hash, PartialEq)]
pub struct LittleEndian<T: SpecificEndian<T>>(pub T);

impl<T: SpecificEndian<T>> View for BigEndian<T> {
    type V = T;

    /// The stored form.
    open spec fn view(&self) -> T {
        self.0
    }
}

impl<T: SpecificEndian<T>> View for LittleEndian<T> {
    type V = T;

    /// The stored form.
    open spec fn view(&self) -> T {
        self.0
    }
}

impl<T: SpecificEndian<T>> BigEndian<T> {
    /// The host-order value that this stores.
    pub open spec fn spec_native(self) -> T {
        self.0.spec_from_big_endian()
    }

    /// Returns the raw stored bits.
    pub fn to_bits(&self) -> (r: T)
        ensures
            r == self@,
    {
        self.0
    }

    /// Wraps raw bits that are already in big-endian form.
    pub fn from_bits(v: T) -> (r: Self)
        ensures
            r@ == v,
    {
        BigEndian(v)
    }

    /// Converts the stored value to host order.
    pub fn to_native(&self) -> (r: T)
        ensures
            r == self.spec_native(),
    {
        self.0.from_big_endian()
    }
}

impl<T: SpecificEndian<T>> LittleEndian<T> {
    /// The host-order value that this stores.
    pub open spec fn spec_native(self) -> T {
        self.0.spec_from_little_endian()
    }

    /// Returns the raw stored bits.
    pub fn to_bits(&self) -> (r: T)
        ensures
            r == self@,
    {
        self.0
    }

    /// Wraps raw bits that are already in little-endian form.
    pub fn from_bits(v: T) -> (r: Self)
        ensures
            r@ == v,
    {
        LittleEndian(v)
    }

    /// Converts the stored value to host order.
    pub fn to_native(&self) -> (r: T)
        ensures
            r == self.spec_native(),
    {
        self.0.from_little_endian()
    }
}

impl<T: SpecificEndian<T>> From<T> for BigEndian<T> {
    /// Stores a host-order value in big-endian form.
    fn from(v: T) -> (r: BigEndian<T>) {
        BigEndian(v.to_big_endian())
    }
}

impl<T: SpecificEndian<T>> vstd::std_specs::convert::FromSpecImpl<T> for BigEndian<T> {
    open spec fn obeys_from_spec() -> bool {
        true
    }

    open spec fn from_spec(v: T) -> BigEndian<T> {
        BigEndian(v.spec_to_big_endian())
    }
}

impl<T: SpecificEndian<T>> From<T> for LittleEndian<T> {
    /// Stores a host-order value in little-endian form.
    fn from(v: T) -> (r: LittleEndian<T>) {
        LittleEndian(v.to_little_endian())
    }
}

impl<T: SpecificEndian<T>> vstd::std_specs::convert::FromSpecImpl<T> for LittleEndian<T> {
    open spec fn obeys_from_spec() -> bool {
        true
    }

    open spec fn from_spec(v: T) -> LittleEndian<T> {
        LittleEndian(v.spec_to_little_endian())
    }
}

impl<T: SpecificEndian<T>> From<LittleEndian<T>> for BigEndian<T> {
    /// Re-stores a little-endian value in big-endian form, through host order.
    fn from(v: LittleEndian<T>) -> (r: BigEndian<T>) {
        BigEndian::<T>::from(v.to_native())
    }
}

impl<T: SpecificEndian<T>> vstd::std_specs::convert::FromSpecImpl<LittleEndian<T>> for BigEndian<T> {
    open spec fn obeys_from_spec() -> bool {
        true
    }

    open spec fn from_spec(v: LittleEndian<T>) -> BigEndian<T> {
        BigEndian(v.spec_native().spec_to_big_endian())
    }
}

impl<T: SpecificEndian<T>> From<BigEndian<T>> for LittleEndian<T> {
    /// Re-stores a big-endian value in little-endian form, through host order.
    fn from(v: BigEndian<T>) -> (r: LittleEndian<T>) {
        LittleEndian::<T>::from(v.to_native())
    }
}

impl<T: SpecificEndian<T>> vstd::std_specs::convert::FromSpecImpl<BigEndian<T>> for LittleEndian<T> {
    open spec fn obeys_from_spec() -> bool {
        true
    }

    open spec fn from_spec(v: BigEndian<T>) -> LittleEndian<T> {
        LittleEndian(v.spec_native().spec_to_little_endian())
    }
}

impl From<BigEndian<bool>> for bool {
    /// Reads the stored value back in host order.
    fn from(v: BigEndian<bool>) -> (r: bool) {
        v.0.from_big_endian()
    }
}

impl vstd::std_specs::convert::FromSpecImpl<BigEndian<bool>> for bool {
    open spec fn obeys_from_spec() -> bool {
        true
    }

    open spec fn from_spec(v: BigEndian<bool>) -> bool {
        v.spec_native()
    }
}

impl From<BigEndian<u8>> for u8 {
    /// Reads the stored value back in host order.
    fn from(v: BigEndian<u8>) -> (r: u8) {
        v.0.from_big_endian()
    }
}

impl vstd::std_specs::convert::FromSpecImpl<BigEndian<u8>> for u8 {
    open spec fn obeys_from_spec() -> bool {
        true
    }

    open spec fn from_spec(v: BigEndian<u8>) -> u8 {
        v.spec_native()
    }
}

impl From<BigEndian<i8>> for i8 {
    /// Reads the stored value back in host order.
    fn from(v: BigEndian<i8>) -> (r: i8) {
        v.0.from_big_endian()
    }
}

impl vstd::std_specs::convert::FromSpecImpl<BigEndian<i8>> for i8 {
    open spec fn obeys_from_spec() -> bool {
        true
    }

    open spec fn from_spec(v: BigEndian<i8>) -> i8 {
        v.spec_native()
    }
}

impl From<BigEndian<u16>> for u16 {
    /// Reads the stored value back in host order.
    fn from(v: BigEndian<u16>) -> (r: u16) {
        v.0.from_big_endian()
    }
}

impl vstd::std_specs::convert::FromSpecImpl<BigEndian<u16>> for u16 {
    open spec fn obeys_from_spec() -> bool {
        true
    }

    open spec fn from_spec(v: BigEndian<u16>) -> u16 {
        v.spec_native()
    }
}

impl From<BigEndian<i16>> for i16 {
    /// Reads the stored value back in host order.
    fn from(v: BigEndian<i16>) -> (r: i16) {
        v.0.from_big_endian()
    }
}

impl vstd::std_specs::convert::FromSpecImpl<BigEndian<i16>> for i16 {
    open spec fn obeys_from_spec() -> bool {
        true
    }

    open spec fn from_spec(v: BigEndian<i16>) -> i16 {
        v.spec_native()
    }
}

impl From<BigEndian<u32>> for u32 {
    /// Reads the stored value back in host order.
    fn from(v: BigEndian<u32>) -> (r: u32) {
        v.0.from_big_endian()
    }
}

impl vstd::std_specs::convert::FromSpecImpl<BigEndian<u32>> for u32 {
    open spec fn obeys_from_spec() -> bool {
        true
    }

    open spec fn from_spec(v: BigEndian<u32>) -> u32 {
        v.spec_native()
    }
}

impl From<BigEndian<i32>> for i32 {
    /// Reads the stored value back in host order.
    fn from(v: BigEndian<i32>) -> (r: i32) {
        v.0.from_big_endian()
    }
}

impl vstd::std_specs::convert::FromSpecImpl<BigEndian<i32>> for i32 {
    open spec fn obeys_from_spec() -> bool {
        true
    }

    open spec fn from_spec(v: BigEndian<i32>) -> i32 {
        v.spec_native()
    }
}

impl From<BigEndian<u64>> for u64 {
    /// Reads the stored value back in host order.
    fn from(v: BigEndian<u64>) -> (r: u64) {
        v.0.from_big_endian()
    }
}

impl vstd::std_specs::convert::FromSpecImpl<BigEndian<u64>> for u64 {
    open spec fn obeys_from_spec() -> bool {
        true
    }

    open spec fn from_spec(v: BigEndian<u64>) -> u64 {
        v.spec_native()
    }
}

impl From<BigEndian<i64>> for i64 {
    /// Reads the stored value back in host order.
    fn from(v: BigEndian<i64>) -> (r: i64) {
        v.0.from_big_endian()
    }
}

impl vstd::std_specs::convert::FromSpecImpl<BigEndian<i64>> for i64 {
    open spec fn obeys_from_spec() -> bool {
        true
    }

    open spec fn from_spec(v: BigEndian<i64>) -> i64 {
        v.spec_native()
    }
}

impl From<BigEndian<u128>> for u128 {
    /// Reads the stored value back in host order.
    fn from(v: BigEndian<u128>) -> (r: u128) {
        v.0.from_big_endian()
    }
}

impl vstd::std_specs::convert::FromSpecImpl<BigEndian<u128>> for u128 {
    open spec fn obeys_from_spec() -> bool {
        true
    }

    open spec fn from_spec(v: BigEndian<u128>) -> u128 {
        v.spec_native()
    }
}

impl From<BigEndian<i128>> for i128 {
    /// Reads the stored value back in host order.
    fn from(v: BigEndian<i128>) -> (r: i128) {
        v.0.from_big_endian()
    }
}

impl vstd::std_specs::convert::FromSpecImpl<BigEndian<i128>> for i128 {
    open spec fn obeys_from_spec() -> bool {
        true
    }

    open spec fn from_spec(v: BigEndian<i128>) -> i128 {
        v.spec_native()
    }
}

impl From<BigEndian<usize>> for usize {
    /// Reads the stored value back in host order.
    fn from(v: BigEndian<usize>) -> (r: usize) {
        v.0.from_big_endian()
    }
}

impl vstd::std_specs::convert::FromSpecImpl<BigEndian<usize>> for usize {
    open spec fn obeys_from_spec() -> bool {
        true
    }

    open spec fn from_spec(v: BigEndian<usize>) -> usize {
        v.spec_native()
    }
}

impl From<BigEndian<isize>> for isize {
    /// Reads the stored value back in host order.
    fn from(v: BigEndian<isize>) -> (r: isize) {
        v.0.from_big_endian()
    }
}

impl vstd::std_specs::convert::FromSpecImpl<BigEndian<isize>> for isize {
    open spec fn obeys_from_spec() -> bool {
        true
    }

    open spec fn from_spec(v: BigEndian<isize>) -> isize {
        v.spec_native()
    }
}

impl From<LittleEndian<bool>> for bool {
    /// Reads the stored value back in host order.
    fn from(v: LittleEndian<bool>) -> (r: bool) {
        v.0.from_little_endian()
    }
}

impl vstd::std_specs::convert::FromSpecImpl<LittleEndian<bool>> for bool {
    open spec fn obeys_from_spec() -> bool {
        true
    }

    open spec fn from_spec(v: LittleEndian<bool>) -> bool {
        v.spec_native()
    }
}

impl From<LittleEndian<u8>> for u8 {
    /// Reads the stored value back in host order.
    fn from(v: LittleEndian<u8>) -> (r: u8) {
        v.0.from_little_endian()
    }
}

impl vstd::std_specs::convert::FromSpecImpl<LittleEndian<u8>> for u8 {
    open spec fn obeys_from_spec() -> bool {
        true
    }

    open spec fn from_spec(v: LittleEndian<u8>) -> u8 {
        v.spec_native()
    }
}

impl From<LittleEndian<i8>> for i8 {
    /// Reads the stored value back in host order.
    fn from(v: LittleEndian<i8>) -> (r: i8) {
        v.0.from_little_endian()
    }
}

impl vstd::std_specs::convert::FromSpecImpl<LittleEndian<i8>> for i8 {
    open spec fn obeys_from_spec() -> bool {
        true
    }

    open spec fn from_spec(v: LittleEndian<i8>) -> i8 {
        v.spec_native()
    }
}

impl From<LittleEndian<u16>> for u16 {
    /// Reads the stored value back in host order.
    fn from(v: LittleEndian<u16>) -> (r: u16) {
        v.0.from_little_endian()
    }
}

impl vstd::std_specs::convert::FromSpecImpl<LittleEndian<u16>> for u16 {
    open spec fn obeys_from_spec() -> bool {
        true
    }

    open spec fn from_spec(v: LittleEndian<u16>) -> u16 {
        v.spec_native()
    }
}

impl From<LittleEndian<i16>> for i16 {
    /// Reads the stored value back in host order.
    fn from(v: LittleEndian<i16>) -> (r: i16) {
        v.0.from_little_endian()
    }
}

impl vstd::std_specs::convert::FromSpecImpl<LittleEndian<i16>> for i16 {
    open spec fn obeys_from_spec() -> bool {
        true
    }

    open spec fn from_spec(v: LittleEndian<i16>) -> i16 {
        v.spec_native()
    }
}

impl From<LittleEndian<u32>> for u32 {
    /// Reads the stored value back in host order.
    fn from(v: LittleEndian<u32>) -> (r: u32) {
        v.0.from_little_endian()
    }
}

impl vstd::std_specs::convert::FromSpecImpl<LittleEndian<u32>> for u32 {
    open spec fn obeys_from_spec() -> bool {
        true
    }

    open spec fn from_spec(v: LittleEndian<u32>) -> u32 {
        v.spec_native()
    }
}

impl From<LittleEndian<i32>> for i32 {
    /// Reads the stored value back in host order.
    fn from(v: LittleEndian<i32>) -> (r: i32) {
        v.0.from_little_endian()
    }
}

impl vstd::std_specs::convert::FromSpecImpl<LittleEndian<i32>> for i32 {
    open spec fn obeys_from_spec() -> bool {
        true
    }

    open spec fn from_spec(v: LittleEndian<i32>) -> i32 {
        v.spec_native()
    }
}

impl From<LittleEndian<u64>> for u64 {
    /// Reads the stored value back in host order.
    fn from(v: LittleEndian<u64>) -> (r: u64) {
        v.0.from_little_endian()
    }
}

impl vstd::std_specs::convert::FromSpecImpl<LittleEndian<u64>> for u64 {
    open spec fn obeys_from_spec() -> bool {
        true
    }

    open spec fn from_spec(v: LittleEndian<u64>) -> u64 {
        v.spec_native()
    }
}

impl From<LittleEndian<i64>> for i64 {
    /// Reads the stored value back in host order.
    fn from(v: LittleEndian<i64>) -> (r: i64) {
        v.0.from_little_endian()
    }
}

impl vstd::std_specs::convert::FromSpecImpl<LittleEndian<i64>> for i64 {
    open spec fn obeys_from_spec() -> bool {
        true
    }

    open spec fn from_spec(v: LittleEndian<i64>) -> i64 {
        v.spec_native()
    }
}

impl From<LittleEndian<u128>> for u128 {
    /// Reads the stored value back in host order.
    fn from(v: LittleEndian<u128>) -> (r: u128) {
        v.0.from_little_endian()
    }
}

impl vstd::std_specs::convert::FromSpecImpl<LittleEndian<u128>> for u128 {
    open spec fn obeys_from_spec() -> bool {
        true
    }

    open spec fn from_spec(v: LittleEndian<u128>) -> u128 {
        v.spec_native()
    }
}

impl From<LittleEndian<i128>> for i128 {
    /// Reads the stored value back in host order.
    fn from(v: LittleEndian<i128>) -> (r: i128) {
        v.0.from_little_endian()
    }
}

impl vstd::std_specs::convert::FromSpecImpl<LittleEndian<i128>> for i128 {
    open spec fn obeys_from_spec() -> bool {
        true
    }

    open spec fn from_spec(v: LittleEndian<i128>) -> i128 {
        v.spec_native()
    }
}

impl From<LittleEndian<usize>> for usize {
    /// Reads the stored value back in host order.
    fn from(v: LittleEndian<usize>) -> (r: usize) {
        v.0.from_little_endian()
    }
}

impl vstd::std_specs::convert::FromSpecImpl<LittleEndian<usize>> for usize {
    open spec fn obeys_from_spec() -> bool {
        true
    }

    open spec fn from_spec(v: LittleEndian<usize>) -> usize {
        v.spec_native()
    }
}

impl From<LittleEndian<isize>> for isize {
    /// Reads the stored value back in host order.
    fn from(v: LittleEndian<isize>) -> (r: isize) {
        v.0.from_little_endian()
    }
}

impl vstd::std_specs::convert::FromSpecImpl<LittleEndian<isize>> for isize {
    open spec fn obeys_from_spec() -> bool {
        true
    }

    open spec fn from_spec(v: LittleEndian<isize>) -> isize {
        v.spec_native()
    }
}

} // verus!

verus! {

/// A `bool` is stored unchanged in both byte orders, so it reads back unchanged; and raw bits
/// taken as stored (`from_bits`) are the stored form of the value they read back as.
pub proof fn law_round_trip_bool(v: bool)
    ensures
        round_trips(v),
        BigEndian(v) == BigEndian(v.spec_from_big_endian().spec_to_big_endian()),
        LittleEndian(v) == LittleEndian(v.spec_from_little_endian().spec_to_little_endian()),
{
}

/// A `char` is stored unchanged in both byte orders, so it reads back unchanged; and raw bits
/// taken as stored (`from_bits`) are the stored form of the value they read back as.
pub proof fn law_round_trip_char(v: char)
    ensures
        round_trips(v),
        BigEndian(v) == BigEndian(v.spec_from_big_endian().spec_to_big_endian()),
        LittleEndian(v) == LittleEndian(v.spec_from_little_endian().spec_to_little_endian()),
{
}

/// A `u8` is stored unchanged in both byte orders, so it reads back unchanged; and raw bits
/// taken as stored (`from_bits`) are the stored form of the value they read back as.
pub proof fn law_round_trip_u8(v: u8)
    ensures
        round_trips(v),
        BigEndian(v) == BigEndian(v.spec_from_big_endian().spec_to_big_endian()),
        LittleEndian(v) == LittleEndian(v.spec_from_little_endian().spec_to_little_endian()),
{
}

/// A `i8` is stored unchanged in both byte orders, so it reads back unchanged; and raw bits
/// taken as stored (`from_bits`) are the stored form of the value they read back as.
pub proof fn law_round_trip_i8(v: i8)
    ensures
        round_trips(v),
        BigEndian(v) == BigEndian(v.spec_from_big_endian().spec_to_big_endian()),
        LittleEndian(v) == LittleEndian(v.spec_from_little_endian().spec_to_little_endian()),
{
}

/// A `u16` stored in either byte order reads back unchanged; and raw bits
/// taken as stored (`from_bits`) are the stored form of the value they read back as.
pub proof fn law_round_trip_u16(v: u16)
    ensures
        round_trips(v),
        BigEndian(v) == BigEndian(v.spec_from_big_endian().spec_to_big_endian()),
        LittleEndian(v) == LittleEndian(v.spec_from_little_endian().spec_to_little_endian()),
{
    lemma_swap16_involution(v);
}

/// A `i16` stored in either byte order reads back unchanged; and raw bits
/// taken as stored (`from_bits`) are the stored form of the value they read back as.
pub proof fn law_round_trip_i16(v: i16)
    ensures
        round_trips(v),
        BigEndian(v) == BigEndian(v.spec_from_big_endian().spec_to_big_endian()),
        LittleEndian(v) == LittleEndian(v.spec_from_little_endian().spec_to_little_endian()),
{
    assert(swap16((swap16(v as u16) as i16) as u16) as i16 == v) by (bit_vector);
}

/// A `u32` stored in either byte order reads back unchanged; and raw bits
/// taken as stored (`from_bits`) are the stored form of the value they read back as.
pub proof fn law_round_trip_u32(v: u32)
    ensures
        round_trips(v),
        BigEndian(v) == BigEndian(v.spec_from_big_endian().spec_to_big_endian()),
        LittleEndian(v) == LittleEndian(v.spec_from_little_endian().spec_to_little_endian()),
{
    lemma_swap32_involution(v);
}

/// A `i32` stored in either byte order reads back unchanged; and raw bits
/// taken as stored (`from_bits`) are the stored form of the value they read back as.
pub proof fn law_round_trip_i32(v: i32)
    ensures
        round_trips(v),
        BigEndian(v) == BigEndian(v.spec_from_big_endian().spec_to_big_endian()),
        LittleEndian(v) == LittleEndian(v.spec_from_little_endian().spec_to_little_endian()),
{
    assert(swap32((swap32(v as u32) as i32) as u32) as i32 == v) by (bit_vector);
}

/// A `u64` stored in either byte order reads back unchanged; and raw bits
/// taken as stored (`from_bits`) are the stored form of the value they read back as.
pub proof fn law_round_trip_u64(v: u64)
    ensures
        round_trips(v),
        BigEndian(v) == BigEndian(v.spec_from_big_endian().spec_to_big_endian()),
        LittleEndian(v) == LittleEndian(v.spec_from_little_endian().spec_to_little_endian()),
{
    lemma_swap64_involution(v);
}

/// A `i64` stored in either byte order reads back unchanged; and raw bits
/// taken as stored (`from_bits`) are the stored form of the value they read back as.
pub proof fn law_round_trip_i64(v: i64)
    ensures
        round_trips(v),
        BigEndian(v) == BigEndian(v.spec_from_big_endian().spec_to_big_endian()),
        LittleEndian(v) == LittleEndian(v.spec_from_little_endian().spec_to_little_endian()),
{
    assert(swap64((swap64(v as u64) as i64) as u64) as i64 == v) by (bit_vector);
}

/// A `u128` stored in either byte order reads back unchanged; and raw bits
/// taken as stored (`from_bits`) are the stored form of the value they read back as.
pub proof fn law_round_trip_u128(v: u128)
    ensures
        round_trips(v),
        BigEndian(v) == BigEndian(v.spec_from_big_endian().spec_to_big_endian()),
        LittleEndian(v) == LittleEndian(v.spec_from_little_endian().spec_to_little_endian()),
{
    lemma_swap128_involution(v);
}

/// A `i128` stored in either byte order reads back unchanged; and raw bits
/// taken as stored (`from_bits`) are the stored form of the value they read back as.
pub proof fn law_round_trip_i128(v: i128)
    ensures
        round_trips(v),
        BigEndian(v) == BigEndian(v.spec_from_big_endian().spec_to_big_endian()),
        LittleEndian(v) == LittleEndian(v.spec_from_little_endian().spec_to_little_endian()),
{
    assert(swap128((swap128(v as u128) as i128) as u128) as i128 == v) by (bit_vector);
}

/// A `usize` stored in either byte order reads back unchanged; and raw bits
/// taken as stored (`from_bits`) are the stored form of the value they read back as.
pub proof fn law_round_trip_usize(v: usize)
    ensures
        round_trips(v),
        BigEndian(v) == BigEndian(v.spec_from_big_endian().spec_to_big_endian()),
        LittleEndian(v) == LittleEndian(v.spec_from_little_endian().spec_to_little_endian()),
{
    lemma_swap_usize_involution(v);
}

/// A `isize` stored in either byte order reads back unchanged; and raw bits
/// taken as stored (`from_bits`) are the stored form of the value they read back as.
pub proof fn law_round_trip_isize(v: isize)
    ensures
        round_trips(v),
        BigEndian(v) == BigEndian(v.spec_from_big_endian().spec_to_big_endian()),
        LittleEndian(v) == LittleEndian(v.spec_from_little_endian().spec_to_little_endian()),
{
    assert(swap_usize((swap_usize(v as usize) as isize) as usize) as isize == v) by (bit_vector);
}

/// Whatever the hardware, the stored bits of `BigEndian<u16>` lie in memory most significant
/// byte first and those of `LittleEndian<u16>` least significant byte first.
pub proof fn law_u16_storage_order(v: u16)
    ensures
        ne_bytes(v.spec_to_big_endian() as nat, 2) == be_bytes(v as nat, 2),
        ne_bytes(v.spec_to_little_endian() as nat, 2) == le_bytes(v as nat, 2),
{
    lemma_swap16_bytes(v);
}

/// Whatever the hardware, the stored bits of `BigEndian<u32>` lie in memory most significant
/// byte first and those of `LittleEndian<u32>` least significant byte first.
pub proof fn law_u32_storage_order(v: u32)
    ensures
        ne_bytes(v.spec_to_big_endian() as nat, 4) == be_bytes(v as nat, 4),
        ne_bytes(v.spec_to_little_endian() as nat, 4) == le_bytes(v as nat, 4),
{
    lemma_swap32_bytes(v);
}

/// Whatever the hardware, the stored bits of `BigEndian<u64>` lie in memory most significant
/// byte first and those of `LittleEndian<u64>` least significant byte first.
pub proof fn law_u64_storage_order(v: u64)
    ensures
        ne_bytes(v.spec_to_big_endian() as nat, 8) == be_bytes(v as nat, 8),
        ne_bytes(v.spec_to_little_endian() as nat, 8) == le_bytes(v as nat, 8),
{
    lemma_swap64_bytes(v);
}

/// Whatever the hardware, the stored bits of `BigEndian<u128>` lie in memory most significant
/// byte first and those of `LittleEndian<u128>` least significant byte first.
pub proof fn law_u128_storage_order(v: u128)
    ensures
        ne_bytes(v.spec_to_big_endian() as nat, 16) == be_bytes(v as nat, 16),
        ne_bytes(v.spec_to_little_endian() as nat, 16) == le_bytes(v as nat, 16),
{
    lemma_swap128_bytes(v);
}

/// Whatever the hardware, the stored two's-complement bits of `BigEndian<i16>` lie in memory
/// most significant byte first and those of `LittleEndian<i16>` least significant byte first.
pub proof fn law_i16_storage_order(v: i16)
    ensures
        ne_bytes(v.spec_to_big_endian().spec_radix_value(), 2) == be_bytes(v.spec_radix_value(), 2),
        ne_bytes(v.spec_to_little_endian().spec_radix_value(), 2) == le_bytes(
            v.spec_radix_value(),
            2,
        ),
{
    let x = v as u16;
    let y = swap16(x);
    assert((y as i16) as u16 == y) by (bit_vector);
    lemma_swap16_bytes(x);
}

/// Whatever the hardware, the stored two's-complement bits of `BigEndian<i32>` lie in memory
/// most significant byte first and those of `LittleEndian<i32>` least significant byte first.
pub proof fn law_i32_storage_order(v: i32)
    ensures
        ne_bytes(v.spec_to_big_endian().spec_radix_value(), 4) == be_bytes(v.spec_radix_value(), 4),
        ne_bytes(v.spec_to_little_endian().spec_radix_value(), 4) == le_bytes(
            v.spec_radix_value(),
            4,
        ),
{
    let x = v as u32;
    let y = swap32(x);
    assert((y as i32) as u32 == y) by (bit_vector);
    lemma_swap32_bytes(x);
}

/// Whatever the hardware, the stored two's-complement bits of `BigEndian<i64>` lie in memory
/// most significant byte first and those of `LittleEndian<i64>` least significant byte first.
pub proof fn law_i64_storage_order(v: i64)
    ensures
        ne_bytes(v.spec_to_big_endian().spec_radix_value(), 8) == be_bytes(v.spec_radix_value(), 8),
        ne_bytes(v.spec_to_little_endian().spec_radix_value(), 8) == le_bytes(
            v.spec_radix_value(),
            8,
        ),
{
    let x = v as u64;
    let y = swap64(x);
    assert((y as i64) as u64 == y) by (bit_vector);
    lemma_swap64_bytes(x);
}

/// Whatever the hardware, the stored two's-complement bits of `BigEndian<i128>` lie in memory
/// most significant byte first and those of `LittleEndian<i128>` least significant byte first.
pub proof fn law_i128_storage_order(v: i128)
    ensures
        ne_bytes(v.spec_to_big_endian().spec_radix_value(), 16) == be_bytes(v.spec_radix_value(), 16),
        ne_bytes(v.spec_to_little_endian().spec_radix_value(), 16) == le_bytes(
            v.spec_radix_value(),
            16,
        ),
{
    let x = v as u128;
    let y = swap128(x);
    assert((y as i128) as u128 == y) by (bit_vector);
    lemma_swap128_bytes(x);
}

/// The number of bytes in a `usize`.
pub open spec fn usize_bytes() -> nat {
    (usize::BITS / 8) as nat
}

/// Whatever the hardware, the stored bits of `BigEndian<usize>` lie in memory most significant
/// byte first and those of `LittleEndian<usize>` least significant byte first.
pub proof fn law_usize_storage_order(v: usize)
    ensures
        ne_bytes(v.spec_to_big_endian() as nat, usize_bytes()) == be_bytes(v as nat, usize_bytes()),
        ne_bytes(v.spec_to_little_endian() as nat, usize_bytes()) == le_bytes(v as nat, usize_bytes()),
{
    lemma_usize_swap_bytes(v);
}

/// Exchanging the bytes of a `usize` reverses its bytes, for either width.
proof fn lemma_usize_swap_bytes(v: usize)
    ensures
        le_bytes(swap_usize(v) as nat, usize_bytes()) =~= be_bytes(v as nat, usize_bytes()),
        le_bytes(v as nat, usize_bytes()) =~= be_bytes(swap_usize(v) as nat, usize_bytes()),
{
    if usize::BITS == 64 {
        lemma_swap64_bytes(v as u64);
    } else {
        lemma_swap32_bytes(v as u32);
    }
}

/// Whatever the hardware, the stored two's-complement bits of `BigEndian<isize>` lie in memory
/// most significant byte first and those of `LittleEndian<isize>` least significant byte first.
pub proof fn law_isize_storage_order(v: isize)
    ensures
        ne_bytes(v.spec_to_big_endian().spec_radix_value(), usize_bytes()) == be_bytes(
            v.spec_radix_value(),
            usize_bytes(),
        ),
        ne_bytes(v.spec_to_little_endian().spec_radix_value(), usize_bytes()) == le_bytes(
            v.spec_radix_value(),
            usize_bytes(),
        ),
{
    let x = v as usize;
    let y = swap_usize(x);
    assert((y as isize) as usize == y) by (bit_vector);
    lemma_usize_swap_bytes(x);
}

} // verus!

verus! {

/// The host-order values stored in a sequence of big-endian values.
pub open spec fn big_natives<T: SpecificEndian<T>>(v: Seq<BigEndian<T>>) -> Seq<T> {
    v.map_values(|x: BigEndian<T>| x.spec_native())
}

/// The host-order values stored in a sequence of little-endian values.
pub open spec fn little_natives<T: SpecificEndian<T>>(v: Seq<LittleEndian<T>>) -> Seq<T> {
    v.map_values(|x: LittleEndian<T>| x.spec_native())
}

/// Host-order values, each stored in big-endian form.
pub open spec fn big_stored<T: SpecificEndian<T>>(u: Seq<T>) -> Seq<BigEndian<T>> {
    u.map_values(|x: T| BigEndian(x.spec_to_big_endian()))
}

/// Host-order values, each stored in little-endian form.
pub open spec fn little_stored<T: SpecificEndian<T>>(u: Seq<T>) -> Seq<LittleEndian<T>> {
    u.map_values(|x: T| LittleEndian(x.spec_to_little_endian()))
}

/// Raw bits, each taken as a big-endian stored form without conversion.
pub open spec fn big_bits<T: SpecificEndian<T>>(u: Seq<T>) -> Seq<BigEndian<T>> {
    u.map_values(|x: T| BigEndian(x))
}

/// Raw bits, each taken as a little-endian stored form without conversion.
pub open spec fn little_bits<T: SpecificEndian<T>>(u: Seq<T>) -> Seq<LittleEndian<T>> {
    u.map_values(|x: T| LittleEndian(x))
}

/// Host-order values that each survive a trip through both stored forms read back unchanged
/// from a stored sequence.
pub proof fn lemma_natives_of_stored<T: SpecificEndian<T>>(u: Seq<T>)
    requires
        forall|i: int| 0 <= i < u.len() ==> round_trips(#[trigger] u[i]),
    ensures
        big_natives(big_stored(u)) == u,
        little_natives(little_stored(u)) == u,
{
    assert(big_natives(big_stored(u)) =~= u);
    assert(little_natives(little_stored(u)) =~= u);
}

/// The host-order values of a slice of big-endian values.
pub(crate) fn natives_of_big<T: SpecificEndian<T>>(v: &[BigEndian<T>]) -> (r: Vec<T>)
    ensures
        r@ == big_natives(v@),
{
    let mut out: Vec<T> = Vec::new();
    let mut i: usize = 0;
    while i < v.len()
        invariant
            i <= v.len(),
            out@ =~= big_natives(v@.take(i as int)),
        decreases v.len() - i,
    {
        out.push(v[i].to_native());
        i = i + 1;
        assert(out@ =~= big_natives(v@.take(i as int)));
    }
    assert(v@.take(v.len() as int) =~= v@);
    out
}

/// The host-order values of a slice of little-endian values.
pub(crate) fn natives_of_little<T: SpecificEndian<T>>(v: &[LittleEndian<T>]) -> (r: Vec<T>)
    ensures
        r@ == little_natives(v@),
{
    let mut out: Vec<T> = Vec::new();
    let mut i: usize = 0;
    while i < v.len()
        invariant
            i <= v.len(),
            out@ =~= little_natives(v@.take(i as int)),
        decreases v.len() - i,
    {
        out.push(v[i].to_native());
        i = i + 1;
        assert(out@ =~= little_natives(v@.take(i as int)));
    }
    assert(v@.take(v.len() as int) =~= v@);
    out
}

/// Stores each host-order value of `u` in big-endian form.
pub(crate) fn store_big<T: SpecificEndian<T>>(u: &[T]) -> (r: Vec<BigEndian<T>>)
    ensures
        r@ == big_stored(u@),
{
    let mut out: Vec<BigEndian<T>> = Vec::new();
    let mut i: usize = 0;
    while i < u.len()
        invariant
            i <= u.len(),
            out@ =~= big_stored(u@.take(i as int)),
        decreases u.len() - i,
    {
        out.push(BigEndian::from(u[i]));
        i = i + 1;
        assert(out@ =~= big_stored(u@.take(i as int)));
    }
    assert(u@.take(u.len() as int) =~= u@);
    out
}

/// Stores each host-order value of `u` in little-endian form.
pub(crate) fn store_little<T: SpecificEndian<T>>(u: &[T]) -> (r: Vec<LittleEndian<T>>)
    ensures
        r@ == little_stored(u@),
{
    let mut out: Vec<LittleEndian<T>> = Vec::new();
    let mut i: usize = 0;
    while i < u.len()
        invariant
            i <= u.len(),
            out@ =~= little_stored(u@.take(i as int)),
        decreases u.len() - i,
    {
        out.push(LittleEndian::from(u[i]));
        i = i + 1;
        assert(out@ =~= little_stored(u@.take(i as int)));
    }
    assert(u@.take(u.len() as int) =~= u@);
    out
}

/// Takes each value of `u` as raw big-endian stored bits, without conversion.
pub(crate) fn wrap_big_bits<T: SpecificEndian<T>>(u: &[T]) -> (r: Vec<BigEndian<T>>)
    ensures
        r@ == big_bits(u@),
{
    let mut out: Vec<BigEndian<T>> = Vec::new();
    let mut i: usize = 0;
    while i < u.len()
        invariant
            i <= u.len(),
            out@ =~= big_bits(u@.take(i as int)),
        decreases u.len() - i,
    {
        out.push(BigEndian::from_bits(u[i]));
        i = i + 1;
        assert(out@ =~= big_bits(u@.take(i as int)));
    }
    assert(u@.take(u.len() as int) =~= u@);
    out
}

/// Takes each value of `u` as raw little-endian stored bits, without conversion.
pub(crate) fn wrap_little_bits<T: SpecificEndian<T>>(u: &[T]) -> (r: Vec<LittleEndian<T>>)
    ensures
        r@ == little_bits(u@),
{
    let mut out: Vec<LittleEndian<T>> = Vec::new();
    let mut i: usize = 0;
    while i < u.len()
        invariant
            i <= u.len(),
            out@ =~= little_bits(u@.take(i as int)),
        decreases u.len() - i,
    {
        out.push(LittleEndian::from_bits(u[i]));
        i = i + 1;
        assert(out@ =~= little_bits(u@.take(i as int)));
    }
    assert(u@.take(u.len() as int) =~= u@);
    out
}

} // verus!
