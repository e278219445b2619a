//! Bitwise operations on endian-tagged values. They act on the stored bits directly, which
//! is the same as acting on the host-order values, since a byte swap moves whole bytes.
use vstd::prelude::*;

use core::ops::{BitAnd, BitAndAssign, BitOr, BitOrAssign, BitXor, BitXorAssign, Not};

use crate::byte_order::{swap16, swap32, swap64, swap128, swap_usize};
use crate::specific_endian::{BigEndian, LittleEndian, SpecificEndian};
use vstd::std_specs::ops::{BitAndSpec, BitOrSpec, BitXorSpec, NotSpec};

verus! {

impl BitAnd for BigEndian<bool> {
    type Output = BigEndian<bool>;

    fn bitand(self, rhs: BigEndian<bool>) -> (r: BigEndian<bool>) {
        BigEndian(self.0 && rhs.0)
    }
}

impl vstd::std_specs::ops::BitAndSpecImpl for BigEndian<bool> {
    open spec fn obeys_bitand_spec() -> bool {
        true
    }

    open spec fn bitand_req(self, rhs: BigEndian<bool>) -> bool {
        true
    }

    open spec fn bitand_spec(self, rhs: BigEndian<bool>) -> BigEndian<bool> {
        BigEndian(self.0 && rhs.0)
    }
}

impl BitAndAssign for BigEndian<bool> {
    fn bitand_assign(&mut self, rhs: BigEndian<bool>)
        ensures
            *final(self) == BigEndian(old(self).0 && rhs.0),
    {
        *self = *self & rhs;
    }
}

impl BitXor for BigEndian<bool> {
    type Output = BigEndian<bool>;

    fn bitxor(self, rhs: BigEndian<bool>) -> (r: BigEndian<bool>) {
        BigEndian(self.0 ^ rhs.0)
    }
}

impl vstd::std_specs::ops::BitXorSpecImpl for BigEndian<bool> {
    open spec fn obeys_bitxor_spec() -> bool {
        true
    }

    open spec fn bitxor_req(self, rhs: BigEndian<bool>) -> bool {
        true
    }

    open spec fn bitxor_spec(self, rhs: BigEndian<bool>) -> BigEndian<bool> {
        BigEndian(self.0 ^ rhs.0)
    }
}

impl BitXorAssign for BigEndian<bool> {
    fn bitxor_assign(&mut self, rhs: BigEndian<bool>)
        ensures
            *final(self) == BigEndian(old(self).0 ^ rhs.0),
    {
        *self = *self ^ rhs;
    }
}

impl BitOr for BigEndian<bool> {
    type Output = BigEndian<bool>;

    fn bitor(self, rhs: BigEndian<bool>) -> (r: BigEndian<bool>) {
        BigEndian(self.0 || rhs.0)
    }
}

impl vstd::std_specs::ops::BitOrSpecImpl for BigEndian<bool> {
    open spec fn obeys_bitor_spec() -> bool {
        true
    }

    open spec fn bitor_req(self, rhs: BigEndian<bool>) -> bool {
        true
    }

    open spec fn bitor_spec(self, rhs: BigEndian<bool>) -> BigEndian<bool> {
        BigEndian(self.0 || rhs.0)
    }
}

impl BitOrAssign for BigEndian<bool> {
    fn bitor_assign(&mut self, rhs: BigEndian<bool>)
        ensures
            *final(self) == BigEndian(old(self).0 || rhs.0),
    {
        *self = *self | rhs;
    }
}

impl Not for BigEndian<bool> {
    type Output = BigEndian<bool>;

    fn not(self) -> (r: BigEndian<bool>) {
        BigEndian(!self.0)
    }
}

impl vstd::std_specs::ops::NotSpecImpl for BigEndian<bool> {
    open spec fn obeys_not_spec() -> bool {
        true
    }

    open spec fn not_req(self) -> bool {
        true
    }

    open spec fn not_spec(self) -> BigEndian<bool> {
        BigEndian(!self.0)
    }
}

impl BitAnd for BigEndian<u8> {
    type Output = BigEndian<u8>;

    fn bitand(self, rhs: BigEndian<u8>) -> (r: BigEndian<u8>) {
        BigEndian(self.0 & rhs.0)
    }
}

impl vstd::std_specs::ops::BitAndSpecImpl for BigEndian<u8> {
    open spec fn obeys_bitand_spec() -> bool {
        true
    }

    open spec fn bitand_req(self, rhs: BigEndian<u8>) -> bool {
        true
    }

    open spec fn bitand_spec(self, rhs: BigEndian<u8>) -> BigEndian<u8> {
        BigEndian(self.0 & rhs.0)
    }
}

impl BitAndAssign for BigEndian<u8> {
    fn bitand_assign(&mut self, rhs: BigEndian<u8>)
        ensures
            *final(self) == BigEndian(old(self).0 & rhs.0),
    {
        *self = *self & rhs;
    }
}

impl BitXor for BigEndian<u8> {
    type Output = BigEndian<u8>;

    fn bitxor(self, rhs: BigEndian<u8>) -> (r: BigEndian<u8>) {
        BigEndian(self.0 ^ rhs.0)
    }
}

impl vstd::std_specs::ops::BitXorSpecImpl for BigEndian<u8> {
    open spec fn obeys_bitxor_spec() -> bool {
        true
    }

    open spec fn bitxor_req(self, rhs: BigEndian<u8>) -> bool {
        true
    }

    open spec fn bitxor_spec(self, rhs: BigEndian<u8>) -> BigEndian<u8> {
        BigEndian(self.0 ^ rhs.0)
    }
}

impl BitXorAssign for BigEndian<u8> {
    fn bitxor_assign(&mut self, rhs: BigEndian<u8>)
        ensures
            *final(self) == BigEndian(old(self).0 ^ rhs.0),
    {
        *self = *self ^ rhs;
    }
}

impl BitOr for BigEndian<u8> {
    type Output = BigEndian<u8>;

    fn bitor(self, rhs: BigEndian<u8>) -> (r: BigEndian<u8>) {
        BigEndian(self.0 | rhs.0)
    }
}

impl vstd::std_specs::ops::BitOrSpecImpl for BigEndian<u8> {
    open spec fn obeys_bitor_spec() -> bool {
        true
    }

    open spec fn bitor_req(self, rhs: BigEndian<u8>) -> bool {
        true
    }

    open spec fn bitor_spec(self, rhs: BigEndian<u8>) -> BigEndian<u8> {
        BigEndian(self.0 | rhs.0)
    }
}

impl BitOrAssign for BigEndian<u8> {
    fn bitor_assign(&mut self, rhs: BigEndian<u8>)
        ensures
            *final(self) == BigEndian(old(self).0 | rhs.0),
    {
        *self = *self | rhs;
    }
}

impl Not for BigEndian<u8> {
    type Output = BigEndian<u8>;

    fn not(self) -> (r: BigEndian<u8>) {
        BigEndian(!self.0)
    }
}

impl vstd::std_specs::ops::NotSpecImpl for BigEndian<u8> {
    open spec fn obeys_not_spec() -> bool {
        true
    }

    open spec fn not_req(self) -> bool {
        true
    }

    open spec fn not_spec(self) -> BigEndian<u8> {
        BigEndian(!self.0)
    }
}

impl BitAnd for BigEndian<i8> {
    type Output = BigEndian<i8>;

    fn bitand(self, rhs: BigEndian<i8>) -> (r: BigEndian<i8>) {
        BigEndian(self.0 & rhs.0)
    }
}

impl vstd::std_specs::ops::BitAndSpecImpl for BigEndian<i8> {
    open spec fn obeys_bitand_spec() -> bool {
        true
    }

    open spec fn bitand_req(self, rhs: BigEndian<i8>) -> bool {
        true
    }

    open spec fn bitand_spec(self, rhs: BigEndian<i8>) -> BigEndian<i8> {
        BigEndian(self.0 & rhs.0)
    }
}

impl BitAndAssign for BigEndian<i8> {
    fn bitand_assign(&mut self, rhs: BigEndian<i8>)
        ensures
            *final(self) == BigEndian(old(self).0 & rhs.0),
    {
        *self = *self & rhs;
    }
}

impl BitXor for BigEndian<i8> {
    type Output = BigEndian<i8>;

    fn bitxor(self, rhs: BigEndian<i8>) -> (r: BigEndian<i8>) {
        BigEndian(self.0 ^ rhs.0)
    }
}

impl vstd::std_specs::ops::BitXorSpecImpl for BigEndian<i8> {
    open spec fn obeys_bitxor_spec() -> bool {
        true
    }

    open spec fn bitxor_req(self, rhs: BigEndian<i8>) -> bool {
        true
    }

    open spec fn bitxor_spec(self, rhs: BigEndian<i8>) -> BigEndian<i8> {
        BigEndian(self.0 ^ rhs.0)
    }
}

impl BitXorAssign for BigEndian<i8> {
    fn bitxor_assign(&mut self, rhs: BigEndian<i8>)
        ensures
            *final(self) == BigEndian(old(self).0 ^ rhs.0),
    {
        *self = *self ^ rhs;
    }
}

impl BitOr for BigEndian<i8> {
    type Output = BigEndian<i8>;

    fn bitor(self, rhs: BigEndian<i8>) -> (r: BigEndian<i8>) {
        BigEndian(self.0 | rhs.0)
    }
}

impl vstd::std_specs::ops::BitOrSpecImpl for BigEndian<i8> {
    open spec fn obeys_bitor_spec() -> bool {
        true
    }

    open spec fn bitor_req(self, rhs: BigEndian<i8>) -> bool {
        true
    }

    open spec fn bitor_spec(self, rhs: BigEndian<i8>) -> BigEndian<i8> {
        BigEndian(self.0 | rhs.0)
    }
}

impl BitOrAssign for BigEndian<i8> {
    fn bitor_assign(&mut self, rhs: BigEndian<i8>)
        ensures
            *final(self) == BigEndian(old(self).0 | rhs.0),
    {
        *self = *self | rhs;
    }
}

impl Not for BigEndian<i8> {
    type Output = BigEndian<i8>;

    fn not(self) -> (r: BigEndian<i8>) {
        BigEndian(!self.0)
    }
}

impl vstd::std_specs::ops::NotSpecImpl for BigEndian<i8> {
    open spec fn obeys_not_spec() -> bool {
        true
    }

    open spec fn not_req(self) -> bool {
        true
    }

    open spec fn not_spec(self) -> BigEndian<i8> {
        BigEndian(!self.0)
    }
}

impl BitAnd for BigEndian<u16> {
    type Output = BigEndian<u16>;

    fn bitand(self, rhs: BigEndian<u16>) -> (r: BigEndian<u16>) {
        BigEndian(self.0 & rhs.0)
    }
}

impl vstd::std_specs::ops::BitAndSpecImpl for BigEndian<u16> {
    open spec fn obeys_bitand_spec() -> bool {
        true
    }

    open spec fn bitand_req(self, rhs: BigEndian<u16>) -> bool {
        true
    }

    open spec fn bitand_spec(self, rhs: BigEndian<u16>) -> BigEndian<u16> {
        BigEndian(self.0 & rhs.0)
    }
}

impl BitAndAssign for BigEndian<u16> {
    fn bitand_assign(&mut self, rhs: BigEndian<u16>)
        ensures
            *final(self) == BigEndian(old(self).0 & rhs.0),
    {
        *self = *self & rhs;
    }
}

impl BitXor for BigEndian<u16> {
    type Output = BigEndian<u16>;

    fn bitxor(self, rhs: BigEndian<u16>) -> (r: BigEndian<u16>) {
        BigEndian(self.0 ^ rhs.0)
    }
}

impl vstd::std_specs::ops::BitXorSpecImpl for BigEndian<u16> {
    open spec fn obeys_bitxor_spec() -> bool {
        true
    }

    open spec fn bitxor_req(self, rhs: BigEndian<u16>) -> bool {
        true
    }

    open spec fn bitxor_spec(self, rhs: BigEndian<u16>) -> BigEndian<u16> {
        BigEndian(self.0 ^ rhs.0)
    }
}

impl BitXorAssign for BigEndian<u16> {
    fn bitxor_assign(&mut self, rhs: BigEndian<u16>)
        ensures
            *final(self) == BigEndian(old(self).0 ^ rhs.0),
    {
        *self = *self ^ rhs;
    }
}

impl BitOr for BigEndian<u16> {
    type Output = BigEndian<u16>;

    fn bitor(self, rhs: BigEndian<u16>) -> (r: BigEndian<u16>) {
        BigEndian(self.0 | rhs.0)
    }
}

impl vstd::std_specs::ops::BitOrSpecImpl for BigEndian<u16> {
    open spec fn obeys_bitor_spec() -> bool {
        true
    }

    open spec fn bitor_req(self, rhs: BigEndian<u16>) -> bool {
        true
    }

    open spec fn bitor_spec(self, rhs: BigEndian<u16>) -> BigEndian<u16> {
        BigEndian(self.0 | rhs.0)
    }
}

impl BitOrAssign for BigEndian<u16> {
    fn bitor_assign(&mut self, rhs: BigEndian<u16>)
        ensures
            *final(self) == BigEndian(old(self).0 | rhs.0),
    {
        *self = *self | rhs;
    }
}

impl Not for BigEndian<u16> {
    type Output = BigEndian<u16>;

    fn not(self) -> (r: BigEndian<u16>) {
        BigEndian(!self.0)
    }
}

impl vstd::std_specs::ops::NotSpecImpl for BigEndian<u16> {
    open spec fn obeys_not_spec() -> bool {
        true
    }

    open spec fn not_req(self) -> bool {
        true
    }

    open spec fn not_spec(self) -> BigEndian<u16> {
        BigEndian(!self.0)
    }
}

impl BitAnd for BigEndian<i16> {
    type Output = BigEndian<i16>;

    fn bitand(self, rhs: BigEndian<i16>) -> (r: BigEndian<i16>) {
        BigEndian(self.0 & rhs.0)
    }
}

impl vstd::std_specs::ops::BitAndSpecImpl for BigEndian<i16> {
    open spec fn obeys_bitand_spec() -> bool {
        true
    }

    open spec fn bitand_req(self, rhs: BigEndian<i16>) -> bool {
        true
    }

    open spec fn bitand_spec(self, rhs: BigEndian<i16>) -> BigEndian<i16> {
        BigEndian(self.0 & rhs.0)
    }
}

impl BitAndAssign for BigEndian<i16> {
    fn bitand_assign(&mut self, rhs: BigEndian<i16>)
        ensures
            *final(self) == BigEndian(old(self).0 & rhs.0),
    {
        *self = *self & rhs;
    }
}

impl BitXor for BigEndian<i16> {
    type Output = BigEndian<i16>;

    fn bitxor(self, rhs: BigEndian<i16>) -> (r: BigEndian<i16>) {
        BigEndian(self.0 ^ rhs.0)
    }
}

impl vstd::std_specs::ops::BitXorSpecImpl for BigEndian<i16> {
    open spec fn obeys_bitxor_spec() -> bool {
        true
    }

    open spec fn bitxor_req(self, rhs: BigEndian<i16>) -> bool {
        true
    }

    open spec fn bitxor_spec(self, rhs: BigEndian<i16>) -> BigEndian<i16> {
        BigEndian(self.0 ^ rhs.0)
    }
}

impl BitXorAssign for BigEndian<i16> {
    fn bitxor_assign(&mut self, rhs: BigEndian<i16>)
        ensures
            *final(self) == BigEndian(old(self).0 ^ rhs.0),
    {
        *self = *self ^ rhs;
    }
}

impl BitOr for BigEndian<i16> {
    type Output = BigEndian<i16>;

    fn bitor(self, rhs: BigEndian<i16>) -> (r: BigEndian<i16>) {
        BigEndian(self.0 | rhs.0)
    }
}

impl vstd::std_specs::ops::BitOrSpecImpl for BigEndian<i16> {
    open spec fn obeys_bitor_spec() -> bool {
        true
    }

    open spec fn bitor_req(self, rhs: BigEndian<i16>) -> bool {
        true
    }

    open spec fn bitor_spec(self, rhs: BigEndian<i16>) -> BigEndian<i16> {
        BigEndian(self.0 | rhs.0)
    }
}

impl BitOrAssign for BigEndian<i16> {
    fn bitor_assign(&mut self, rhs: BigEndian<i16>)
        ensures
            *final(self) == BigEndian(old(self).0 | rhs.0),
    {
        *self = *self | rhs;
    }
}

impl Not for BigEndian<i16> {
    type Output = BigEndian<i16>;

    fn not(self) -> (r: BigEndian<i16>) {
        BigEndian(!self.0)
    }
}

impl vstd::std_specs::ops::NotSpecImpl for BigEndian<i16> {
    open spec fn obeys_not_spec() -> bool {
        true
    }

    open spec fn not_req(self) -> bool {
        true
    }

    open spec fn not_spec(self) -> BigEndian<i16> {
        BigEndian(!self.0)
    }
}

impl BitAnd for BigEndian<u32> {
    type Output = BigEndian<u32>;

    fn bitand(self, rhs: BigEndian<u32>) -> (r: BigEndian<u32>) {
        BigEndian(self.0 & rhs.0)
    }
}

impl vstd::std_specs::ops::BitAndSpecImpl for BigEndian<u32> {
    open spec fn obeys_bitand_spec() -> bool {
        true
    }

    open spec fn bitand_req(self, rhs: BigEndian<u32>) -> bool {
        true
    }

    open spec fn bitand_spec(self, rhs: BigEndian<u32>) -> BigEndian<u32> {
        BigEndian(self.0 & rhs.0)
    }
}

impl BitAndAssign for BigEndian<u32> {
    fn bitand_assign(&mut self, rhs: BigEndian<u32>)
        ensures
            *final(self) == BigEndian(old(self).0 & rhs.0),
    {
        *self = *self & rhs;
    }
}

impl BitXor for BigEndian<u32> {
    type Output = BigEndian<u32>;

    fn bitxor(self, rhs: BigEndian<u32>) -> (r: BigEndian<u32>) {
        BigEndian(self.0 ^ rhs.0)
    }
}

impl vstd::std_specs::ops::BitXorSpecImpl for BigEndian<u32> {
    open spec fn obeys_bitxor_spec() -> bool {
        true
    }

    open spec fn bitxor_req(self, rhs: BigEndian<u32>) -> bool {
        true
    }

    open spec fn bitxor_spec(self, rhs: BigEndian<u32>) -> BigEndian<u32> {
        BigEndian(self.0 ^ rhs.0)
    }
}

impl BitXorAssign for BigEndian<u32> {
    fn bitxor_assign(&mut self, rhs: BigEndian<u32>)
        ensures
            *final(self) == BigEndian(old(self).0 ^ rhs.0),
    {
        *self = *self ^ rhs;
    }
}

impl BitOr for BigEndian<u32> {
    type Output = BigEndian<u32>;

    fn bitor(self, rhs: BigEndian<u32>) -> (r: BigEndian<u32>) {
        BigEndian(self.0 | rhs.0)
    }
}

impl vstd::std_specs::ops::BitOrSpecImpl for BigEndian<u32> {
    open spec fn obeys_bitor_spec() -> bool {
        true
    }

    open spec fn bitor_req(self, rhs: BigEndian<u32>) -> bool {
        true
    }

    open spec fn bitor_spec(self, rhs: BigEndian<u32>) -> BigEndian<u32> {
        BigEndian(self.0 | rhs.0)
    }
}

impl BitOrAssign for BigEndian<u32> {
    fn bitor_assign(&mut self, rhs: BigEndian<u32>)
        ensures
            *final(self) == BigEndian(old(self).0 | rhs.0),
    {
        *self = *self | rhs;
    }
}

impl Not for BigEndian<u32> {
    type Output = BigEndian<u32>;

    fn not(self) -> (r: BigEndian<u32>) {
        BigEndian(!self.0)
    }
}

impl vstd::std_specs::ops::NotSpecImpl for BigEndian<u32> {
    open spec fn obeys_not_spec() -> bool {
        true
    }

    open spec fn not_req(self) -> bool {
        true
    }

    open spec fn not_spec(self) -> BigEndian<u32> {
        BigEndian(!self.0)
    }
}

impl BitAnd for BigEndian<i32> {
    type Output = BigEndian<i32>;

    fn bitand(self, rhs: BigEndian<i32>) -> (r: BigEndian<i32>) {
        BigEndian(self.0 & rhs.0)
    }
}

impl vstd::std_specs::ops::BitAndSpecImpl for BigEndian<i32> {
    open spec fn obeys_bitand_spec() -> bool {
        true
    }

    open spec fn bitand_req(self, rhs: BigEndian<i32>) -> bool {
        true
    }

    open spec fn bitand_spec(self, rhs: BigEndian<i32>) -> BigEndian<i32> {
        BigEndian(self.0 & rhs.0)
    }
}

impl BitAndAssign for BigEndian<i32> {
    fn bitand_assign(&mut self, rhs: BigEndian<i32>)
        ensures
            *final(self) == BigEndian(old(self).0 & rhs.0),
    {
        *self = *self & rhs;
    }
}

impl BitXor for BigEndian<i32> {
    type Output = BigEndian<i32>;

    fn bitxor(self, rhs: BigEndian<i32>) -> (r: BigEndian<i32>) {
        BigEndian(self.0 ^ rhs.0)
    }
}

impl vstd::std_specs::ops::BitXorSpecImpl for BigEndian<i32> {
    open spec fn obeys_bitxor_spec() -> bool {
        true
    }

    open spec fn bitxor_req(self, rhs: BigEndian<i32>) -> bool {
        true
    }

    open spec fn bitxor_spec(self, rhs: BigEndian<i32>) -> BigEndian<i32> {
        BigEndian(self.0 ^ rhs.0)
    }
}

impl BitXorAssign for BigEndian<i32> {
    fn bitxor_assign(&mut self, rhs: BigEndian<i32>)
        ensures
            *final(self) == BigEndian(old(self).0 ^ rhs.0),
    {
        *self = *self ^ rhs;
    }
}

impl BitOr for BigEndian<i32> {
    type Output = BigEndian<i32>;

    fn bitor(self, rhs: BigEndian<i32>) -> (r: BigEndian<i32>) {
        BigEndian(self.0 | rhs.0)
    }
}

impl vstd::std_specs::ops::BitOrSpecImpl for BigEndian<i32> {
    open spec fn obeys_bitor_spec() -> bool {
        true
    }

    open spec fn bitor_req(self, rhs: BigEndian<i32>) -> bool {
        true
    }

    open spec fn bitor_spec(self, rhs: BigEndian<i32>) -> BigEndian<i32> {
        BigEndian(self.0 | rhs.0)
    }
}

impl BitOrAssign for BigEndian<i32> {
    fn bitor_assign(&mut self, rhs: BigEndian<i32>)
        ensures
            *final(self) == BigEndian(old(self).0 | rhs.0),
    {
        *self = *self | rhs;
    }
}

impl Not for BigEndian<i32> {
    type Output = BigEndian<i32>;

    fn not(self) -> (r: BigEndian<i32>) {
        BigEndian(!self.0)
    }
}

impl vstd::std_specs::ops::NotSpecImpl for BigEndian<i32> {
    open spec fn obeys_not_spec() -> bool {
        true
    }

    open spec fn not_req(self) -> bool {
        true
    }

    open spec fn not_spec(self) -> BigEndian<i32> {
        BigEndian(!self.0)
    }
}

impl BitAnd for BigEndian<u64> {
    type Output = BigEndian<u64>;

    fn bitand(self, rhs: BigEndian<u64>) -> (r: BigEndian<u64>) {
        BigEndian(self.0 & rhs.0)
    }
}

impl vstd::std_specs::ops::BitAndSpecImpl for BigEndian<u64> {
    open spec fn obeys_bitand_spec() -> bool {
        true
    }

    open spec fn bitand_req(self, rhs: BigEndian<u64>) -> bool {
        true
    }

    open spec fn bitand_spec(self, rhs: BigEndian<u64>) -> BigEndian<u64> {
        BigEndian(self.0 & rhs.0)
    }
}

impl BitAndAssign for BigEndian<u64> {
    fn bitand_assign(&mut self, rhs: BigEndian<u64>)
        ensures
            *final(self) == BigEndian(old(self).0 & rhs.0),
    {
        *self = *self & rhs;
    }
}

impl BitXor for BigEndian<u64> {
    type Output = BigEndian<u64>;

    fn bitxor(self, rhs: BigEndian<u64>) -> (r: BigEndian<u64>) {
        BigEndian(self.0 ^ rhs.0)
    }
}

impl vstd::std_specs::ops::BitXorSpecImpl for BigEndian<u64> {
    open spec fn obeys_bitxor_spec() -> bool {
        true
    }

    open spec fn bitxor_req(self, rhs: BigEndian<u64>) -> bool {
        true
    }

    open spec fn bitxor_spec(self, rhs: BigEndian<u64>) -> BigEndian<u64> {
        BigEndian(self.0 ^ rhs.0)
    }
}

impl BitXorAssign for BigEndian<u64> {
    fn bitxor_assign(&mut self, rhs: BigEndian<u64>)
        ensures
            *final(self) == BigEndian(old(self).0 ^ rhs.0),
    {
        *self = *self ^ rhs;
    }
}

impl BitOr for BigEndian<u64> {
    type Output = BigEndian<u64>;

    fn bitor(self, rhs: BigEndian<u64>) -> (r: BigEndian<u64>) {
        BigEndian(self.0 | rhs.0)
    }
}

impl vstd::std_specs::ops::BitOrSpecImpl for BigEndian<u64> {
    open spec fn obeys_bitor_spec() -> bool {
        true
    }

    open spec fn bitor_req(self, rhs: BigEndian<u64>) -> bool {
        true
    }

    open spec fn bitor_spec(self, rhs: BigEndian<u64>) -> BigEndian<u64> {
        BigEndian(self.0 | rhs.0)
    }
}

impl BitOrAssign for BigEndian<u64> {
    fn bitor_assign(&mut self, rhs: BigEndian<u64>)
        ensures
            *final(self) == BigEndian(old(self).0 | rhs.0),
    {
        *self = *self | rhs;
    }
}

impl Not for BigEndian<u64> {
    type Output = BigEndian<u64>;

    fn not(self) -> (r: BigEndian<u64>) {
        BigEndian(!self.0)
    }
}

impl vstd::std_specs::ops::NotSpecImpl for BigEndian<u64> {
    open spec fn obeys_not_spec() -> bool {
        true
    }

    open spec fn not_req(self) -> bool {
        true
    }

    open spec fn not_spec(self) -> BigEndian<u64> {
        BigEndian(!self.0)
    }
}

impl BitAnd for BigEndian<i64> {
    type Output = BigEndian<i64>;

    fn bitand(self, rhs: BigEndian<i64>) -> (r: BigEndian<i64>) {
        BigEndian(self.0 & rhs.0)
    }
}

impl vstd::std_specs::ops::BitAndSpecImpl for BigEndian<i64> {
    open spec fn obeys_bitand_spec() -> bool {
        true
    }

    open spec fn bitand_req(self, rhs: BigEndian<i64>) -> bool {
        true
    }

    open spec fn bitand_spec(self, rhs: BigEndian<i64>) -> BigEndian<i64> {
        BigEndian(self.0 & rhs.0)
    }
}

impl BitAndAssign for BigEndian<i64> {
    fn bitand_assign(&mut self, rhs: BigEndian<i64>)
        ensures
            *final(self) == BigEndian(old(self).0 & rhs.0),
    {
        *self = *self & rhs;
    }
}

impl BitXor for BigEndian<i64> {
    type Output = BigEndian<i64>;

    fn bitxor(self, rhs: BigEndian<i64>) -> (r: BigEndian<i64>) {
        BigEndian(self.0 ^ rhs.0)
    }
}

impl vstd::std_specs::ops::BitXorSpecImpl for BigEndian<i64> {
    open spec fn obeys_bitxor_spec() -> bool {
        true
    }

    open spec fn bitxor_req(self, rhs: BigEndian<i64>) -> bool {
        true
    }

    open spec fn bitxor_spec(self, rhs: BigEndian<i64>) -> BigEndian<i64> {
        BigEndian(self.0 ^ rhs.0)
    }
}

impl BitXorAssign for BigEndian<i64> {
    fn bitxor_assign(&mut self, rhs: BigEndian<i64>)
        ensures
            *final(self) == BigEndian(old(self).0 ^ rhs.0),
    {
        *self = *self ^ rhs;
    }
}

impl BitOr for BigEndian<i64> {
    type Output = BigEndian<i64>;

    fn bitor(self, rhs: BigEndian<i64>) -> (r: BigEndian<i64>) {
        BigEndian(self.0 | rhs.0)
    }
}

impl vstd::std_specs::ops::BitOrSpecImpl for BigEndian<i64> {
    open spec fn obeys_bitor_spec() -> bool {
        true
    }

    open spec fn bitor_req(self, rhs: BigEndian<i64>) -> bool {
        true
    }

    open spec fn bitor_spec(self, rhs: BigEndian<i64>) -> BigEndian<i64> {
        BigEndian(self.0 | rhs.0)
    }
}

impl BitOrAssign for BigEndian<i64> {
    fn bitor_assign(&mut self, rhs: BigEndian<i64>)
        ensures
            *final(self) == BigEndian(old(self).0 | rhs.0),
    {
        *self = *self | rhs;
    }
}

impl Not for BigEndian<i64> {
    type Output = BigEndian<i64>;

    fn not(self) -> (r: BigEndian<i64>) {
        BigEndian(!self.0)
    }
}

impl vstd::std_specs::ops::NotSpecImpl for BigEndian<i64> {
    open spec fn obeys_not_spec() -> bool {
        true
    }

    open spec fn not_req(self) -> bool {
        true
    }

    open spec fn not_spec(self) -> BigEndian<i64> {
        BigEndian(!self.0)
    }
}

impl BitAnd for BigEndian<u128> {
    type Output = BigEndian<u128>;

    fn bitand(self, rhs: BigEndian<u128>) -> (r: BigEndian<u128>) {
        BigEndian(self.0 & rhs.0)
    }
}

impl vstd::std_specs::ops::BitAndSpecImpl for BigEndian<u128> {
    open spec fn obeys_bitand_spec() -> bool {
        true
    }

    open spec fn bitand_req(self, rhs: BigEndian<u128>) -> bool {
        true
    }

    open spec fn bitand_spec(self, rhs: BigEndian<u128>) -> BigEndian<u128> {
        BigEndian(self.0 & rhs.0)
    }
}

impl BitAndAssign for BigEndian<u128> {
    fn bitand_assign(&mut self, rhs: BigEndian<u128>)
        ensures
            *final(self) == BigEndian(old(self).0 & rhs.0),
    {
        *self = *self & rhs;
    }
}

impl BitXor for BigEndian<u128> {
    type Output = BigEndian<u128>;

    fn bitxor(self, rhs: BigEndian<u128>) -> (r: BigEndian<u128>) {
        BigEndian(self.0 ^ rhs.0)
    }
}

impl vstd::std_specs::ops::BitXorSpecImpl for BigEndian<u128> {
    open spec fn obeys_bitxor_spec() -> bool {
        true
    }

    open spec fn bitxor_req(self, rhs: BigEndian<u128>) -> bool {
        true
    }

    open spec fn bitxor_spec(self, rhs: BigEndian<u128>) -> BigEndian<u128> {
        BigEndian(self.0 ^ rhs.0)
    }
}

impl BitXorAssign for BigEndian<u128> {
    fn bitxor_assign(&mut self, rhs: BigEndian<u128>)
        ensures
            *final(self) == BigEndian(old(self).0 ^ rhs.0),
    {
        *self = *self ^ rhs;
    }
}

impl BitOr for BigEndian<u128> {
    type Output = BigEndian<u128>;

    fn bitor(self, rhs: BigEndian<u128>) -> (r: BigEndian<u128>) {
        BigEndian(self.0 | rhs.0)
    }
}

impl vstd::std_specs::ops::BitOrSpecImpl for BigEndian<u128> {
    open spec fn obeys_bitor_spec() -> bool {
        true
    }

    open spec fn bitor_req(self, rhs: BigEndian<u128>) -> bool {
        true
    }

    open spec fn bitor_spec(self, rhs: BigEndian<u128>) -> BigEndian<u128> {
        BigEndian(self.0 | rhs.0)
    }
}

impl BitOrAssign for BigEndian<u128> {
    fn bitor_assign(&mut self, rhs: BigEndian<u128>)
        ensures
            *final(self) == BigEndian(old(self).0 | rhs.0),
    {
        *self = *self | rhs;
    }
}

impl Not for BigEndian<u128> {
    type Output = BigEndian<u128>;

    fn not(self) -> (r: BigEndian<u128>) {
        BigEndian(!self.0)
    }
}

impl vstd::std_specs::ops::NotSpecImpl for BigEndian<u128> {
    open spec fn obeys_not_spec() -> bool {
        true
    }

    open spec fn not_req(self) -> bool {
        true
    }

    open spec fn not_spec(self) -> BigEndian<u128> {
        BigEndian(!self.0)
    }
}

impl BitAnd for BigEndian<i128> {
    type Output = BigEndian<i128>;

    fn bitand(self, rhs: BigEndian<i128>) -> (r: BigEndian<i128>) {
        BigEndian(self.0 & rhs.0)
    }
}

impl vstd::std_specs::ops::BitAndSpecImpl for BigEndian<i128> {
    open spec fn obeys_bitand_spec() -> bool {
        true
    }

    open spec fn bitand_req(self, rhs: BigEndian<i128>) -> bool {
        true
    }

    open spec fn bitand_spec(self, rhs: BigEndian<i128>) -> BigEndian<i128> {
        BigEndian(self.0 & rhs.0)
    }
}

impl BitAndAssign for BigEndian<i128> {
    fn bitand_assign(&mut self, rhs: BigEndian<i128>)
        ensures
            *final(self) == BigEndian(old(self).0 & rhs.0),
    {
        *self = *self & rhs;
    }
}

impl BitXor for BigEndian<i128> {
    type Output = BigEndian<i128>;

    fn bitxor(self, rhs: BigEndian<i128>) -> (r: BigEndian<i128>) {
        BigEndian(self.0 ^ rhs.0)
    }
}

impl vstd::std_specs::ops::BitXorSpecImpl for BigEndian<i128> {
    open spec fn obeys_bitxor_spec() -> bool {
        true
    }

    open spec fn bitxor_req(self, rhs: BigEndian<i128>) -> bool {
        true
    }

    open spec fn bitxor_spec(self, rhs: BigEndian<i128>) -> BigEndian<i128> {
        BigEndian(self.0 ^ rhs.0)
    }
}

impl BitXorAssign for BigEndian<i128> {
    fn bitxor_assign(&mut self, rhs: BigEndian<i128>)
        ensures
            *final(self) == BigEndian(old(self).0 ^ rhs.0),
    {
        *self = *self ^ rhs;
    }
}

impl BitOr for BigEndian<i128> {
    type Output = BigEndian<i128>;

    fn bitor(self, rhs: BigEndian<i128>) -> (r: BigEndian<i128>) {
        BigEndian(self.0 | rhs.0)
    }
}

impl vstd::std_specs::ops::BitOrSpecImpl for BigEndian<i128> {
    open spec fn obeys_bitor_spec() -> bool {
        true
    }

    open spec fn bitor_req(self, rhs: BigEndian<i128>) -> bool {
        true
    }

    open spec fn bitor_spec(self, rhs: BigEndian<i128>) -> BigEndian<i128> {
        BigEndian(self.0 | rhs.0)
    }
}

impl BitOrAssign for BigEndian<i128> {
    fn bitor_assign(&mut self, rhs: BigEndian<i128>)
        ensures
            *final(self) == BigEndian(old(self).0 | rhs.0),
    {
        *self = *self | rhs;
    }
}

impl Not for BigEndian<i128> {
    type Output = BigEndian<i128>;

    fn not(self) -> (r: BigEndian<i128>) {
        BigEndian(!self.0)
    }
}

impl vstd::std_specs::ops::NotSpecImpl for BigEndian<i128> {
    open spec fn obeys_not_spec() -> bool {
        true
    }

    open spec fn not_req(self) -> bool {
        true
    }

    open spec fn not_spec(self) -> BigEndian<i128> {
        BigEndian(!self.0)
    }
}

impl BitAnd for BigEndian<usize> {
    type Output = BigEndian<usize>;

    fn bitand(self, rhs: BigEndian<usize>) -> (r: BigEndian<usize>) {
        BigEndian(self.0 & rhs.0)
    }
}

impl vstd::std_specs::ops::BitAndSpecImpl for BigEndian<usize> {
    open spec fn obeys_bitand_spec() -> bool {
        true
    }

    open spec fn bitand_req(self, rhs: BigEndian<usize>) -> bool {
        true
    }

    open spec fn bitand_spec(self, rhs: BigEndian<usize>) -> BigEndian<usize> {
        BigEndian(self.0 & rhs.0)
    }
}

impl BitAndAssign for BigEndian<usize> {
    fn bitand_assign(&mut self, rhs: BigEndian<usize>)
        ensures
            *final(self) == BigEndian(old(self).0 & rhs.0),
    {
        *self = *self & rhs;
    }
}

impl BitXor for BigEndian<usize> {
    type Output = BigEndian<usize>;

    fn bitxor(self, rhs: BigEndian<usize>) -> (r: BigEndian<usize>) {
        BigEndian(self.0 ^ rhs.0)
    }
}

impl vstd::std_specs::ops::BitXorSpecImpl for BigEndian<usize> {
    open spec fn obeys_bitxor_spec() -> bool {
        true
    }

    open spec fn bitxor_req(self, rhs: BigEndian<usize>) -> bool {
        true
    }

    open spec fn bitxor_spec(self, rhs: BigEndian<usize>) -> BigEndian<usize> {
        BigEndian(self.0 ^ rhs.0)
    }
}

impl BitXorAssign for BigEndian<usize> {
    fn bitxor_assign(&mut self, rhs: BigEndian<usize>)
        ensures
            *final(self) == BigEndian(old(self).0 ^ rhs.0),
    {
        *self = *self ^ rhs;
    }
}

impl BitOr for BigEndian<usize> {
    type Output = BigEndian<usize>;

    fn bitor(self, rhs: BigEndian<usize>) -> (r: BigEndian<usize>) {
        BigEndian(self.0 | rhs.0)
    }
}

impl vstd::std_specs::ops::BitOrSpecImpl for BigEndian<usize> {
    open spec fn obeys_bitor_spec() -> bool {
        true
    }

    open spec fn bitor_req(self, rhs: BigEndian<usize>) -> bool {
        true
    }

    open spec fn bitor_spec(self, rhs: BigEndian<usize>) -> BigEndian<usize> {
        BigEndian(self.0 | rhs.0)
    }
}

impl BitOrAssign for BigEndian<usize> {
    fn bitor_assign(&mut self, rhs: BigEndian<usize>)
        ensures
            *final(self) == BigEndian(old(self).0 | rhs.0),
    {
        *self = *self | rhs;
    }
}

impl Not for BigEndian<usize> {
    type Output = BigEndian<usize>;

    fn not(self) -> (r: BigEndian<usize>) {
        BigEndian(!self.0)
    }
}

impl vstd::std_specs::ops::NotSpecImpl for BigEndian<usize> {
    open spec fn obeys_not_spec() -> bool {
        true
    }

    open spec fn not_req(self) -> bool {
        true
    }

    open spec fn not_spec(self) -> BigEndian<usize> {
        BigEndian(!self.0)
    }
}

impl BitAnd for BigEndian<isize> {
    type Output = BigEndian<isize>;

    fn bitand(self, rhs: BigEndian<isize>) -> (r: BigEndian<isize>) {
        BigEndian(self.0 & rhs.0)
    }
}

impl vstd::std_specs::ops::BitAndSpecImpl for BigEndian<isize> {
    open spec fn obeys_bitand_spec() -> bool {
        true
    }

    open spec fn bitand_req(self, rhs: BigEndian<isize>) -> bool {
        true
    }

    open spec fn bitand_spec(self, rhs: BigEndian<isize>) -> BigEndian<isize> {
        BigEndian(self.0 & rhs.0)
    }
}

impl BitAndAssign for BigEndian<isize> {
    fn bitand_assign(&mut self, rhs: BigEndian<isize>)
        ensures
            *final(self) == BigEndian(old(self).0 & rhs.0),
    {
        *self = *self & rhs;
    }
}

impl BitXor for BigEndian<isize> {
    type Output = BigEndian<isize>;

    fn bitxor(self, rhs: BigEndian<isize>) -> (r: BigEndian<isize>) {
        BigEndian(self.0 ^ rhs.0)
    }
}

impl vstd::std_specs::ops::BitXorSpecImpl for BigEndian<isize> {
    open spec fn obeys_bitxor_spec() -> bool {
        true
    }

    open spec fn bitxor_req(self, rhs: BigEndian<isize>) -> bool {
        true
    }

    open spec fn bitxor_spec(self, rhs: BigEndian<isize>) -> BigEndian<isize> {
        BigEndian(self.0 ^ rhs.0)
    }
}

impl BitXorAssign for BigEndian<isize> {
    fn bitxor_assign(&mut self, rhs: BigEndian<isize>)
        ensures
            *final(self) == BigEndian(old(self).0 ^ rhs.0),
    {
        *self = *self ^ rhs;
    }
}

impl BitOr for BigEndian<isize> {
    type Output = BigEndian<isize>;

    fn bitor(self, rhs: BigEndian<isize>) -> (r: BigEndian<isize>) {
        BigEndian(self.0 | rhs.0)
    }
}

impl vstd::std_specs::ops::BitOrSpecImpl for BigEndian<isize> {
    open spec fn obeys_bitor_spec() -> bool {
        true
    }

    open spec fn bitor_req(self, rhs: BigEndian<isize>) -> bool {
        true
    }

    open spec fn bitor_spec(self, rhs: BigEndian<isize>) -> BigEndian<isize> {
        BigEndian(self.0 | rhs.0)
    }
}

impl BitOrAssign for BigEndian<isize> {
    fn bitor_assign(&mut self, rhs: BigEndian<isize>)
        ensures
            *final(self) == BigEndian(old(self).0 | rhs.0),
    {
        *self = *self | rhs;
    }
}

impl Not for BigEndian<isize> {
    type Output = BigEndian<isize>;

    fn not(self) -> (r: BigEndian<isize>) {
        BigEndian(!self.0)
    }
}

impl vstd::std_specs::ops::NotSpecImpl for BigEndian<isize> {
    open spec fn obeys_not_spec() -> bool {
        true
    }

    open spec fn not_req(self) -> bool {
        true
    }

    open spec fn not_spec(self) -> BigEndian<isize> {
        BigEndian(!self.0)
    }
}

impl BitAnd for LittleEndian<bool> {
    type Output = LittleEndian<bool>;

    fn bitand(self, rhs: LittleEndian<bool>) -> (r: LittleEndian<bool>) {
        LittleEndian(self.0 && rhs.0)
    }
}

impl vstd::std_specs::ops::BitAndSpecImpl for LittleEndian<bool> {
    open spec fn obeys_bitand_spec() -> bool {
        true
    }

    open spec fn bitand_req(self, rhs: LittleEndian<bool>) -> bool {
        true
    }

    open spec fn bitand_spec(self, rhs: LittleEndian<bool>) -> LittleEndian<bool> {
        LittleEndian(self.0 && rhs.0)
    }
}

impl BitAndAssign for LittleEndian<bool> {
    fn bitand_assign(&mut self, rhs: LittleEndian<bool>)
        ensures
            *final(self) == LittleEndian(old(self).0 && rhs.0),
    {
        *self = *self & rhs;
    }
}

impl BitXor for LittleEndian<bool> {
    type Output = LittleEndian<bool>;

    fn bitxor(self, rhs: LittleEndian<bool>) -> (r: LittleEndian<bool>) {
        LittleEndian(self.0 ^ rhs.0)
    }
}

impl vstd::std_specs::ops::BitXorSpecImpl for LittleEndian<bool> {
    open spec fn obeys_bitxor_spec() -> bool {
        true
    }

    open spec fn bitxor_req(self, rhs: LittleEndian<bool>) -> bool {
        true
    }

    open spec fn bitxor_spec(self, rhs: LittleEndian<bool>) -> LittleEndian<bool> {
        LittleEndian(self.0 ^ rhs.0)
    }
}

impl BitXorAssign for LittleEndian<bool> {
    fn bitxor_assign(&mut self, rhs: LittleEndian<bool>)
        ensures
            *final(self) == LittleEndian(old(self).0 ^ rhs.0),
    {
        *self = *self ^ rhs;
    }
}

impl BitOr for LittleEndian<bool> {
    type Output = LittleEndian<bool>;

    fn bitor(self, rhs: LittleEndian<bool>) -> (r: LittleEndian<bool>) {
        LittleEndian(self.0 || rhs.0)
    }
}

impl vstd::std_specs::ops::BitOrSpecImpl for LittleEndian<bool> {
    open spec fn obeys_bitor_spec() -> bool {
        true
    }

    open spec fn bitor_req(self, rhs: LittleEndian<bool>) -> bool {
        true
    }

    open spec fn bitor_spec(self, rhs: LittleEndian<bool>) -> LittleEndian<bool> {
        LittleEndian(self.0 || rhs.0)
    }
}

impl BitOrAssign for LittleEndian<bool> {
    fn bitor_assign(&mut self, rhs: LittleEndian<bool>)
        ensures
            *final(self) == LittleEndian(old(self).0 || rhs.0),
    {
        *self = *self | rhs;
    }
}

impl Not for LittleEndian<bool> {
    type Output = LittleEndian<bool>;

    fn not(self) -> (r: LittleEndian<bool>) {
        LittleEndian(!self.0)
    }
}

impl vstd::std_specs::ops::NotSpecImpl for LittleEndian<bool> {
    open spec fn obeys_not_spec() -> bool {
        true
    }

    open spec fn not_req(self) -> bool {
        true
    }

    open spec fn not_spec(self) -> LittleEndian<bool> {
        LittleEndian(!self.0)
    }
}

impl BitAnd for LittleEndian<u8> {
    type Output = LittleEndian<u8>;

    fn bitand(self, rhs: LittleEndian<u8>) -> (r: LittleEndian<u8>) {
        LittleEndian(self.0 & rhs.0)
    }
}

impl vstd::std_specs::ops::BitAndSpecImpl for LittleEndian<u8> {
    open spec fn obeys_bitand_spec() -> bool {
        true
    }

    open spec fn bitand_req(self, rhs: LittleEndian<u8>) -> bool {
        true
    }

    open spec fn bitand_spec(self, rhs: LittleEndian<u8>) -> LittleEndian<u8> {
        LittleEndian(self.0 & rhs.0)
    }
}

impl BitAndAssign for LittleEndian<u8> {
    fn bitand_assign(&mut self, rhs: LittleEndian<u8>)
        ensures
            *final(self) == LittleEndian(old(self).0 & rhs.0),
    {
        *self = *self & rhs;
    }
}

impl BitXor for LittleEndian<u8> {
    type Output = LittleEndian<u8>;

    fn bitxor(self, rhs: LittleEndian<u8>) -> (r: LittleEndian<u8>) {
        LittleEndian(self.0 ^ rhs.0)
    }
}

impl vstd::std_specs::ops::BitXorSpecImpl for LittleEndian<u8> {
    open spec fn obeys_bitxor_spec() -> bool {
        true
    }

    open spec fn bitxor_req(self, rhs: LittleEndian<u8>) -> bool {
        true
    }

    open spec fn bitxor_spec(self, rhs: LittleEndian<u8>) -> LittleEndian<u8> {
        LittleEndian(self.0 ^ rhs.0)
    }
}

impl BitXorAssign for LittleEndian<u8> {
    fn bitxor_assign(&mut self, rhs: LittleEndian<u8>)
        ensures
            *final(self) == LittleEndian(old(self).0 ^ rhs.0),
    {
        *self = *self ^ rhs;
    }
}

impl BitOr for LittleEndian<u8> {
    type Output = LittleEndian<u8>;

    fn bitor(self, rhs: LittleEndian<u8>) -> (r: LittleEndian<u8>) {
        LittleEndian(self.0 | rhs.0)
    }
}

impl vstd::std_specs::ops::BitOrSpecImpl for LittleEndian<u8> {
    open spec fn obeys_bitor_spec() -> bool {
        true
    }

    open spec fn bitor_req(self, rhs: LittleEndian<u8>) -> bool {
        true
    }

    open spec fn bitor_spec(self, rhs: LittleEndian<u8>) -> LittleEndian<u8> {
        LittleEndian(self.0 | rhs.0)
    }
}

impl BitOrAssign for LittleEndian<u8> {
    fn bitor_assign(&mut self, rhs: LittleEndian<u8>)
        ensures
            *final(self) == LittleEndian(old(self).0 | rhs.0),
    {
        *self = *self | rhs;
    }
}

impl Not for LittleEndian<u8> {
    type Output = LittleEndian<u8>;

    fn not(self) -> (r: LittleEndian<u8>) {
        LittleEndian(!self.0)
    }
}

impl vstd::std_specs::ops::NotSpecImpl for LittleEndian<u8> {
    open spec fn obeys_not_spec() -> bool {
        true
    }

    open spec fn not_req(self) -> bool {
        true
    }

    open spec fn not_spec(self) -> LittleEndian<u8> {
        LittleEndian(!self.0)
    }
}

impl BitAnd for LittleEndian<i8> {
    type Output = LittleEndian<i8>;

    fn bitand(self, rhs: LittleEndian<i8>) -> (r: LittleEndian<i8>) {
        LittleEndian(self.0 & rhs.0)
    }
}

impl vstd::std_specs::ops::BitAndSpecImpl for LittleEndian<i8> {
    open spec fn obeys_bitand_spec() -> bool {
        true
    }

    open spec fn bitand_req(self, rhs: LittleEndian<i8>) -> bool {
        true
    }

    open spec fn bitand_spec(self, rhs: LittleEndian<i8>) -> LittleEndian<i8> {
        LittleEndian(self.0 & rhs.0)
    }
}

impl BitAndAssign for LittleEndian<i8> {
    fn bitand_assign(&mut self, rhs: LittleEndian<i8>)
        ensures
            *final(self) == LittleEndian(old(self).0 & rhs.0),
    {
        *self = *self & rhs;
    }
}

impl BitXor for LittleEndian<i8> {
    type Output = LittleEndian<i8>;

    fn bitxor(self, rhs: LittleEndian<i8>) -> (r: LittleEndian<i8>) {
        LittleEndian(self.0 ^ rhs.0)
    }
}

impl vstd::std_specs::ops::BitXorSpecImpl for LittleEndian<i8> {
    open spec fn obeys_bitxor_spec() -> bool {
        true
    }

    open spec fn bitxor_req(self, rhs: LittleEndian<i8>) -> bool {
        true
    }

    open spec fn bitxor_spec(self, rhs: LittleEndian<i8>) -> LittleEndian<i8> {
        LittleEndian(self.0 ^ rhs.0)
    }
}

impl BitXorAssign for LittleEndian<i8> {
    fn bitxor_assign(&mut self, rhs: LittleEndian<i8>)
        ensures
            *final(self) == LittleEndian(old(self).0 ^ rhs.0),
    {
        *self = *self ^ rhs;
    }
}

impl BitOr for LittleEndian<i8> {
    type Output = LittleEndian<i8>;

    fn bitor(self, rhs: LittleEndian<i8>) -> (r: LittleEndian<i8>) {
        LittleEndian(self.0 | rhs.0)
    }
}

impl vstd::std_specs::ops::BitOrSpecImpl for LittleEndian<i8> {
    open spec fn obeys_bitor_spec() -> bool {
        true
    }

    open spec fn bitor_req(self, rhs: LittleEndian<i8>) -> bool {
        true
    }

    open spec fn bitor_spec(self, rhs: LittleEndian<i8>) -> LittleEndian<i8> {
        LittleEndian(self.0 | rhs.0)
    }
}

impl BitOrAssign for LittleEndian<i8> {
    fn bitor_assign(&mut self, rhs: LittleEndian<i8>)
        ensures
            *final(self) == LittleEndian(old(self).0 | rhs.0),
    {
        *self = *self | rhs;
    }
}

impl Not for LittleEndian<i8> {
    type Output = LittleEndian<i8>;

    fn not(self) -> (r: LittleEndian<i8>) {
        LittleEndian(!self.0)
    }
}

impl vstd::std_specs::ops::NotSpecImpl for LittleEndian<i8> {
    open spec fn obeys_not_spec() -> bool {
        true
    }

    open spec fn not_req(self) -> bool {
        true
    }

    open spec fn not_spec(self) -> LittleEndian<i8> {
        LittleEndian(!self.0)
    }
}

impl BitAnd for LittleEndian<u16> {
    type Output = LittleEndian<u16>;

    fn bitand(self, rhs: LittleEndian<u16>) -> (r: LittleEndian<u16>) {
        LittleEndian(self.0 & rhs.0)
    }
}

impl vstd::std_specs::ops::BitAndSpecImpl for LittleEndian<u16> {
    open spec fn obeys_bitand_spec() -> bool {
        true
    }

    open spec fn bitand_req(self, rhs: LittleEndian<u16>) -> bool {
        true
    }

    open spec fn bitand_spec(self, rhs: LittleEndian<u16>) -> LittleEndian<u16> {
        LittleEndian(self.0 & rhs.0)
    }
}

impl BitAndAssign for LittleEndian<u16> {
    fn bitand_assign(&mut self, rhs: LittleEndian<u16>)
        ensures
            *final(self) == LittleEndian(old(self).0 & rhs.0),
    {
        *self = *self & rhs;
    }
}

impl BitXor for LittleEndian<u16> {
    type Output = LittleEndian<u16>;

    fn bitxor(self, rhs: LittleEndian<u16>) -> (r: LittleEndian<u16>) {
        LittleEndian(self.0 ^ rhs.0)
    }
}

impl vstd::std_specs::ops::BitXorSpecImpl for LittleEndian<u16> {
    open spec fn obeys_bitxor_spec() -> bool {
        true
    }

    open spec fn bitxor_req(self, rhs: LittleEndian<u16>) -> bool {
        true
    }

    open spec fn bitxor_spec(self, rhs: LittleEndian<u16>) -> LittleEndian<u16> {
        LittleEndian(self.0 ^ rhs.0)
    }
}

impl BitXorAssign for LittleEndian<u16> {
    fn bitxor_assign(&mut self, rhs: LittleEndian<u16>)
        ensures
            *final(self) == LittleEndian(old(self).0 ^ rhs.0),
    {
        *self = *self ^ rhs;
    }
}

impl BitOr for LittleEndian<u16> {
    type Output = LittleEndian<u16>;

    fn bitor(self, rhs: LittleEndian<u16>) -> (r: LittleEndian<u16>) {
        LittleEndian(self.0 | rhs.0)
    }
}

impl vstd::std_specs::ops::BitOrSpecImpl for LittleEndian<u16> {
    open spec fn obeys_bitor_spec() -> bool {
        true
    }

    open spec fn bitor_req(self, rhs: LittleEndian<u16>) -> bool {
        true
    }

    open spec fn bitor_spec(self, rhs: LittleEndian<u16>) -> LittleEndian<u16> {
        LittleEndian(self.0 | rhs.0)
    }
}

impl BitOrAssign for LittleEndian<u16> {
    fn bitor_assign(&mut self, rhs: LittleEndian<u16>)
        ensures
            *final(self) == LittleEndian(old(self).0 | rhs.0),
    {
        *self = *self | rhs;
    }
}

impl Not for LittleEndian<u16> {
    type Output = LittleEndian<u16>;

    fn not(self) -> (r: LittleEndian<u16>) {
        LittleEndian(!self.0)
    }
}

impl vstd::std_specs::ops::NotSpecImpl for LittleEndian<u16> {
    open spec fn obeys_not_spec() -> bool {
        true
    }

    open spec fn not_req(self) -> bool {
        true
    }

    open spec fn not_spec(self) -> LittleEndian<u16> {
        LittleEndian(!self.0)
    }
}

impl BitAnd for LittleEndian<i16> {
    type Output = LittleEndian<i16>;

    fn bitand(self, rhs: LittleEndian<i16>) -> (r: LittleEndian<i16>) {
        LittleEndian(self.0 & rhs.0)
    }
}

impl vstd::std_specs::ops::BitAndSpecImpl for LittleEndian<i16> {
    open spec fn obeys_bitand_spec() -> bool {
        true
    }

    open spec fn bitand_req(self, rhs: LittleEndian<i16>) -> bool {
        true
    }

    open spec fn bitand_spec(self, rhs: LittleEndian<i16>) -> LittleEndian<i16> {
        LittleEndian(self.0 & rhs.0)
    }
}

impl BitAndAssign for LittleEndian<i16> {
    fn bitand_assign(&mut self, rhs: LittleEndian<i16>)
        ensures
            *final(self) == LittleEndian(old(self).0 & rhs.0),
    {
        *self = *self & rhs;
    }
}

impl BitXor for LittleEndian<i16> {
    type Output = LittleEndian<i16>;

    fn bitxor(self, rhs: LittleEndian<i16>) -> (r: LittleEndian<i16>) {
        LittleEndian(self.0 ^ rhs.0)
    }
}

impl vstd::std_specs::ops::BitXorSpecImpl for LittleEndian<i16> {
    open spec fn obeys_bitxor_spec() -> bool {
        true
    }

    open spec fn bitxor_req(self, rhs: LittleEndian<i16>) -> bool {
        true
    }

    open spec fn bitxor_spec(self, rhs: LittleEndian<i16>) -> LittleEndian<i16> {
        LittleEndian(self.0 ^ rhs.0)
    }
}

impl BitXorAssign for LittleEndian<i16> {
    fn bitxor_assign(&mut self, rhs: LittleEndian<i16>)
        ensures
            *final(self) == LittleEndian(old(self).0 ^ rhs.0),
    {
        *self = *self ^ rhs;
    }
}

impl BitOr for LittleEndian<i16> {
    type Output = LittleEndian<i16>;

    fn bitor(self, rhs: LittleEndian<i16>) -> (r: LittleEndian<i16>) {
        LittleEndian(self.0 | rhs.0)
    }
}

impl vstd::std_specs::ops::BitOrSpecImpl for LittleEndian<i16> {
    open spec fn obeys_bitor_spec() -> bool {
        true
    }

    open spec fn bitor_req(self, rhs: LittleEndian<i16>) -> bool {
        true
    }

    open spec fn bitor_spec(self, rhs: LittleEndian<i16>) -> LittleEndian<i16> {
        LittleEndian(self.0 | rhs.0)
    }
}

impl BitOrAssign for LittleEndian<i16> {
    fn bitor_assign(&mut self, rhs: LittleEndian<i16>)
        ensures
            *final(self) == LittleEndian(old(self).0 | rhs.0),
    {
        *self = *self | rhs;
    }
}

impl Not for LittleEndian<i16> {
    type Output = LittleEndian<i16>;

    fn not(self) -> (r: LittleEndian<i16>) {
        LittleEndian(!self.0)
    }
}

impl vstd::std_specs::ops::NotSpecImpl for LittleEndian<i16> {
    open spec fn obeys_not_spec() -> bool {
        true
    }

    open spec fn not_req(self) -> bool {
        true
    }

    open spec fn not_spec(self) -> LittleEndian<i16> {
        LittleEndian(!self.0)
    }
}

impl BitAnd for LittleEndian<u32> {
    type Output = LittleEndian<u32>;

    fn bitand(self, rhs: LittleEndian<u32>) -> (r: LittleEndian<u32>) {
        LittleEndian(self.0 & rhs.0)
    }
}

impl vstd::std_specs::ops::BitAndSpecImpl for LittleEndian<u32> {
    open spec fn obeys_bitand_spec() -> bool {
        true
    }

    open spec fn bitand_req(self, rhs: LittleEndian<u32>) -> bool {
        true
    }

    open spec fn bitand_spec(self, rhs: LittleEndian<u32>) -> LittleEndian<u32> {
        LittleEndian(self.0 & rhs.0)
    }
}

impl BitAndAssign for LittleEndian<u32> {
    fn bitand_assign(&mut self, rhs: LittleEndian<u32>)
        ensures
            *final(self) == LittleEndian(old(self).0 & rhs.0),
    {
        *self = *self & rhs;
    }
}

impl BitXor for LittleEndian<u32> {
    type Output = LittleEndian<u32>;

    fn bitxor(self, rhs: LittleEndian<u32>) -> (r: LittleEndian<u32>) {
        LittleEndian(self.0 ^ rhs.0)
    }
}

impl vstd::std_specs::ops::BitXorSpecImpl for LittleEndian<u32> {
    open spec fn obeys_bitxor_spec() -> bool {
        true
    }

    open spec fn bitxor_req(self, rhs: LittleEndian<u32>) -> bool {
        true
    }

    open spec fn bitxor_spec(self, rhs: LittleEndian<u32>) -> LittleEndian<u32> {
        LittleEndian(self.0 ^ rhs.0)
    }
}

impl BitXorAssign for LittleEndian<u32> {
    fn bitxor_assign(&mut self, rhs: LittleEndian<u32>)
        ensures
            *final(self) == LittleEndian(old(self).0 ^ rhs.0),
    {
        *self = *self ^ rhs;
    }
}

impl BitOr for LittleEndian<u32> {
    type Output = LittleEndian<u32>;

    fn bitor(self, rhs: LittleEndian<u32>) -> (r: LittleEndian<u32>) {
        LittleEndian(self.0 | rhs.0)
    }
}

impl vstd::std_specs::ops::BitOrSpecImpl for LittleEndian<u32> {
    open spec fn obeys_bitor_spec() -> bool {
        true
    }

    open spec fn bitor_req(self, rhs: LittleEndian<u32>) -> bool {
        true
    }

    open spec fn bitor_spec(self, rhs: LittleEndian<u32>) -> LittleEndian<u32> {
        LittleEndian(self.0 | rhs.0)
    }
}

impl BitOrAssign for LittleEndian<u32> {
    fn bitor_assign(&mut self, rhs: LittleEndian<u32>)
        ensures
            *final(self) == LittleEndian(old(self).0 | rhs.0),
    {
        *self = *self | rhs;
    }
}

impl Not for LittleEndian<u32> {
    type Output = LittleEndian<u32>;

    fn not(self) -> (r: LittleEndian<u32>) {
        LittleEndian(!self.0)
    }
}

impl vstd::std_specs::ops::NotSpecImpl for LittleEndian<u32> {
    open spec fn obeys_not_spec() -> bool {
        true
    }

    open spec fn not_req(self) -> bool {
        true
    }

    open spec fn not_spec(self) -> LittleEndian<u32> {
        LittleEndian(!self.0)
    }
}

impl BitAnd for LittleEndian<i32> {
    type Output = LittleEndian<i32>;

    fn bitand(self, rhs: LittleEndian<i32>) -> (r: LittleEndian<i32>) {
        LittleEndian(self.0 & rhs.0)
    }
}

impl vstd::std_specs::ops::BitAndSpecImpl for LittleEndian<i32> {
    open spec fn obeys_bitand_spec() -> bool {
        true
    }

    open spec fn bitand_req(self, rhs: LittleEndian<i32>) -> bool {
        true
    }

    open spec fn bitand_spec(self, rhs: LittleEndian<i32>) -> LittleEndian<i32> {
        LittleEndian(self.0 & rhs.0)
    }
}

impl BitAndAssign for LittleEndian<i32> {
    fn bitand_assign(&mut self, rhs: LittleEndian<i32>)
        ensures
            *final(self) == LittleEndian(old(self).0 & rhs.0),
    {
        *self = *self & rhs;
    }
}

impl BitXor for LittleEndian<i32> {
    type Output = LittleEndian<i32>;

    fn bitxor(self, rhs: LittleEndian<i32>) -> (r: LittleEndian<i32>) {
        LittleEndian(self.0 ^ rhs.0)
    }
}

impl vstd::std_specs::ops::BitXorSpecImpl for LittleEndian<i32> {
    open spec fn obeys_bitxor_spec() -> bool {
        true
    }

    open spec fn bitxor_req(self, rhs: LittleEndian<i32>) -> bool {
        true
    }

    open spec fn bitxor_spec(self, rhs: LittleEndian<i32>) -> LittleEndian<i32> {
        LittleEndian(self.0 ^ rhs.0)
    }
}

impl BitXorAssign for LittleEndian<i32> {
    fn bitxor_assign(&mut self, rhs: LittleEndian<i32>)
        ensures
            *final(self) == LittleEndian(old(self).0 ^ rhs.0),
    {
        *self = *self ^ rhs;
    }
}

impl BitOr for LittleEndian<i32> {
    type Output = LittleEndian<i32>;

    fn bitor(self, rhs: LittleEndian<i32>) -> (r: LittleEndian<i32>) {
        LittleEndian(self.0 | rhs.0)
    }
}

impl vstd::std_specs::ops::BitOrSpecImpl for LittleEndian<i32> {
    open spec fn obeys_bitor_spec() -> bool {
        true
    }

    open spec fn bitor_req(self, rhs: LittleEndian<i32>) -> bool {
        true
    }

    open spec fn bitor_spec(self, rhs: LittleEndian<i32>) -> LittleEndian<i32> {
        LittleEndian(self.0 | rhs.0)
    }
}

impl BitOrAssign for LittleEndian<i32> {
    fn bitor_assign(&mut self, rhs: LittleEndian<i32>)
        ensures
            *final(self) == LittleEndian(old(self).0 | rhs.0),
    {
        *self = *self | rhs;
    }
}

impl Not for LittleEndian<i32> {
    type Output = LittleEndian<i32>;

    fn not(self) -> (r: LittleEndian<i32>) {
        LittleEndian(!self.0)
    }
}

impl vstd::std_specs::ops::NotSpecImpl for LittleEndian<i32> {
    open spec fn obeys_not_spec() -> bool {
        true
    }

    open spec fn not_req(self) -> bool {
        true
    }

    open spec fn not_spec(self) -> LittleEndian<i32> {
        LittleEndian(!self.0)
    }
}

impl BitAnd for LittleEndian<u64> {
    type Output = LittleEndian<u64>;

    fn bitand(self, rhs: LittleEndian<u64>) -> (r: LittleEndian<u64>) {
        LittleEndian(self.0 & rhs.0)
    }
}

impl vstd::std_specs::ops::BitAndSpecImpl for LittleEndian<u64> {
    open spec fn obeys_bitand_spec() -> bool {
        true
    }

    open spec fn bitand_req(self, rhs: LittleEndian<u64>) -> bool {
        true
    }

    open spec fn bitand_spec(self, rhs: LittleEndian<u64>) -> LittleEndian<u64> {
        LittleEndian(self.0 & rhs.0)
    }
}

impl BitAndAssign for LittleEndian<u64> {
    fn bitand_assign(&mut self, rhs: LittleEndian<u64>)
        ensures
            *final(self) == LittleEndian(old(self).0 & rhs.0),
    {
        *self = *self & rhs;
    }
}

impl BitXor for LittleEndian<u64> {
    type Output = LittleEndian<u64>;

    fn bitxor(self, rhs: LittleEndian<u64>) -> (r: LittleEndian<u64>) {
        LittleEndian(self.0 ^ rhs.0)
    }
}

impl vstd::std_specs::ops::BitXorSpecImpl for LittleEndian<u64> {
    open spec fn obeys_bitxor_spec() -> bool {
        true
    }

    open spec fn bitxor_req(self, rhs: LittleEndian<u64>) -> bool {
        true
    }

    open spec fn bitxor_spec(self, rhs: LittleEndian<u64>) -> LittleEndian<u64> {
        LittleEndian(self.0 ^ rhs.0)
    }
}

impl BitXorAssign for LittleEndian<u64> {
    fn bitxor_assign(&mut self, rhs: LittleEndian<u64>)
        ensures
            *final(self) == LittleEndian(old(self).0 ^ rhs.0),
    {
        *self = *self ^ rhs;
    }
}

impl BitOr for LittleEndian<u64> {
    type Output = LittleEndian<u64>;

    fn bitor(self, rhs: LittleEndian<u64>) -> (r: LittleEndian<u64>) {
        LittleEndian(self.0 | rhs.0)
    }
}

impl vstd::std_specs::ops::BitOrSpecImpl for LittleEndian<u64> {
    open spec fn obeys_bitor_spec() -> bool {
        true
    }

    open spec fn bitor_req(self, rhs: LittleEndian<u64>) -> bool {
        true
    }

    open spec fn bitor_spec(self, rhs: LittleEndian<u64>) -> LittleEndian<u64> {
        LittleEndian(self.0 | rhs.0)
    }
}

impl BitOrAssign for LittleEndian<u64> {
    fn bitor_assign(&mut self, rhs: LittleEndian<u64>)
        ensures
            *final(self) == LittleEndian(old(self).0 | rhs.0),
    {
        *self = *self | rhs;
    }
}

impl Not for LittleEndian<u64> {
    type Output = LittleEndian<u64>;

    fn not(self) -> (r: LittleEndian<u64>) {
        LittleEndian(!self.0)
    }
}

impl vstd::std_specs::ops::NotSpecImpl for LittleEndian<u64> {
    open spec fn obeys_not_spec() -> bool {
        true
    }

    open spec fn not_req(self) -> bool {
        true
    }

    open spec fn not_spec(self) -> LittleEndian<u64> {
        LittleEndian(!self.0)
    }
}

impl BitAnd for LittleEndian<i64> {
    type Output = LittleEndian<i64>;

    fn bitand(self, rhs: LittleEndian<i64>) -> (r: LittleEndian<i64>) {
        LittleEndian(self.0 & rhs.0)
    }
}

impl vstd::std_specs::ops::BitAndSpecImpl for LittleEndian<i64> {
    open spec fn obeys_bitand_spec() -> bool {
        true
    }

    open spec fn bitand_req(self, rhs: LittleEndian<i64>) -> bool {
        true
    }

    open spec fn bitand_spec(self, rhs: LittleEndian<i64>) -> LittleEndian<i64> {
        LittleEndian(self.0 & rhs.0)
    }
}

impl BitAndAssign for LittleEndian<i64> {
    fn bitand_assign(&mut self, rhs: LittleEndian<i64>)
        ensures
            *final(self) == LittleEndian(old(self).0 & rhs.0),
    {
        *self = *self & rhs;
    }
}

impl BitXor for LittleEndian<i64> {
    type Output = LittleEndian<i64>;

    fn bitxor(self, rhs: LittleEndian<i64>) -> (r: LittleEndian<i64>) {
        LittleEndian(self.0 ^ rhs.0)
    }
}

impl vstd::std_specs::ops::BitXorSpecImpl for LittleEndian<i64> {
    open spec fn obeys_bitxor_spec() -> bool {
        true
    }

    open spec fn bitxor_req(self, rhs: LittleEndian<i64>) -> bool {
        true
    }

    open spec fn bitxor_spec(self, rhs: LittleEndian<i64>) -> LittleEndian<i64> {
        LittleEndian(self.0 ^ rhs.0)
    }
}

impl BitXorAssign for LittleEndian<i64> {
    fn bitxor_assign(&mut self, rhs: LittleEndian<i64>)
        ensures
            *final(self) == LittleEndian(old(self).0 ^ rhs.0),
    {
        *self = *self ^ rhs;
    }
}

impl BitOr for LittleEndian<i64> {
    type Output = LittleEndian<i64>;

    fn bitor(self, rhs: LittleEndian<i64>) -> (r: LittleEndian<i64>) {
        LittleEndian(self.0 | rhs.0)
    }
}

impl vstd::std_specs::ops::BitOrSpecImpl for LittleEndian<i64> {
    open spec fn obeys_bitor_spec() -> bool {
        true
    }

    open spec fn bitor_req(self, rhs: LittleEndian<i64>) -> bool {
        true
    }

    open spec fn bitor_spec(self, rhs: LittleEndian<i64>) -> LittleEndian<i64> {
        LittleEndian(self.0 | rhs.0)
    }
}

impl BitOrAssign for LittleEndian<i64> {
    fn bitor_assign(&mut self, rhs: LittleEndian<i64>)
        ensures
            *final(self) == LittleEndian(old(self).0 | rhs.0),
    {
        *self = *self | rhs;
    }
}

impl Not for LittleEndian<i64> {
    type Output = LittleEndian<i64>;

    fn not(self) -> (r: LittleEndian<i64>) {
        LittleEndian(!self.0)
    }
}

impl vstd::std_specs::ops::NotSpecImpl for LittleEndian<i64> {
    open spec fn obeys_not_spec() -> bool {
        true
    }

    open spec fn not_req(self) -> bool {
        true
    }

    open spec fn not_spec(self) -> LittleEndian<i64> {
        LittleEndian(!self.0)
    }
}

impl BitAnd for LittleEndian<u128> {
    type Output = LittleEndian<u128>;

    fn bitand(self, rhs: LittleEndian<u128>) -> (r: LittleEndian<u128>) {
        LittleEndian(self.0 & rhs.0)
    }
}

impl vstd::std_specs::ops::BitAndSpecImpl for LittleEndian<u128> {
    open spec fn obeys_bitand_spec() -> bool {
        true
    }

    open spec fn bitand_req(self, rhs: LittleEndian<u128>) -> bool {
        true
    }

    open spec fn bitand_spec(self, rhs: LittleEndian<u128>) -> LittleEndian<u128> {
        LittleEndian(self.0 & rhs.0)
    }
}

impl BitAndAssign for LittleEndian<u128> {
    fn bitand_assign(&mut self, rhs: LittleEndian<u128>)
        ensures
            *final(self) == LittleEndian(old(self).0 & rhs.0),
    {
        *self = *self & rhs;
    }
}

impl BitXor for LittleEndian<u128> {
    type Output = LittleEndian<u128>;

    fn bitxor(self, rhs: LittleEndian<u128>) -> (r: LittleEndian<u128>) {
        LittleEndian(self.0 ^ rhs.0)
    }
}

impl vstd::std_specs::ops::BitXorSpecImpl for LittleEndian<u128> {
    open spec fn obeys_bitxor_spec() -> bool {
        true
    }

    open spec fn bitxor_req(self, rhs: LittleEndian<u128>) -> bool {
        true
    }

    open spec fn bitxor_spec(self, rhs: LittleEndian<u128>) -> LittleEndian<u128> {
        LittleEndian(self.0 ^ rhs.0)
    }
}

impl BitXorAssign for LittleEndian<u128> {
    fn bitxor_assign(&mut self, rhs: LittleEndian<u128>)
        ensures
            *final(self) == LittleEndian(old(self).0 ^ rhs.0),
    {
        *self = *self ^ rhs;
    }
}

impl BitOr for LittleEndian<u128> {
    type Output = LittleEndian<u128>;

    fn bitor(self, rhs: LittleEndian<u128>) -> (r: LittleEndian<u128>) {
        LittleEndian(self.0 | rhs.0)
    }
}

impl vstd::std_specs::ops::BitOrSpecImpl for LittleEndian<u128> {
    open spec fn obeys_bitor_spec() -> bool {
        true
    }

    open spec fn bitor_req(self, rhs: LittleEndian<u128>) -> bool {
        true
    }

    open spec fn bitor_spec(self, rhs: LittleEndian<u128>) -> LittleEndian<u128> {
        LittleEndian(self.0 | rhs.0)
    }
}

impl BitOrAssign for LittleEndian<u128> {
    fn bitor_assign(&mut self, rhs: LittleEndian<u128>)
        ensures
            *final(self) == LittleEndian(old(self).0 | rhs.0),
    {
        *self = *self | rhs;
    }
}

impl Not for LittleEndian<u128> {
    type Output = LittleEndian<u128>;

    fn not(self) -> (r: LittleEndian<u128>) {
        LittleEndian(!self.0)
    }
}

impl vstd::std_specs::ops::NotSpecImpl for LittleEndian<u128> {
    open spec fn obeys_not_spec() -> bool {
        true
    }

    open spec fn not_req(self) -> bool {
        true
    }

    open spec fn not_spec(self) -> LittleEndian<u128> {
        LittleEndian(!self.0)
    }
}

impl BitAnd for LittleEndian<i128> {
    type Output = LittleEndian<i128>;

    fn bitand(self, rhs: LittleEndian<i128>) -> (r: LittleEndian<i128>) {
        LittleEndian(self.0 & rhs.0)
    }
}

impl vstd::std_specs::ops::BitAndSpecImpl for LittleEndian<i128> {
    open spec fn obeys_bitand_spec() -> bool {
        true
    }

    open spec fn bitand_req(self, rhs: LittleEndian<i128>) -> bool {
        true
    }

    open spec fn bitand_spec(self, rhs: LittleEndian<i128>) -> LittleEndian<i128> {
        LittleEndian(self.0 & rhs.0)
    }
}

impl BitAndAssign for LittleEndian<i128> {
    fn bitand_assign(&mut self, rhs: LittleEndian<i128>)
        ensures
            *final(self) == LittleEndian(old(self).0 & rhs.0),
    {
        *self = *self & rhs;
    }
}

impl BitXor for LittleEndian<i128> {
    type Output = LittleEndian<i128>;

    fn bitxor(self, rhs: LittleEndian<i128>) -> (r: LittleEndian<i128>) {
        LittleEndian(self.0 ^ rhs.0)
    }
}

impl vstd::std_specs::ops::BitXorSpecImpl for LittleEndian<i128> {
    open spec fn obeys_bitxor_spec() -> bool {
        true
    }

    open spec fn bitxor_req(self, rhs: LittleEndian<i128>) -> bool {
        true
    }

    open spec fn bitxor_spec(self, rhs: LittleEndian<i128>) -> LittleEndian<i128> {
        LittleEndian(self.0 ^ rhs.0)
    }
}

impl BitXorAssign for LittleEndian<i128> {
    fn bitxor_assign(&mut self, rhs: LittleEndian<i128>)
        ensures
            *final(self) == LittleEndian(old(self).0 ^ rhs.0),
    {
        *self = *self ^ rhs;
    }
}

impl BitOr for LittleEndian<i128> {
    type Output = LittleEndian<i128>;

    fn bitor(self, rhs: LittleEndian<i128>) -> (r: LittleEndian<i128>) {
        LittleEndian(self.0 | rhs.0)
    }
}

impl vstd::std_specs::ops::BitOrSpecImpl for LittleEndian<i128> {
    open spec fn obeys_bitor_spec() -> bool {
        true
    }

    open spec fn bitor_req(self, rhs: LittleEndian<i128>) -> bool {
        true
    }

    open spec fn bitor_spec(self, rhs: LittleEndian<i128>) -> LittleEndian<i128> {
        LittleEndian(self.0 | rhs.0)
    }
}

impl BitOrAssign for LittleEndian<i128> {
    fn bitor_assign(&mut self, rhs: LittleEndian<i128>)
        ensures
            *final(self) == LittleEndian(old(self).0 | rhs.0),
    {
        *self = *self | rhs;
    }
}

impl Not for LittleEndian<i128> {
    type Output = LittleEndian<i128>;

    fn not(self) -> (r: LittleEndian<i128>) {
        LittleEndian(!self.0)
    }
}

impl vstd::std_specs::ops::NotSpecImpl for LittleEndian<i128> {
    open spec fn obeys_not_spec() -> bool {
        true
    }

    open spec fn not_req(self) -> bool {
        true
    }

    open spec fn not_spec(self) -> LittleEndian<i128> {
        LittleEndian(!self.0)
    }
}

impl BitAnd for LittleEndian<usize> {
    type Output = LittleEndian<usize>;

    fn bitand(self, rhs: LittleEndian<usize>) -> (r: LittleEndian<usize>) {
        LittleEndian(self.0 & rhs.0)
    }
}

impl vstd::std_specs::ops::BitAndSpecImpl for LittleEndian<usize> {
    open spec fn obeys_bitand_spec() -> bool {
        true
    }

    open spec fn bitand_req(self, rhs: LittleEndian<usize>) -> bool {
        true
    }

    open spec fn bitand_spec(self, rhs: LittleEndian<usize>) -> LittleEndian<usize> {
        LittleEndian(self.0 & rhs.0)
    }
}

impl BitAndAssign for LittleEndian<usize> {
    fn bitand_assign(&mut self, rhs: LittleEndian<usize>)
        ensures
            *final(self) == LittleEndian(old(self).0 & rhs.0),
    {
        *self = *self & rhs;
    }
}

impl BitXor for LittleEndian<usize> {
    type Output = LittleEndian<usize>;

    fn bitxor(self, rhs: LittleEndian<usize>) -> (r: LittleEndian<usize>) {
        LittleEndian(self.0 ^ rhs.0)
    }
}

impl vstd::std_specs::ops::BitXorSpecImpl for LittleEndian<usize> {
    open spec fn obeys_bitxor_spec() -> bool {
        true
    }

    open spec fn bitxor_req(self, rhs: LittleEndian<usize>) -> bool {
        true
    }

    open spec fn bitxor_spec(self, rhs: LittleEndian<usize>) -> LittleEndian<usize> {
        LittleEndian(self.0 ^ rhs.0)
    }
}

impl BitXorAssign for LittleEndian<usize> {
    fn bitxor_assign(&mut self, rhs: LittleEndian<usize>)
        ensures
            *final(self) == LittleEndian(old(self).0 ^ rhs.0),
    {
        *self = *self ^ rhs;
    }
}

impl BitOr for LittleEndian<usize> {
    type Output = LittleEndian<usize>;

    fn bitor(self, rhs: LittleEndian<usize>) -> (r: LittleEndian<usize>) {
        LittleEndian(self.0 | rhs.0)
    }
}

impl vstd::std_specs::ops::BitOrSpecImpl for LittleEndian<usize> {
    open spec fn obeys_bitor_spec() -> bool {
        true
    }

    open spec fn bitor_req(self, rhs: LittleEndian<usize>) -> bool {
        true
    }

    open spec fn bitor_spec(self, rhs: LittleEndian<usize>) -> LittleEndian<usize> {
        LittleEndian(self.0 | rhs.0)
    }
}

impl BitOrAssign for LittleEndian<usize> {
    fn bitor_assign(&mut self, rhs: LittleEndian<usize>)
        ensures
            *final(self) == LittleEndian(old(self).0 | rhs.0),
    {
        *self = *self | rhs;
    }
}

impl Not for LittleEndian<usize> {
    type Output = LittleEndian<usize>;

    fn not(self) -> (r: LittleEndian<usize>) {
        LittleEndian(!self.0)
    }
}

impl vstd::std_specs::ops::NotSpecImpl for LittleEndian<usize> {
    open spec fn obeys_not_spec() -> bool {
        true
    }

    open spec fn not_req(self) -> bool {
        true
    }

    open spec fn not_spec(self) -> LittleEndian<usize> {
        LittleEndian(!self.0)
    }
}

impl BitAnd for LittleEndian<isize> {
    type Output = LittleEndian<isize>;

    fn bitand(self, rhs: LittleEndian<isize>) -> (r: LittleEndian<isize>) {
        LittleEndian(self.0 & rhs.0)
    }
}

impl vstd::std_specs::ops::BitAndSpecImpl for LittleEndian<isize> {
    open spec fn obeys_bitand_spec() -> bool {
        true
    }

    open spec fn bitand_req(self, rhs: LittleEndian<isize>) -> bool {
        true
    }

    open spec fn bitand_spec(self, rhs: LittleEndian<isize>) -> LittleEndian<isize> {
        LittleEndian(self.0 & rhs.0)
    }
}

impl BitAndAssign for LittleEndian<isize> {
    fn bitand_assign(&mut self, rhs: LittleEndian<isize>)
        ensures
            *final(self) == LittleEndian(old(self).0 & rhs.0),
    {
        *self = *self & rhs;
    }
}

impl BitXor for LittleEndian<isize> {
    type Output = LittleEndian<isize>;

    fn bitxor(self, rhs: LittleEndian<isize>) -> (r: LittleEndian<isize>) {
        LittleEndian(self.0 ^ rhs.0)
    }
}

impl vstd::std_specs::ops::BitXorSpecImpl for LittleEndian<isize> {
    open spec fn obeys_bitxor_spec() -> bool {
        true
    }

    open spec fn bitxor_req(self, rhs: LittleEndian<isize>) -> bool {
        true
    }

    open spec fn bitxor_spec(self, rhs: LittleEndian<isize>) -> LittleEndian<isize> {
        LittleEndian(self.0 ^ rhs.0)
    }
}

impl BitXorAssign for LittleEndian<isize> {
    fn bitxor_assign(&mut self, rhs: LittleEndian<isize>)
        ensures
            *final(self) == LittleEndian(old(self).0 ^ rhs.0),
    {
        *self = *self ^ rhs;
    }
}

impl BitOr for LittleEndian<isize> {
    type Output = LittleEndian<isize>;

    fn bitor(self, rhs: LittleEndian<isize>) -> (r: LittleEndian<isize>) {
        LittleEndian(self.0 | rhs.0)
    }
}

impl vstd::std_specs::ops::BitOrSpecImpl for LittleEndian<isize> {
    open spec fn obeys_bitor_spec() -> bool {
        true
    }

    open spec fn bitor_req(self, rhs: LittleEndian<isize>) -> bool {
        true
    }

    open spec fn bitor_spec(self, rhs: LittleEndian<isize>) -> LittleEndian<isize> {
        LittleEndian(self.0 | rhs.0)
    }
}

impl BitOrAssign for LittleEndian<isize> {
    fn bitor_assign(&mut self, rhs: LittleEndian<isize>)
        ensures
            *final(self) == LittleEndian(old(self).0 | rhs.0),
    {
        *self = *self | rhs;
    }
}

impl Not for LittleEndian<isize> {
    type Output = LittleEndian<isize>;

    fn not(self) -> (r: LittleEndian<isize>) {
        LittleEndian(!self.0)
    }
}

impl vstd::std_specs::ops::NotSpecImpl for LittleEndian<isize> {
    open spec fn obeys_not_spec() -> bool {
        true
    }

    open spec fn not_req(self) -> bool {
        true
    }

    open spec fn not_spec(self) -> LittleEndian<isize> {
        LittleEndian(!self.0)
    }
}

/// A byte swap distributes over the bitwise operations.
proof fn lemma_swap16_bitwise(x: u16, y: u16)
    by (bit_vector)
    ensures
        swap16(x & y) == swap16(x) & swap16(y),
        swap16(x | y) == swap16(x) | swap16(y),
        swap16(x ^ y) == swap16(x) ^ swap16(y),
        swap16(!x) == !swap16(x),
{
}

/// A byte swap distributes over the bitwise operations.
proof fn lemma_swap32_bitwise(x: u32, y: u32)
    by (bit_vector)
    ensures
        swap32(x & y) == swap32(x) & swap32(y),
        swap32(x | y) == swap32(x) | swap32(y),
        swap32(x ^ y) == swap32(x) ^ swap32(y),
        swap32(!x) == !swap32(x),
{
}

/// A byte swap distributes over the bitwise operations.
proof fn lemma_swap64_bitwise(x: u64, y: u64)
    by (bit_vector)
    ensures
        swap64(x & y) == swap64(x) & swap64(y),
        swap64(x | y) == swap64(x) | swap64(y),
        swap64(x ^ y) == swap64(x) ^ swap64(y),
        swap64(!x) == !swap64(x),
{
}

/// A byte swap distributes over the bitwise operations.
proof fn lemma_swap128_bitwise(x: u128, y: u128)
    by (bit_vector)
    ensures
        swap128(x & y) == swap128(x) & swap128(y),
        swap128(x | y) == swap128(x) | swap128(y),
        swap128(x ^ y) == swap128(x) ^ swap128(y),
        swap128(!x) == !swap128(x),
{
}

/// A byte swap distributes over the bitwise operations.
proof fn lemma_swap_usize_bitwise(x: usize, y: usize)
    by (bit_vector)
    ensures
        swap_usize(x & y) == swap_usize(x) & swap_usize(y),
        swap_usize(x | y) == swap_usize(x) | swap_usize(y),
        swap_usize(x ^ y) == swap_usize(x) ^ swap_usize(y),
        swap_usize(!x) == !swap_usize(x),
{
}

/// A byte swap of the bits of a signed value distributes over the bitwise operations.
proof fn lemma_swap16_bitwise_signed(x: i16, y: i16)
    by (bit_vector)
    ensures
        swap16((x & y) as u16) as i16 == (swap16(x as u16) as i16) & (swap16(y as u16) as i16),
        swap16((x | y) as u16) as i16 == (swap16(x as u16) as i16) | (swap16(y as u16) as i16),
        swap16((x ^ y) as u16) as i16 == (swap16(x as u16) as i16) ^ (swap16(y as u16) as i16),
        swap16((!x) as u16) as i16 == !(swap16(x as u16) as i16),
{
}

/// A byte swap of the bits of a signed value distributes over the bitwise operations.
proof fn lemma_swap32_bitwise_signed(x: i32, y: i32)
    by (bit_vector)
    ensures
        swap32((x & y) as u32) as i32 == (swap32(x as u32) as i32) & (swap32(y as u32) as i32),
        swap32((x | y) as u32) as i32 == (swap32(x as u32) as i32) | (swap32(y as u32) as i32),
        swap32((x ^ y) as u32) as i32 == (swap32(x as u32) as i32) ^ (swap32(y as u32) as i32),
        swap32((!x) as u32) as i32 == !(swap32(x as u32) as i32),
{
}

/// A byte swap of the bits of a signed value distributes over the bitwise operations.
proof fn lemma_swap64_bitwise_signed(x: i64, y: i64)
    by (bit_vector)
    ensures
        swap64((x & y) as u64) as i64 == (swap64(x as u64) as i64) & (swap64(y as u64) as i64),
        swap64((x | y) as u64) as i64 == (swap64(x as u64) as i64) | (swap64(y as u64) as i64),
        swap64((x ^ y) as u64) as i64 == (swap64(x as u64) as i64) ^ (swap64(y as u64) as i64),
        swap64((!x) as u64) as i64 == !(swap64(x as u64) as i64),
{
}

/// A byte swap of the bits of a signed value distributes over the bitwise operations.
proof fn lemma_swap128_bitwise_signed(x: i128, y: i128)
    by (bit_vector)
    ensures
        swap128((x & y) as u128) as i128 == (swap128(x as u128) as i128) & (swap128(y as u128) as i128),
        swap128((x | y) as u128) as i128 == (swap128(x as u128) as i128) | (swap128(y as u128) as i128),
        swap128((x ^ y) as u128) as i128 == (swap128(x as u128) as i128) ^ (swap128(y as u128) as i128),
        swap128((!x) as u128) as i128 == !(swap128(x as u128) as i128),
{
}

/// A byte swap of the bits of a signed value distributes over the bitwise operations.
proof fn lemma_swap_usize_bitwise_signed(x: isize, y: isize)
    by (bit_vector)
    ensures
        swap_usize((x & y) as usize) as isize == (swap_usize(x as usize) as isize) & (swap_usize(y as usize) as isize),
        swap_usize((x | y) as usize) as isize == (swap_usize(x as usize) as isize) | (swap_usize(y as usize) as isize),
        swap_usize((x ^ y) as usize) as isize == (swap_usize(x as usize) as isize) ^ (swap_usize(y as usize) as isize),
        swap_usize((!x) as usize) as isize == !(swap_usize(x as usize) as isize),
{
}

/// `&`, `|`, `^` and `!` on the stored bits of `bool` values give the stored bits of the same
/// operation on their host-order values, in either byte order; so, on stored values,
/// `from(a) & from(b) == from(a & b)`, and likewise for `|`, `^` and `!`.
pub proof fn law_bitwise_bool(a: bool, b: bool)
    ensures
        BigEndian(a && b).spec_native() == (BigEndian(a).spec_native() && BigEndian(b).spec_native()),
        BigEndian(a ^ b).spec_native() == (BigEndian(a).spec_native() ^ BigEndian(b).spec_native()),
        BigEndian(a || b).spec_native() == (BigEndian(a).spec_native() || BigEndian(b).spec_native()),
        BigEndian(!a).spec_native() == !BigEndian(a).spec_native(),
        LittleEndian(a && b).spec_native() == (LittleEndian(a).spec_native() && LittleEndian(b).spec_native()),
        LittleEndian(a ^ b).spec_native() == (LittleEndian(a).spec_native() ^ LittleEndian(b).spec_native()),
        LittleEndian(a || b).spec_native() == (LittleEndian(a).spec_native() || LittleEndian(b).spec_native()),
        LittleEndian(!a).spec_native() == !LittleEndian(a).spec_native(),
        BigEndian(a.spec_to_big_endian()).bitand_spec(BigEndian(b.spec_to_big_endian())) == BigEndian((a && b).spec_to_big_endian()),
        BigEndian(a.spec_to_big_endian()).bitor_spec(BigEndian(b.spec_to_big_endian())) == BigEndian((a || b).spec_to_big_endian()),
        BigEndian(a.spec_to_big_endian()).bitxor_spec(BigEndian(b.spec_to_big_endian())) == BigEndian((a ^ b).spec_to_big_endian()),
        BigEndian(a.spec_to_big_endian()).not_spec() == BigEndian((!a).spec_to_big_endian()),
        LittleEndian(a.spec_to_little_endian()).bitand_spec(LittleEndian(b.spec_to_little_endian())) == LittleEndian((a && b).spec_to_little_endian()),
        LittleEndian(a.spec_to_little_endian()).bitor_spec(LittleEndian(b.spec_to_little_endian())) == LittleEndian((a || b).spec_to_little_endian()),
        LittleEndian(a.spec_to_little_endian()).bitxor_spec(LittleEndian(b.spec_to_little_endian())) == LittleEndian((a ^ b).spec_to_little_endian()),
        LittleEndian(a.spec_to_little_endian()).not_spec() == LittleEndian((!a).spec_to_little_endian()),
{
}

/// `&`, `|`, `^` and `!` on the stored bits of `u8` values give the stored bits of the same
/// operation on their host-order values, in either byte order; so, on stored values,
/// `from(a) & from(b) == from(a & b)`, and likewise for `|`, `^` and `!`.
pub proof fn law_bitwise_u8(a: u8, b: u8)
    ensures
        BigEndian(a & b).spec_native() == (BigEndian(a).spec_native() & BigEndian(b).spec_native()),
        BigEndian(a ^ b).spec_native() == (BigEndian(a).spec_native() ^ BigEndian(b).spec_native()),
        BigEndian(a | b).spec_native() == (BigEndian(a).spec_native() | BigEndian(b).spec_native()),
        BigEndian(!a).spec_native() == !BigEndian(a).spec_native(),
        LittleEndian(a & b).spec_native() == (LittleEndian(a).spec_native() & LittleEndian(b).spec_native()),
        LittleEndian(a ^ b).spec_native() == (LittleEndian(a).spec_native() ^ LittleEndian(b).spec_native()),
        LittleEndian(a | b).spec_native() == (LittleEndian(a).spec_native() | LittleEndian(b).spec_native()),
        LittleEndian(!a).spec_native() == !LittleEndian(a).spec_native(),
        BigEndian(a.spec_to_big_endian()).bitand_spec(BigEndian(b.spec_to_big_endian())) == BigEndian((a & b).spec_to_big_endian()),
        BigEndian(a.spec_to_big_endian()).bitor_spec(BigEndian(b.spec_to_big_endian())) == BigEndian((a | b).spec_to_big_endian()),
        BigEndian(a.spec_to_big_endian()).bitxor_spec(BigEndian(b.spec_to_big_endian())) == BigEndian((a ^ b).spec_to_big_endian()),
        BigEndian(a.spec_to_big_endian()).not_spec() == BigEndian((!a).spec_to_big_endian()),
        LittleEndian(a.spec_to_little_endian()).bitand_spec(LittleEndian(b.spec_to_little_endian())) == LittleEndian((a & b).spec_to_little_endian()),
        LittleEndian(a.spec_to_little_endian()).bitor_spec(LittleEndian(b.spec_to_little_endian())) == LittleEndian((a | b).spec_to_little_endian()),
        LittleEndian(a.spec_to_little_endian()).bitxor_spec(LittleEndian(b.spec_to_little_endian())) == LittleEndian((a ^ b).spec_to_little_endian()),
        LittleEndian(a.spec_to_little_endian()).not_spec() == LittleEndian((!a).spec_to_little_endian()),
{
}

/// `&`, `|`, `^` and `!` on the stored bits of `i8` values give the stored bits of the same
/// operation on their host-order values, in either byte order; so, on stored values,
/// `from(a) & from(b) == from(a & b)`, and likewise for `|`, `^` and `!`.
pub proof fn law_bitwise_i8(a: i8, b: i8)
    ensures
        BigEndian(a & b).spec_native() == (BigEndian(a).spec_native() & BigEndian(b).spec_native()),
        BigEndian(a ^ b).spec_native() == (BigEndian(a).spec_native() ^ BigEndian(b).spec_native()),
        BigEndian(a | b).spec_native() == (BigEndian(a).spec_native() | BigEndian(b).spec_native()),
        BigEndian(!a).spec_native() == !BigEndian(a).spec_native(),
        LittleEndian(a & b).spec_native() == (LittleEndian(a).spec_native() & LittleEndian(b).spec_native()),
        LittleEndian(a ^ b).spec_native() == (LittleEndian(a).spec_native() ^ LittleEndian(b).spec_native()),
        LittleEndian(a | b).spec_native() == (LittleEndian(a).spec_native() | LittleEndian(b).spec_native()),
        LittleEndian(!a).spec_native() == !LittleEndian(a).spec_native(),
        BigEndian(a.spec_to_big_endian()).bitand_spec(BigEndian(b.spec_to_big_endian())) == BigEndian((a & b).spec_to_big_endian()),
        BigEndian(a.spec_to_big_endian()).bitor_spec(BigEndian(b.spec_to_big_endian())) == BigEndian((a | b).spec_to_big_endian()),
        BigEndian(a.spec_to_big_endian()).bitxor_spec(BigEndian(b.spec_to_big_endian())) == BigEndian((a ^ b).spec_to_big_endian()),
        BigEndian(a.spec_to_big_endian()).not_spec() == BigEndian((!a).spec_to_big_endian()),
        LittleEndian(a.spec_to_little_endian()).bitand_spec(LittleEndian(b.spec_to_little_endian())) == LittleEndian((a & b).spec_to_little_endian()),
        LittleEndian(a.spec_to_little_endian()).bitor_spec(LittleEndian(b.spec_to_little_endian())) == LittleEndian((a | b).spec_to_little_endian()),
        LittleEndian(a.spec_to_little_endian()).bitxor_spec(LittleEndian(b.spec_to_little_endian())) == LittleEndian((a ^ b).spec_to_little_endian()),
        LittleEndian(a.spec_to_little_endian()).not_spec() == LittleEndian((!a).spec_to_little_endian()),
{
}

/// `&`, `|`, `^` and `!` on the stored bits of `u16` values give the stored bits of the same
/// operation on their host-order values, in either byte order; so, on stored values,
/// `from(a) & from(b) == from(a & b)`, and likewise for `|`, `^` and `!`.
pub proof fn law_bitwise_u16(a: u16, b: u16)
    ensures
        BigEndian(a & b).spec_native() == (BigEndian(a).spec_native() & BigEndian(b).spec_native()),
        BigEndian(a ^ b).spec_native() == (BigEndian(a).spec_native() ^ BigEndian(b).spec_native()),
        BigEndian(a | b).spec_native() == (BigEndian(a).spec_native() | BigEndian(b).spec_native()),
        BigEndian(!a).spec_native() == !BigEndian(a).spec_native(),
        LittleEndian(a & b).spec_native() == (LittleEndian(a).spec_native() & LittleEndian(b).spec_native()),
        LittleEndian(a ^ b).spec_native() == (LittleEndian(a).spec_native() ^ LittleEndian(b).spec_native()),
        LittleEndian(a | b).spec_native() == (LittleEndian(a).spec_native() | LittleEndian(b).spec_native()),
        LittleEndian(!a).spec_native() == !LittleEndian(a).spec_native(),
        BigEndian(a.spec_to_big_endian()).bitand_spec(BigEndian(b.spec_to_big_endian())) == BigEndian((a & b).spec_to_big_endian()),
        BigEndian(a.spec_to_big_endian()).bitor_spec(BigEndian(b.spec_to_big_endian())) == BigEndian((a | b).spec_to_big_endian()),
        BigEndian(a.spec_to_big_endian()).bitxor_spec(BigEndian(b.spec_to_big_endian())) == BigEndian((a ^ b).spec_to_big_endian()),
        BigEndian(a.spec_to_big_endian()).not_spec() == BigEndian((!a).spec_to_big_endian()),
        LittleEndian(a.spec_to_little_endian()).bitand_spec(LittleEndian(b.spec_to_little_endian())) == LittleEndian((a & b).spec_to_little_endian()),
        LittleEndian(a.spec_to_little_endian()).bitor_spec(LittleEndian(b.spec_to_little_endian())) == LittleEndian((a | b).spec_to_little_endian()),
        LittleEndian(a.spec_to_little_endian()).bitxor_spec(LittleEndian(b.spec_to_little_endian())) == LittleEndian((a ^ b).spec_to_little_endian()),
        LittleEndian(a.spec_to_little_endian()).not_spec() == LittleEndian((!a).spec_to_little_endian()),
{
    lemma_swap16_bitwise(a, b);
}

/// `&`, `|`, `^` and `!` on the stored bits of `i16` values give the stored bits of the same
/// operation on their host-order values, in either byte order; so, on stored values,
/// `from(a) & from(b) == from(a & b)`, and likewise for `|`, `^` and `!`.
pub proof fn law_bitwise_i16(a: i16, b: i16)
    ensures
        BigEndian(a & b).spec_native() == (BigEndian(a).spec_native() & BigEndian(b).spec_native()),
        BigEndian(a ^ b).spec_native() == (BigEndian(a).spec_native() ^ BigEndian(b).spec_native()),
        BigEndian(a | b).spec_native() == (BigEndian(a).spec_native() | BigEndian(b).spec_native()),
        BigEndian(!a).spec_native() == !BigEndian(a).spec_native(),
        LittleEndian(a & b).spec_native() == (LittleEndian(a).spec_native() & LittleEndian(b).spec_native()),
        LittleEndian(a ^ b).spec_native() == (LittleEndian(a).spec_native() ^ LittleEndian(b).spec_native()),
        LittleEndian(a | b).spec_native() == (LittleEndian(a).spec_native() | LittleEndian(b).spec_native()),
        LittleEndian(!a).spec_native() == !LittleEndian(a).spec_native(),
        BigEndian(a.spec_to_big_endian()).bitand_spec(BigEndian(b.spec_to_big_endian())) == BigEndian((a & b).spec_to_big_endian()),
        BigEndian(a.spec_to_big_endian()).bitor_spec(BigEndian(b.spec_to_big_endian())) == BigEndian((a | b).spec_to_big_endian()),
        BigEndian(a.spec_to_big_endian()).bitxor_spec(BigEndian(b.spec_to_big_endian())) == BigEndian((a ^ b).spec_to_big_endian()),
        BigEndian(a.spec_to_big_endian()).not_spec() == BigEndian((!a).spec_to_big_endian()),
        LittleEndian(a.spec_to_little_endian()).bitand_spec(LittleEndian(b.spec_to_little_endian())) == LittleEndian((a & b).spec_to_little_endian()),
        LittleEndian(a.spec_to_little_endian()).bitor_spec(LittleEndian(b.spec_to_little_endian())) == LittleEndian((a | b).spec_to_little_endian()),
        LittleEndian(a.spec_to_little_endian()).bitxor_spec(LittleEndian(b.spec_to_little_endian())) == LittleEndian((a ^ b).spec_to_little_endian()),
        LittleEndian(a.spec_to_little_endian()).not_spec() == LittleEndian((!a).spec_to_little_endian()),
{
    lemma_swap16_bitwise_signed(a, b);
}

/// `&`, `|`, `^` and `!` on the stored bits of `u32` values give the stored bits of the same
/// operation on their host-order values, in either byte order; so, on stored values,
/// `from(a) & from(b) == from(a & b)`, and likewise for `|`, `^` and `!`.
pub proof fn law_bitwise_u32(a: u32, b: u32)
    ensures
        BigEndian(a & b).spec_native() == (BigEndian(a).spec_native() & BigEndian(b).spec_native()),
        BigEndian(a ^ b).spec_native() == (BigEndian(a).spec_native() ^ BigEndian(b).spec_native()),
        BigEndian(a | b).spec_native() == (BigEndian(a).spec_native() | BigEndian(b).spec_native()),
        BigEndian(!a).spec_native() == !BigEndian(a).spec_native(),
        LittleEndian(a & b).spec_native() == (LittleEndian(a).spec_native() & LittleEndian(b).spec_native()),
        LittleEndian(a ^ b).spec_native() == (LittleEndian(a).spec_native() ^ LittleEndian(b).spec_native()),
        LittleEndian(a | b).spec_native() == (LittleEndian(a).spec_native() | LittleEndian(b).spec_native()),
        LittleEndian(!a).spec_native() == !LittleEndian(a).spec_native(),
        BigEndian(a.spec_to_big_endian()).bitand_spec(BigEndian(b.spec_to_big_endian())) == BigEndian((a & b).spec_to_big_endian()),
        BigEndian(a.spec_to_big_endian()).bitor_spec(BigEndian(b.spec_to_big_endian())) == BigEndian((a | b).spec_to_big_endian()),
        BigEndian(a.spec_to_big_endian()).bitxor_spec(BigEndian(b.spec_to_big_endian())) == BigEndian((a ^ b).spec_to_big_endian()),
        BigEndian(a.spec_to_big_endian()).not_spec() == BigEndian((!a).spec_to_big_endian()),
        LittleEndian(a.spec_to_little_endian()).bitand_spec(LittleEndian(b.spec_to_little_endian())) == LittleEndian((a & b).spec_to_little_endian()),
        LittleEndian(a.spec_to_little_endian()).bitor_spec(LittleEndian(b.spec_to_little_endian())) == LittleEndian((a | b).spec_to_little_endian()),
        LittleEndian(a.spec_to_little_endian()).bitxor_spec(LittleEndian(b.spec_to_little_endian())) == LittleEndian((a ^ b).spec_to_little_endian()),
        LittleEndian(a.spec_to_little_endian()).not_spec() == LittleEndian((!a).spec_to_little_endian()),
{
    lemma_swap32_bitwise(a, b);
}

/// `&`, `|`, `^` and `!` on the stored bits of `i32` values give the stored bits of the same
/// operation on their host-order values, in either byte order; so, on stored values,
/// `from(a) & from(b) == from(a & b)`, and likewise for `|`, `^` and `!`.
pub proof fn law_bitwise_i32(a: i32, b: i32)
    ensures
        BigEndian(a & b).spec_native() == (BigEndian(a).spec_native() & BigEndian(b).spec_native()),
        BigEndian(a ^ b).spec_native() == (BigEndian(a).spec_native() ^ BigEndian(b).spec_native()),
        BigEndian(a | b).spec_native() == (BigEndian(a).spec_native() | BigEndian(b).spec_native()),
        BigEndian(!a).spec_native() == !BigEndian(a).spec_native(),
        LittleEndian(a & b).spec_native() == (LittleEndian(a).spec_native() & LittleEndian(b).spec_native()),
        LittleEndian(a ^ b).spec_native() == (LittleEndian(a).spec_native() ^ LittleEndian(b).spec_native()),
        LittleEndian(a | b).spec_native() == (LittleEndian(a).spec_native() | LittleEndian(b).spec_native()),
        LittleEndian(!a).spec_native() == !LittleEndian(a).spec_native(),
        BigEndian(a.spec_to_big_endian()).bitand_spec(BigEndian(b.spec_to_big_endian())) == BigEndian((a & b).spec_to_big_endian()),
        BigEndian(a.spec_to_big_endian()).bitor_spec(BigEndian(b.spec_to_big_endian())) == BigEndian((a | b).spec_to_big_endian()),
        BigEndian(a.spec_to_big_endian()).bitxor_spec(BigEndian(b.spec_to_big_endian())) == BigEndian((a ^ b).spec_to_big_endian()),
        BigEndian(a.spec_to_big_endian()).not_spec() == BigEndian((!a).spec_to_big_endian()),
        LittleEndian(a.spec_to_little_endian()).bitand_spec(LittleEndian(b.spec_to_little_endian())) == LittleEndian((a & b).spec_to_little_endian()),
        LittleEndian(a.spec_to_little_endian()).bitor_spec(LittleEndian(b.spec_to_little_endian())) == LittleEndian((a | b).spec_to_little_endian()),
        LittleEndian(a.spec_to_little_endian()).bitxor_spec(LittleEndian(b.spec_to_little_endian())) == LittleEndian((a ^ b).spec_to_little_endian()),
        LittleEndian(a.spec_to_little_endian()).not_spec() == LittleEndian((!a).spec_to_little_endian()),
{
    lemma_swap32_bitwise_signed(a, b);
}

/// `&`, `|`, `^` and `!` on the stored bits of `u64` values give the stored bits of the same
/// operation on their host-order values, in either byte order; so, on stored values,
/// `from(a) & from(b) == from(a & b)`, and likewise for `|`, `^` and `!`.
pub proof fn law_bitwise_u64(a: u64, b: u64)
    ensures
        BigEndian(a & b).spec_native() == (BigEndian(a).spec_native() & BigEndian(b).spec_native()),
        BigEndian(a ^ b).spec_native() == (BigEndian(a).spec_native() ^ BigEndian(b).spec_native()),
        BigEndian(a | b).spec_native() == (BigEndian(a).spec_native() | BigEndian(b).spec_native()),
        BigEndian(!a).spec_native() == !BigEndian(a).spec_native(),
        LittleEndian(a & b).spec_native() == (LittleEndian(a).spec_native() & LittleEndian(b).spec_native()),
        LittleEndian(a ^ b).spec_native() == (LittleEndian(a).spec_native() ^ LittleEndian(b).spec_native()),
        LittleEndian(a | b).spec_native() == (LittleEndian(a).spec_native() | LittleEndian(b).spec_native()),
        LittleEndian(!a).spec_native() == !LittleEndian(a).spec_native(),
        BigEndian(a.spec_to_big_endian()).bitand_spec(BigEndian(b.spec_to_big_endian())) == BigEndian((a & b).spec_to_big_endian()),
        BigEndian(a.spec_to_big_endian()).bitor_spec(BigEndian(b.spec_to_big_endian())) == BigEndian((a | b).spec_to_big_endian()),
        BigEndian(a.spec_to_big_endian()).bitxor_spec(BigEndian(b.spec_to_big_endian())) == BigEndian((a ^ b).spec_to_big_endian()),
        BigEndian(a.spec_to_big_endian()).not_spec() == BigEndian((!a).spec_to_big_endian()),
        LittleEndian(a.spec_to_little_endian()).bitand_spec(LittleEndian(b.spec_to_little_endian())) == LittleEndian((a & b).spec_to_little_endian()),
        LittleEndian(a.spec_to_little_endian()).bitor_spec(LittleEndian(b.spec_to_little_endian())) == LittleEndian((a | b).spec_to_little_endian()),
        LittleEndian(a.spec_to_little_endian()).bitxor_spec(LittleEndian(b.spec_to_little_endian())) == LittleEndian((a ^ b).spec_to_little_endian()),
        LittleEndian(a.spec_to_little_endian()).not_spec() == LittleEndian((!a).spec_to_little_endian()),
{
    lemma_swap64_bitwise(a, b);
}

/// `&`, `|`, `^` and `!` on the stored bits of `i64` values give the stored bits of the same
/// operation on their host-order values, in either byte order; so, on stored values,
/// `from(a) & from(b) == from(a & b)`, and likewise for `|`, `^` and `!`.
pub proof fn law_bitwise_i64(a: i64, b: i64)
    ensures
        BigEndian(a & b).spec_native() == (BigEndian(a).spec_native() & BigEndian(b).spec_native()),
        BigEndian(a ^ b).spec_native() == (BigEndian(a).spec_native() ^ BigEndian(b).spec_native()),
        BigEndian(a | b).spec_native() == (BigEndian(a).spec_native() | BigEndian(b).spec_native()),
        BigEndian(!a).spec_native() == !BigEndian(a).spec_native(),
        LittleEndian(a & b).spec_native() == (LittleEndian(a).spec_native() & LittleEndian(b).spec_native()),
        LittleEndian(a ^ b).spec_native() == (LittleEndian(a).spec_native() ^ LittleEndian(b).spec_native()),
        LittleEndian(a | b).spec_native() == (LittleEndian(a).spec_native() | LittleEndian(b).spec_native()),
        LittleEndian(!a).spec_native() == !LittleEndian(a).spec_native(),
        BigEndian(a.spec_to_big_endian()).bitand_spec(BigEndian(b.spec_to_big_endian())) == BigEndian((a & b).spec_to_big_endian()),
        BigEndian(a.spec_to_big_endian()).bitor_spec(BigEndian(b.spec_to_big_endian())) == BigEndian((a | b).spec_to_big_endian()),
        BigEndian(a.spec_to_big_endian()).bitxor_spec(BigEndian(b.spec_to_big_endian())) == BigEndian((a ^ b).spec_to_big_endian()),
        BigEndian(a.spec_to_big_endian()).not_spec() == BigEndian((!a).spec_to_big_endian()),
        LittleEndian(a.spec_to_little_endian()).bitand_spec(LittleEndian(b.spec_to_little_endian())) == LittleEndian((a & b).spec_to_little_endian()),
        LittleEndian(a.spec_to_little_endian()).bitor_spec(LittleEndian(b.spec_to_little_endian())) == LittleEndian((a | b).spec_to_little_endian()),
        LittleEndian(a.spec_to_little_endian()).bitxor_spec(LittleEndian(b.spec_to_little_endian())) == LittleEndian((a ^ b).spec_to_little_endian()),
        LittleEndian(a.spec_to_little_endian()).not_spec() == LittleEndian((!a).spec_to_little_endian()),
{
    lemma_swap64_bitwise_signed(a, b);
}

/// `&`, `|`, `^` and `!` on the stored bits of `u128` values give the stored bits of the same
/// operation on their host-order values, in either byte order; so, on stored values,
/// `from(a) & from(b) == from(a & b)`, and likewise for `|`, `^` and `!`.
pub proof fn law_bitwise_u128(a: u128, b: u128)
    ensures
        BigEndian(a & b).spec_native() == (BigEndian(a).spec_native() & BigEndian(b).spec_native()),
        BigEndian(a ^ b).spec_native() == (BigEndian(a).spec_native() ^ BigEndian(b).spec_native()),
        BigEndian(a | b).spec_native() == (BigEndian(a).spec_native() | BigEndian(b).spec_native()),
        BigEndian(!a).spec_native() == !BigEndian(a).spec_native(),
        LittleEndian(a & b).spec_native() == (LittleEndian(a).spec_native() & LittleEndian(b).spec_native()),
        LittleEndian(a ^ b).spec_native() == (LittleEndian(a).spec_native() ^ LittleEndian(b).spec_native()),
        LittleEndian(a | b).spec_native() == (LittleEndian(a).spec_native() | LittleEndian(b).spec_native()),
        LittleEndian(!a).spec_native() == !LittleEndian(a).spec_native(),
        BigEndian(a.spec_to_big_endian()).bitand_spec(BigEndian(b.spec_to_big_endian())) == BigEndian((a & b).spec_to_big_endian()),
        BigEndian(a.spec_to_big_endian()).bitor_spec(BigEndian(b.spec_to_big_endian())) == BigEndian((a | b).spec_to_big_endian()),
        BigEndian(a.spec_to_big_endian()).bitxor_spec(BigEndian(b.spec_to_big_endian())) == BigEndian((a ^ b).spec_to_big_endian()),
        BigEndian(a.spec_to_big_endian()).not_spec() == BigEndian((!a).spec_to_big_endian()),
        LittleEndian(a.spec_to_little_endian()).bitand_spec(LittleEndian(b.spec_to_little_endian())) == LittleEndian((a & b).spec_to_little_endian()),
        LittleEndian(a.spec_to_little_endian()).bitor_spec(LittleEndian(b.spec_to_little_endian())) == LittleEndian((a | b).spec_to_little_endian()),
        LittleEndian(a.spec_to_little_endian()).bitxor_spec(LittleEndian(b.spec_to_little_endian())) == LittleEndian((a ^ b).spec_to_little_endian()),
        LittleEndian(a.spec_to_little_endian()).not_spec() == LittleEndian((!a).spec_to_little_endian()),
{
    lemma_swap128_bitwise(a, b);
}

/// `&`, `|`, `^` and `!` on the stored bits of `i128` values give the stored bits of the same
/// operation on their host-order values, in either byte order; so, on stored values,
/// `from(a) & from(b) == from(a & b)`, and likewise for `|`, `^` and `!`.
pub proof fn law_bitwise_i128(a: i128, b: i128)
    ensures
        BigEndian(a & b).spec_native() == (BigEndian(a).spec_native() & BigEndian(b).spec_native()),
        BigEndian(a ^ b).spec_native() == (BigEndian(a).spec_native() ^ BigEndian(b).spec_native()),
        BigEndian(a | b).spec_native() == (BigEndian(a).spec_native() | BigEndian(b).spec_native()),
        BigEndian(!a).spec_native() == !BigEndian(a).spec_native(),
        LittleEndian(a & b).spec_native() == (LittleEndian(a).spec_native() & LittleEndian(b).spec_native()),
        LittleEndian(a ^ b).spec_native() == (LittleEndian(a).spec_native() ^ LittleEndian(b).spec_native()),
        LittleEndian(a | b).spec_native() == (LittleEndian(a).spec_native() | LittleEndian(b).spec_native()),
        LittleEndian(!a).spec_native() == !LittleEndian(a).spec_native(),
        BigEndian(a.spec_to_big_endian()).bitand_spec(BigEndian(b.spec_to_big_endian())) == BigEndian((a & b).spec_to_big_endian()),
        BigEndian(a.spec_to_big_endian()).bitor_spec(BigEndian(b.spec_to_big_endian())) == BigEndian((a | b).spec_to_big_endian()),
        BigEndian(a.spec_to_big_endian()).bitxor_spec(BigEndian(b.spec_to_big_endian())) == BigEndian((a ^ b).spec_to_big_endian()),
        BigEndian(a.spec_to_big_endian()).not_spec() == BigEndian((!a).spec_to_big_endian()),
        LittleEndian(a.spec_to_little_endian()).bitand_spec(LittleEndian(b.spec_to_little_endian())) == LittleEndian((a & b).spec_to_little_endian()),
        LittleEndian(a.spec_to_little_endian()).bitor_spec(LittleEndian(b.spec_to_little_endian())) == LittleEndian((a | b).spec_to_little_endian()),
        LittleEndian(a.spec_to_little_endian()).bitxor_spec(LittleEndian(b.spec_to_little_endian())) == LittleEndian((a ^ b).spec_to_little_endian()),
        LittleEndian(a.spec_to_little_endian()).not_spec() == LittleEndian((!a).spec_to_little_endian()),
{
    lemma_swap128_bitwise_signed(a, b);
}

/// `&`, `|`, `^` and `!` on the stored bits of `usize` values give the stored bits of the same
/// operation on their host-order values, in either byte order; so, on stored values,
/// `from(a) & from(b) == from(a & b)`, and likewise for `|`, `^` and `!`.
pub proof fn law_bitwise_usize(a: usize, b: usize)
    ensures
        BigEndian(a & b).spec_native() == (BigEndian(a).spec_native() & BigEndian(b).spec_native()),
        BigEndian(a ^ b).spec_native() == (BigEndian(a).spec_native() ^ BigEndian(b).spec_native()),
        BigEndian(a | b).spec_native() == (BigEndian(a).spec_native() | BigEndian(b).spec_native()),
        BigEndian(!a).spec_native() == !BigEndian(a).spec_native(),
        LittleEndian(a & b).spec_native() == (LittleEndian(a).spec_native() & LittleEndian(b).spec_native()),
        LittleEndian(a ^ b).spec_native() == (LittleEndian(a).spec_native() ^ LittleEndian(b).spec_native()),
        LittleEndian(a | b).spec_native() == (LittleEndian(a).spec_native() | LittleEndian(b).spec_native()),
        LittleEndian(!a).spec_native() == !LittleEndian(a).spec_native(),
        BigEndian(a.spec_to_big_endian()).bitand_spec(BigEndian(b.spec_to_big_endian())) == BigEndian((a & b).spec_to_big_endian()),
        BigEndian(a.spec_to_big_endian()).bitor_spec(BigEndian(b.spec_to_big_endian())) == BigEndian((a | b).spec_to_big_endian()),
        BigEndian(a.spec_to_big_endian()).bitxor_spec(BigEndian(b.spec_to_big_endian())) == BigEndian((a ^ b).spec_to_big_endian()),
        BigEndian(a.spec_to_big_endian()).not_spec() == BigEndian((!a).spec_to_big_endian()),
        LittleEndian(a.spec_to_little_endian()).bitand_spec(LittleEndian(b.spec_to_little_endian())) == LittleEndian((a & b).spec_to_little_endian()),
        LittleEndian(a.spec_to_little_endian()).bitor_spec(LittleEndian(b.spec_to_little_endian())) == LittleEndian((a | b).spec_to_little_endian()),
        LittleEndian(a.spec_to_little_endian()).bitxor_spec(LittleEndian(b.spec_to_little_endian())) == LittleEndian((a ^ b).spec_to_little_endian()),
        LittleEndian(a.spec_to_little_endian()).not_spec() == LittleEndian((!a).spec_to_little_endian()),
{
    lemma_swap_usize_bitwise(a, b);
}

/// `&`, `|`, `^` and `!` on the stored bits of `isize` values give the stored bits of the same
/// operation on their host-order values, in either byte order; so, on stored values,
/// `from(a) & from(b) == from(a & b)`, and likewise for `|`, `^` and `!`.
pub proof fn law_bitwise_isize(a: isize, b: isize)
    ensures
        BigEndian(a & b).spec_native() == (BigEndian(a).spec_native() & BigEndian(b).spec_native()),
        BigEndian(a ^ b).spec_native() == (BigEndian(a).spec_native() ^ BigEndian(b).spec_native()),
        BigEndian(a | b).spec_native() == (BigEndian(a).spec_native() | BigEndian(b).spec_native()),
        BigEndian(!a).spec_native() == !BigEndian(a).spec_native(),
        LittleEndian(a & b).spec_native() == (LittleEndian(a).spec_native() & LittleEndian(b).spec_native()),
        LittleEndian(a ^ b).spec_native() == (LittleEndian(a).spec_native() ^ LittleEndian(b).spec_native()),
        LittleEndian(a | b).spec_native() == (LittleEndian(a).spec_native() | LittleEndian(b).spec_native()),
        LittleEndian(!a).spec_native() == !LittleEndian(a).spec_native(),
        BigEndian(a.spec_to_big_endian()).bitand_spec(BigEndian(b.spec_to_big_endian())) == BigEndian((a & b).spec_to_big_endian()),
        BigEndian(a.spec_to_big_endian()).bitor_spec(BigEndian(b.spec_to_big_endian())) == BigEndian((a | b).spec_to_big_endian()),
        BigEndian(a.spec_to_big_endian()).bitxor_spec(BigEndian(b.spec_to_big_endian())) == BigEndian((a ^ b).spec_to_big_endian()),
        BigEndian(a.spec_to_big_endian()).not_spec() == BigEndian((!a).spec_to_big_endian()),
        LittleEndian(a.spec_to_little_endian()).bitand_spec(LittleEndian(b.spec_to_little_endian())) == LittleEndian((a & b).spec_to_little_endian()),
        LittleEndian(a.spec_to_little_endian()).bitor_spec(LittleEndian(b.spec_to_little_endian())) == LittleEndian((a | b).spec_to_little_endian()),
        LittleEndian(a.spec_to_little_endian()).bitxor_spec(LittleEndian(b.spec_to_little_endian())) == LittleEndian((a ^ b).spec_to_little_endian()),
        LittleEndian(a.spec_to_little_endian()).not_spec() == LittleEndian((!a).spec_to_little_endian()),
{
    lemma_swap_usize_bitwise_signed(a, b);
}

} // verus!
