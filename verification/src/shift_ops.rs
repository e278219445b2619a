//! Shift operations on endian-tagged integers. They convert to host order, shift, and store
//! the result again.
use vstd::prelude::*;

use core::ops::{Shl, ShlAssign, Shr, ShrAssign};
use vstd::std_specs::ops::{ShlSpec, ShrSpec};

use crate::specific_endian::{
    BigEndian, LittleEndian, SpecificEndian, law_round_trip_i128, law_round_trip_i16,
    law_round_trip_i32, law_round_trip_i64, law_round_trip_i8, law_round_trip_isize,
    law_round_trip_u128, law_round_trip_u16, law_round_trip_u32, law_round_trip_u64,
    law_round_trip_u8, law_round_trip_usize,
};

verus! {

impl Shl for BigEndian<u8> {
    type Output = BigEndian<u8>;

    /// Shifts the host-order value and stores the result.
    fn shl(self, other: BigEndian<u8>) -> (r: BigEndian<u8>) {
        BigEndian::from(self.to_native() << other.to_native())
    }
}

impl vstd::std_specs::ops::ShlSpecImpl for BigEndian<u8> {
    open spec fn obeys_shl_spec() -> bool {
        true
    }

    /// The shift amount is below the width, as Rust demands.
    open spec fn shl_req(self, rhs: BigEndian<u8>) -> bool {
        rhs.spec_native() < 8
    }

    open spec fn shl_spec(self, rhs: BigEndian<u8>) -> BigEndian<u8> {
        BigEndian((self.spec_native() << rhs.spec_native()).spec_to_big_endian())
    }
}

impl ShlAssign for BigEndian<u8> {
    /// Shifts the host-order value in place.
    fn shl_assign(&mut self, rhs: BigEndian<u8>)
        requires
            rhs.spec_native() < 8,
        ensures
            *final(self) == BigEndian((old(self).spec_native() << rhs.spec_native()).spec_to_big_endian()),
    {
        *self = BigEndian::from(self.to_native() << rhs.to_native());
    }
}

impl Shr for BigEndian<u8> {
    type Output = BigEndian<u8>;

    /// Shifts the host-order value and stores the result.
    fn shr(self, other: BigEndian<u8>) -> (r: BigEndian<u8>) {
        BigEndian::from(self.to_native() >> other.to_native())
    }
}

impl vstd::std_specs::ops::ShrSpecImpl for BigEndian<u8> {
    open spec fn obeys_shr_spec() -> bool {
        true
    }

    /// The shift amount is below the width, as Rust demands.
    open spec fn shr_req(self, rhs: BigEndian<u8>) -> bool {
        rhs.spec_native() < 8
    }

    open spec fn shr_spec(self, rhs: BigEndian<u8>) -> BigEndian<u8> {
        BigEndian((self.spec_native() >> rhs.spec_native()).spec_to_big_endian())
    }
}

impl ShrAssign for BigEndian<u8> {
    /// Shifts the host-order value in place.
    fn shr_assign(&mut self, rhs: BigEndian<u8>)
        requires
            rhs.spec_native() < 8,
        ensures
            *final(self) == BigEndian((old(self).spec_native() >> rhs.spec_native()).spec_to_big_endian()),
    {
        *self = BigEndian::from(self.to_native() >> rhs.to_native());
    }
}

impl Shl for BigEndian<i8> {
    type Output = BigEndian<i8>;

    /// Shifts the host-order value and stores the result.
    fn shl(self, other: BigEndian<i8>) -> (r: BigEndian<i8>) {
        BigEndian::from(self.to_native() << other.to_native())
    }
}

impl vstd::std_specs::ops::ShlSpecImpl for BigEndian<i8> {
    open spec fn obeys_shl_spec() -> bool {
        true
    }

    /// The shift amount is below the width, as Rust demands.
    open spec fn shl_req(self, rhs: BigEndian<i8>) -> bool {
        0 <= rhs.spec_native() < 8
    }

    open spec fn shl_spec(self, rhs: BigEndian<i8>) -> BigEndian<i8> {
        BigEndian((self.spec_native() << rhs.spec_native()).spec_to_big_endian())
    }
}

impl ShlAssign for BigEndian<i8> {
    /// Shifts the host-order value in place.
    fn shl_assign(&mut self, rhs: BigEndian<i8>)
        requires
            0 <= rhs.spec_native() < 8,
        ensures
            *final(self) == BigEndian((old(self).spec_native() << rhs.spec_native()).spec_to_big_endian()),
    {
        *self = BigEndian::from(self.to_native() << rhs.to_native());
    }
}

impl Shr for BigEndian<i8> {
    type Output = BigEndian<i8>;

    /// Shifts the host-order value and stores the result.
    fn shr(self, other: BigEndian<i8>) -> (r: BigEndian<i8>) {
        BigEndian::from(self.to_native() >> other.to_native())
    }
}

impl vstd::std_specs::ops::ShrSpecImpl for BigEndian<i8> {
    open spec fn obeys_shr_spec() -> bool {
        true
    }

    /// The shift amount is below the width, as Rust demands.
    open spec fn shr_req(self, rhs: BigEndian<i8>) -> bool {
        0 <= rhs.spec_native() < 8
    }

    open spec fn shr_spec(self, rhs: BigEndian<i8>) -> BigEndian<i8> {
        BigEndian((self.spec_native() >> rhs.spec_native()).spec_to_big_endian())
    }
}

impl ShrAssign for BigEndian<i8> {
    /// Shifts the host-order value in place.
    fn shr_assign(&mut self, rhs: BigEndian<i8>)
        requires
            0 <= rhs.spec_native() < 8,
        ensures
            *final(self) == BigEndian((old(self).spec_native() >> rhs.spec_native()).spec_to_big_endian()),
    {
        *self = BigEndian::from(self.to_native() >> rhs.to_native());
    }
}

impl Shl for BigEndian<u16> {
    type Output = BigEndian<u16>;

    /// Shifts the host-order value and stores the result.
    fn shl(self, other: BigEndian<u16>) -> (r: BigEndian<u16>) {
        BigEndian::from(self.to_native() << other.to_native())
    }
}

impl vstd::std_specs::ops::ShlSpecImpl for BigEndian<u16> {
    open spec fn obeys_shl_spec() -> bool {
        true
    }

    /// The shift amount is below the width, as Rust demands.
    open spec fn shl_req(self, rhs: BigEndian<u16>) -> bool {
        rhs.spec_native() < 16
    }

    open spec fn shl_spec(self, rhs: BigEndian<u16>) -> BigEndian<u16> {
        BigEndian((self.spec_native() << rhs.spec_native()).spec_to_big_endian())
    }
}

impl ShlAssign for BigEndian<u16> {
    /// Shifts the host-order value in place.
    fn shl_assign(&mut self, rhs: BigEndian<u16>)
        requires
            rhs.spec_native() < 16,
        ensures
            *final(self) == BigEndian((old(self).spec_native() << rhs.spec_native()).spec_to_big_endian()),
    {
        *self = BigEndian::from(self.to_native() << rhs.to_native());
    }
}

impl Shr for BigEndian<u16> {
    type Output = BigEndian<u16>;

    /// Shifts the host-order value and stores the result.
    fn shr(self, other: BigEndian<u16>) -> (r: BigEndian<u16>) {
        BigEndian::from(self.to_native() >> other.to_native())
    }
}

impl vstd::std_specs::ops::ShrSpecImpl for BigEndian<u16> {
    open spec fn obeys_shr_spec() -> bool {
        true
    }

    /// The shift amount is below the width, as Rust demands.
    open spec fn shr_req(self, rhs: BigEndian<u16>) -> bool {
        rhs.spec_native() < 16
    }

    open spec fn shr_spec(self, rhs: BigEndian<u16>) -> BigEndian<u16> {
        BigEndian((self.spec_native() >> rhs.spec_native()).spec_to_big_endian())
    }
}

impl ShrAssign for BigEndian<u16> {
    /// Shifts the host-order value in place.
    fn shr_assign(&mut self, rhs: BigEndian<u16>)
        requires
            rhs.spec_native() < 16,
        ensures
            *final(self) == BigEndian((old(self).spec_native() >> rhs.spec_native()).spec_to_big_endian()),
    {
        *self = BigEndian::from(self.to_native() >> rhs.to_native());
    }
}

impl Shl for BigEndian<i16> {
    type Output = BigEndian<i16>;

    /// Shifts the host-order value and stores the result.
    fn shl(self, other: BigEndian<i16>) -> (r: BigEndian<i16>) {
        BigEndian::from(self.to_native() << other.to_native())
    }
}

impl vstd::std_specs::ops::ShlSpecImpl for BigEndian<i16> {
    open spec fn obeys_shl_spec() -> bool {
        true
    }

    /// The shift amount is below the width, as Rust demands.
    open spec fn shl_req(self, rhs: BigEndian<i16>) -> bool {
        0 <= rhs.spec_native() < 16
    }

    open spec fn shl_spec(self, rhs: BigEndian<i16>) -> BigEndian<i16> {
        BigEndian((self.spec_native() << rhs.spec_native()).spec_to_big_endian())
    }
}

impl ShlAssign for BigEndian<i16> {
    /// Shifts the host-order value in place.
    fn shl_assign(&mut self, rhs: BigEndian<i16>)
        requires
            0 <= rhs.spec_native() < 16,
        ensures
            *final(self) == BigEndian((old(self).spec_native() << rhs.spec_native()).spec_to_big_endian()),
    {
        *self = BigEndian::from(self.to_native() << rhs.to_native());
    }
}

impl Shr for BigEndian<i16> {
    type Output = BigEndian<i16>;

    /// Shifts the host-order value and stores the result.
    fn shr(self, other: BigEndian<i16>) -> (r: BigEndian<i16>) {
        BigEndian::from(self.to_native() >> other.to_native())
    }
}

impl vstd::std_specs::ops::ShrSpecImpl for BigEndian<i16> {
    open spec fn obeys_shr_spec() -> bool {
        true
    }

    /// The shift amount is below the width, as Rust demands.
    open spec fn shr_req(self, rhs: BigEndian<i16>) -> bool {
        0 <= rhs.spec_native() < 16
    }

    open spec fn shr_spec(self, rhs: BigEndian<i16>) -> BigEndian<i16> {
        BigEndian((self.spec_native() >> rhs.spec_native()).spec_to_big_endian())
    }
}

impl ShrAssign for BigEndian<i16> {
    /// Shifts the host-order value in place.
    fn shr_assign(&mut self, rhs: BigEndian<i16>)
        requires
            0 <= rhs.spec_native() < 16,
        ensures
            *final(self) == BigEndian((old(self).spec_native() >> rhs.spec_native()).spec_to_big_endian()),
    {
        *self = BigEndian::from(self.to_native() >> rhs.to_native());
    }
}

impl Shl for BigEndian<u32> {
    type Output = BigEndian<u32>;

    /// Shifts the host-order value and stores the result.
    fn shl(self, other: BigEndian<u32>) -> (r: BigEndian<u32>) {
        BigEndian::from(self.to_native() << other.to_native())
    }
}

impl vstd::std_specs::ops::ShlSpecImpl for BigEndian<u32> {
    open spec fn obeys_shl_spec() -> bool {
        true
    }

    /// The shift amount is below the width, as Rust demands.
    open spec fn shl_req(self, rhs: BigEndian<u32>) -> bool {
        rhs.spec_native() < 32
    }

    open spec fn shl_spec(self, rhs: BigEndian<u32>) -> BigEndian<u32> {
        BigEndian((self.spec_native() << rhs.spec_native()).spec_to_big_endian())
    }
}

impl ShlAssign for BigEndian<u32> {
    /// Shifts the host-order value in place.
    fn shl_assign(&mut self, rhs: BigEndian<u32>)
        requires
            rhs.spec_native() < 32,
        ensures
            *final(self) == BigEndian((old(self).spec_native() << rhs.spec_native()).spec_to_big_endian()),
    {
        *self = BigEndian::from(self.to_native() << rhs.to_native());
    }
}

impl Shr for BigEndian<u32> {
    type Output = BigEndian<u32>;

    /// Shifts the host-order value and stores the result.
    fn shr(self, other: BigEndian<u32>) -> (r: BigEndian<u32>) {
        BigEndian::from(self.to_native() >> other.to_native())
    }
}

impl vstd::std_specs::ops::ShrSpecImpl for BigEndian<u32> {
    open spec fn obeys_shr_spec() -> bool {
        true
    }

    /// The shift amount is below the width, as Rust demands.
    open spec fn shr_req(self, rhs: BigEndian<u32>) -> bool {
        rhs.spec_native() < 32
    }

    open spec fn shr_spec(self, rhs: BigEndian<u32>) -> BigEndian<u32> {
        BigEndian((self.spec_native() >> rhs.spec_native()).spec_to_big_endian())
    }
}

impl ShrAssign for BigEndian<u32> {
    /// Shifts the host-order value in place.
    fn shr_assign(&mut self, rhs: BigEndian<u32>)
        requires
            rhs.spec_native() < 32,
        ensures
            *final(self) == BigEndian((old(self).spec_native() >> rhs.spec_native()).spec_to_big_endian()),
    {
        *self = BigEndian::from(self.to_native() >> rhs.to_native());
    }
}

impl Shl for BigEndian<i32> {
    type Output = BigEndian<i32>;

    /// Shifts the host-order value and stores the result.
    fn shl(self, other: BigEndian<i32>) -> (r: BigEndian<i32>) {
        BigEndian::from(self.to_native() << other.to_native())
    }
}

impl vstd::std_specs::ops::ShlSpecImpl for BigEndian<i32> {
    open spec fn obeys_shl_spec() -> bool {
        true
    }

    /// The shift amount is below the width, as Rust demands.
    open spec fn shl_req(self, rhs: BigEndian<i32>) -> bool {
        0 <= rhs.spec_native() < 32
    }

    open spec fn shl_spec(self, rhs: BigEndian<i32>) -> BigEndian<i32> {
        BigEndian((self.spec_native() << rhs.spec_native()).spec_to_big_endian())
    }
}

impl ShlAssign for BigEndian<i32> {
    /// Shifts the host-order value in place.
    fn shl_assign(&mut self, rhs: BigEndian<i32>)
        requires
            0 <= rhs.spec_native() < 32,
        ensures
            *final(self) == BigEndian((old(self).spec_native() << rhs.spec_native()).spec_to_big_endian()),
    {
        *self = BigEndian::from(self.to_native() << rhs.to_native());
    }
}

impl Shr for BigEndian<i32> {
    type Output = BigEndian<i32>;

    /// Shifts the host-order value and stores the result.
    fn shr(self, other: BigEndian<i32>) -> (r: BigEndian<i32>) {
        BigEndian::from(self.to_native() >> other.to_native())
    }
}

impl vstd::std_specs::ops::ShrSpecImpl for BigEndian<i32> {
    open spec fn obeys_shr_spec() -> bool {
        true
    }

    /// The shift amount is below the width, as Rust demands.
    open spec fn shr_req(self, rhs: BigEndian<i32>) -> bool {
        0 <= rhs.spec_native() < 32
    }

    open spec fn shr_spec(self, rhs: BigEndian<i32>) -> BigEndian<i32> {
        BigEndian((self.spec_native() >> rhs.spec_native()).spec_to_big_endian())
    }
}

impl ShrAssign for BigEndian<i32> {
    /// Shifts the host-order value in place.
    fn shr_assign(&mut self, rhs: BigEndian<i32>)
        requires
            0 <= rhs.spec_native() < 32,
        ensures
            *final(self) == BigEndian((old(self).spec_native() >> rhs.spec_native()).spec_to_big_endian()),
    {
        *self = BigEndian::from(self.to_native() >> rhs.to_native());
    }
}

impl Shl for BigEndian<u64> {
    type Output = BigEndian<u64>;

    /// Shifts the host-order value and stores the result.
    fn shl(self, other: BigEndian<u64>) -> (r: BigEndian<u64>) {
        BigEndian::from(self.to_native() << other.to_native())
    }
}

impl vstd::std_specs::ops::ShlSpecImpl for BigEndian<u64> {
    open spec fn obeys_shl_spec() -> bool {
        true
    }

    /// The shift amount is below the width, as Rust demands.
    open spec fn shl_req(self, rhs: BigEndian<u64>) -> bool {
        rhs.spec_native() < 64
    }

    open spec fn shl_spec(self, rhs: BigEndian<u64>) -> BigEndian<u64> {
        BigEndian((self.spec_native() << rhs.spec_native()).spec_to_big_endian())
    }
}

impl ShlAssign for BigEndian<u64> {
    /// Shifts the host-order value in place.
    fn shl_assign(&mut self, rhs: BigEndian<u64>)
        requires
            rhs.spec_native() < 64,
        ensures
            *final(self) == BigEndian((old(self).spec_native() << rhs.spec_native()).spec_to_big_endian()),
    {
        *self = BigEndian::from(self.to_native() << rhs.to_native());
    }
}

impl Shr for BigEndian<u64> {
    type Output = BigEndian<u64>;

    /// Shifts the host-order value and stores the result.
    fn shr(self, other: BigEndian<u64>) -> (r: BigEndian<u64>) {
        BigEndian::from(self.to_native() >> other.to_native())
    }
}

impl vstd::std_specs::ops::ShrSpecImpl for BigEndian<u64> {
    open spec fn obeys_shr_spec() -> bool {
        true
    }

    /// The shift amount is below the width, as Rust demands.
    open spec fn shr_req(self, rhs: BigEndian<u64>) -> bool {
        rhs.spec_native() < 64
    }

    open spec fn shr_spec(self, rhs: BigEndian<u64>) -> BigEndian<u64> {
        BigEndian((self.spec_native() >> rhs.spec_native()).spec_to_big_endian())
    }
}

impl ShrAssign for BigEndian<u64> {
    /// Shifts the host-order value in place.
    fn shr_assign(&mut self, rhs: BigEndian<u64>)
        requires
            rhs.spec_native() < 64,
        ensures
            *final(self) == BigEndian((old(self).spec_native() >> rhs.spec_native()).spec_to_big_endian()),
    {
        *self = BigEndian::from(self.to_native() >> rhs.to_native());
    }
}

impl Shl for BigEndian<i64> {
    type Output = BigEndian<i64>;

    /// Shifts the host-order value and stores the result.
    fn shl(self, other: BigEndian<i64>) -> (r: BigEndian<i64>) {
        BigEndian::from(self.to_native() << other.to_native())
    }
}

impl vstd::std_specs::ops::ShlSpecImpl for BigEndian<i64> {
    open spec fn obeys_shl_spec() -> bool {
        true
    }

    /// The shift amount is below the width, as Rust demands.
    open spec fn shl_req(self, rhs: BigEndian<i64>) -> bool {
        0 <= rhs.spec_native() < 64
    }

    open spec fn shl_spec(self, rhs: BigEndian<i64>) -> BigEndian<i64> {
        BigEndian((self.spec_native() << rhs.spec_native()).spec_to_big_endian())
    }
}

impl ShlAssign for BigEndian<i64> {
    /// Shifts the host-order value in place.
    fn shl_assign(&mut self, rhs: BigEndian<i64>)
        requires
            0 <= rhs.spec_native() < 64,
        ensures
            *final(self) == BigEndian((old(self).spec_native() << rhs.spec_native()).spec_to_big_endian()),
    {
        *self = BigEndian::from(self.to_native() << rhs.to_native());
    }
}

impl Shr for BigEndian<i64> {
    type Output = BigEndian<i64>;

    /// Shifts the host-order value and stores the result.
    fn shr(self, other: BigEndian<i64>) -> (r: BigEndian<i64>) {
        BigEndian::from(self.to_native() >> other.to_native())
    }
}

impl vstd::std_specs::ops::ShrSpecImpl for BigEndian<i64> {
    open spec fn obeys_shr_spec() -> bool {
        true
    }

    /// The shift amount is below the width, as Rust demands.
    open spec fn shr_req(self, rhs: BigEndian<i64>) -> bool {
        0 <= rhs.spec_native() < 64
    }

    open spec fn shr_spec(self, rhs: BigEndian<i64>) -> BigEndian<i64> {
        BigEndian((self.spec_native() >> rhs.spec_native()).spec_to_big_endian())
    }
}

impl ShrAssign for BigEndian<i64> {
    /// Shifts the host-order value in place.
    fn shr_assign(&mut self, rhs: BigEndian<i64>)
        requires
            0 <= rhs.spec_native() < 64,
        ensures
            *final(self) == BigEndian((old(self).spec_native() >> rhs.spec_native()).spec_to_big_endian()),
    {
        *self = BigEndian::from(self.to_native() >> rhs.to_native());
    }
}

impl Shl for BigEndian<u128> {
    type Output = BigEndian<u128>;

    /// Shifts the host-order value and stores the result.
    fn shl(self, other: BigEndian<u128>) -> (r: BigEndian<u128>) {
        BigEndian::from(self.to_native() << other.to_native())
    }
}

impl vstd::std_specs::ops::ShlSpecImpl for BigEndian<u128> {
    open spec fn obeys_shl_spec() -> bool {
        true
    }

    /// The shift amount is below the width, as Rust demands.
    open spec fn shl_req(self, rhs: BigEndian<u128>) -> bool {
        rhs.spec_native() < 128
    }

    open spec fn shl_spec(self, rhs: BigEndian<u128>) -> BigEndian<u128> {
        BigEndian((self.spec_native() << rhs.spec_native()).spec_to_big_endian())
    }
}

impl ShlAssign for BigEndian<u128> {
    /// Shifts the host-order value in place.
    fn shl_assign(&mut self, rhs: BigEndian<u128>)
        requires
            rhs.spec_native() < 128,
        ensures
            *final(self) == BigEndian((old(self).spec_native() << rhs.spec_native()).spec_to_big_endian()),
    {
        *self = BigEndian::from(self.to_native() << rhs.to_native());
    }
}

impl Shr for BigEndian<u128> {
    type Output = BigEndian<u128>;

    /// Shifts the host-order value and stores the result.
    fn shr(self, other: BigEndian<u128>) -> (r: BigEndian<u128>) {
        BigEndian::from(self.to_native() >> other.to_native())
    }
}

impl vstd::std_specs::ops::ShrSpecImpl for BigEndian<u128> {
    open spec fn obeys_shr_spec() -> bool {
        true
    }

    /// The shift amount is below the width, as Rust demands.
    open spec fn shr_req(self, rhs: BigEndian<u128>) -> bool {
        rhs.spec_native() < 128
    }

    open spec fn shr_spec(self, rhs: BigEndian<u128>) -> BigEndian<u128> {
        BigEndian((self.spec_native() >> rhs.spec_native()).spec_to_big_endian())
    }
}

impl ShrAssign for BigEndian<u128> {
    /// Shifts the host-order value in place.
    fn shr_assign(&mut self, rhs: BigEndian<u128>)
        requires
            rhs.spec_native() < 128,
        ensures
            *final(self) == BigEndian((old(self).spec_native() >> rhs.spec_native()).spec_to_big_endian()),
    {
        *self = BigEndian::from(self.to_native() >> rhs.to_native());
    }
}

impl Shl for BigEndian<i128> {
    type Output = BigEndian<i128>;

    /// Shifts the host-order value and stores the result.
    fn shl(self, other: BigEndian<i128>) -> (r: BigEndian<i128>) {
        BigEndian::from(self.to_native() << other.to_native())
    }
}

impl vstd::std_specs::ops::ShlSpecImpl for BigEndian<i128> {
    open spec fn obeys_shl_spec() -> bool {
        true
    }

    /// The shift amount is below the width, as Rust demands.
    open spec fn shl_req(self, rhs: BigEndian<i128>) -> bool {
        0 <= rhs.spec_native() < 128
    }

    open spec fn shl_spec(self, rhs: BigEndian<i128>) -> BigEndian<i128> {
        BigEndian((self.spec_native() << rhs.spec_native()).spec_to_big_endian())
    }
}

impl ShlAssign for BigEndian<i128> {
    /// Shifts the host-order value in place.
    fn shl_assign(&mut self, rhs: BigEndian<i128>)
        requires
            0 <= rhs.spec_native() < 128,
        ensures
            *final(self) == BigEndian((old(self).spec_native() << rhs.spec_native()).spec_to_big_endian()),
    {
        *self = BigEndian::from(self.to_native() << rhs.to_native());
    }
}

impl Shr for BigEndian<i128> {
    type Output = BigEndian<i128>;

    /// Shifts the host-order value and stores the result.
    fn shr(self, other: BigEndian<i128>) -> (r: BigEndian<i128>) {
        BigEndian::from(self.to_native() >> other.to_native())
    }
}

impl vstd::std_specs::ops::ShrSpecImpl for BigEndian<i128> {
    open spec fn obeys_shr_spec() -> bool {
        true
    }

    /// The shift amount is below the width, as Rust demands.
    open spec fn shr_req(self, rhs: BigEndian<i128>) -> bool {
        0 <= rhs.spec_native() < 128
    }

    open spec fn shr_spec(self, rhs: BigEndian<i128>) -> BigEndian<i128> {
        BigEndian((self.spec_native() >> rhs.spec_native()).spec_to_big_endian())
    }
}

impl ShrAssign for BigEndian<i128> {
    /// Shifts the host-order value in place.
    fn shr_assign(&mut self, rhs: BigEndian<i128>)
        requires
            0 <= rhs.spec_native() < 128,
        ensures
            *final(self) == BigEndian((old(self).spec_native() >> rhs.spec_native()).spec_to_big_endian()),
    {
        *self = BigEndian::from(self.to_native() >> rhs.to_native());
    }
}

impl Shl for BigEndian<usize> {
    type Output = BigEndian<usize>;

    /// Shifts the host-order value and stores the result.
    fn shl(self, other: BigEndian<usize>) -> (r: BigEndian<usize>) {
        BigEndian::from(self.to_native() << other.to_native())
    }
}

impl vstd::std_specs::ops::ShlSpecImpl for BigEndian<usize> {
    open spec fn obeys_shl_spec() -> bool {
        true
    }

    /// The shift amount is below the width, as Rust demands.
    open spec fn shl_req(self, rhs: BigEndian<usize>) -> bool {
        rhs.spec_native() < usize::BITS
    }

    open spec fn shl_spec(self, rhs: BigEndian<usize>) -> BigEndian<usize> {
        BigEndian((self.spec_native() << rhs.spec_native()).spec_to_big_endian())
    }
}

impl ShlAssign for BigEndian<usize> {
    /// Shifts the host-order value in place.
    fn shl_assign(&mut self, rhs: BigEndian<usize>)
        requires
            rhs.spec_native() < usize::BITS,
        ensures
            *final(self) == BigEndian((old(self).spec_native() << rhs.spec_native()).spec_to_big_endian()),
    {
        *self = BigEndian::from(self.to_native() << rhs.to_native());
    }
}

impl Shr for BigEndian<usize> {
    type Output = BigEndian<usize>;

    /// Shifts the host-order value and stores the result.
    fn shr(self, other: BigEndian<usize>) -> (r: BigEndian<usize>) {
        BigEndian::from(self.to_native() >> other.to_native())
    }
}

impl vstd::std_specs::ops::ShrSpecImpl for BigEndian<usize> {
    open spec fn obeys_shr_spec() -> bool {
        true
    }

    /// The shift amount is below the width, as Rust demands.
    open spec fn shr_req(self, rhs: BigEndian<usize>) -> bool {
        rhs.spec_native() < usize::BITS
    }

    open spec fn shr_spec(self, rhs: BigEndian<usize>) -> BigEndian<usize> {
        BigEndian((self.spec_native() >> rhs.spec_native()).spec_to_big_endian())
    }
}

impl ShrAssign for BigEndian<usize> {
    /// Shifts the host-order value in place.
    fn shr_assign(&mut self, rhs: BigEndian<usize>)
        requires
            rhs.spec_native() < usize::BITS,
        ensures
            *final(self) == BigEndian((old(self).spec_native() >> rhs.spec_native()).spec_to_big_endian()),
    {
        *self = BigEndian::from(self.to_native() >> rhs.to_native());
    }
}

impl Shl for BigEndian<isize> {
    type Output = BigEndian<isize>;

    /// Shifts the host-order value and stores the result.
    fn shl(self, other: BigEndian<isize>) -> (r: BigEndian<isize>) {
        BigEndian::from(self.to_native() << other.to_native())
    }
}

impl vstd::std_specs::ops::ShlSpecImpl for BigEndian<isize> {
    open spec fn obeys_shl_spec() -> bool {
        true
    }

    /// The shift amount is below the width, as Rust demands.
    open spec fn shl_req(self, rhs: BigEndian<isize>) -> bool {
        0 <= rhs.spec_native() < usize::BITS
    }

    open spec fn shl_spec(self, rhs: BigEndian<isize>) -> BigEndian<isize> {
        BigEndian((self.spec_native() << rhs.spec_native()).spec_to_big_endian())
    }
}

impl ShlAssign for BigEndian<isize> {
    /// Shifts the host-order value in place.
    fn shl_assign(&mut self, rhs: BigEndian<isize>)
        requires
            0 <= rhs.spec_native() < usize::BITS,
        ensures
            *final(self) == BigEndian((old(self).spec_native() << rhs.spec_native()).spec_to_big_endian()),
    {
        *self = BigEndian::from(self.to_native() << rhs.to_native());
    }
}

impl Shr for BigEndian<isize> {
    type Output = BigEndian<isize>;

    /// Shifts the host-order value and stores the result.
    fn shr(self, other: BigEndian<isize>) -> (r: BigEndian<isize>) {
        BigEndian::from(self.to_native() >> other.to_native())
    }
}

impl vstd::std_specs::ops::ShrSpecImpl for BigEndian<isize> {
    open spec fn obeys_shr_spec() -> bool {
        true
    }

    /// The shift amount is below the width, as Rust demands.
    open spec fn shr_req(self, rhs: BigEndian<isize>) -> bool {
        0 <= rhs.spec_native() < usize::BITS
    }

    open spec fn shr_spec(self, rhs: BigEndian<isize>) -> BigEndian<isize> {
        BigEndian((self.spec_native() >> rhs.spec_native()).spec_to_big_endian())
    }
}

impl ShrAssign for BigEndian<isize> {
    /// Shifts the host-order value in place.
    fn shr_assign(&mut self, rhs: BigEndian<isize>)
        requires
            0 <= rhs.spec_native() < usize::BITS,
        ensures
            *final(self) == BigEndian((old(self).spec_native() >> rhs.spec_native()).spec_to_big_endian()),
    {
        *self = BigEndian::from(self.to_native() >> rhs.to_native());
    }
}

impl Shl for LittleEndian<u8> {
    type Output = LittleEndian<u8>;

    /// Shifts the host-order value and stores the result.
    fn shl(self, other: LittleEndian<u8>) -> (r: LittleEndian<u8>) {
        LittleEndian::from(self.to_native() << other.to_native())
    }
}

impl vstd::std_specs::ops::ShlSpecImpl for LittleEndian<u8> {
    open spec fn obeys_shl_spec() -> bool {
        true
    }

    /// The shift amount is below the width, as Rust demands.
    open spec fn shl_req(self, rhs: LittleEndian<u8>) -> bool {
        rhs.spec_native() < 8
    }

    open spec fn shl_spec(self, rhs: LittleEndian<u8>) -> LittleEndian<u8> {
        LittleEndian((self.spec_native() << rhs.spec_native()).spec_to_little_endian())
    }
}

impl ShlAssign for LittleEndian<u8> {
    /// Shifts the host-order value in place.
    fn shl_assign(&mut self, rhs: LittleEndian<u8>)
        requires
            rhs.spec_native() < 8,
        ensures
            *final(self) == LittleEndian((old(self).spec_native() << rhs.spec_native()).spec_to_little_endian()),
    {
        *self = LittleEndian::from(self.to_native() << rhs.to_native());
    }
}

impl Shr for LittleEndian<u8> {
    type Output = LittleEndian<u8>;

    /// Shifts the host-order value and stores the result.
    fn shr(self, other: LittleEndian<u8>) -> (r: LittleEndian<u8>) {
        LittleEndian::from(self.to_native() >> other.to_native())
    }
}

impl vstd::std_specs::ops::ShrSpecImpl for LittleEndian<u8> {
    open spec fn obeys_shr_spec() -> bool {
        true
    }

    /// The shift amount is below the width, as Rust demands.
    open spec fn shr_req(self, rhs: LittleEndian<u8>) -> bool {
        rhs.spec_native() < 8
    }

    open spec fn shr_spec(self, rhs: LittleEndian<u8>) -> LittleEndian<u8> {
        LittleEndian((self.spec_native() >> rhs.spec_native()).spec_to_little_endian())
    }
}

impl ShrAssign for LittleEndian<u8> {
    /// Shifts the host-order value in place.
    fn shr_assign(&mut self, rhs: LittleEndian<u8>)
        requires
            rhs.spec_native() < 8,
        ensures
            *final(self) == LittleEndian((old(self).spec_native() >> rhs.spec_native()).spec_to_little_endian()),
    {
        *self = LittleEndian::from(self.to_native() >> rhs.to_native());
    }
}

impl Shl for LittleEndian<i8> {
    type Output = LittleEndian<i8>;

    /// Shifts the host-order value and stores the result.
    fn shl(self, other: LittleEndian<i8>) -> (r: LittleEndian<i8>) {
        LittleEndian::from(self.to_native() << other.to_native())
    }
}

impl vstd::std_specs::ops::ShlSpecImpl for LittleEndian<i8> {
    open spec fn obeys_shl_spec() -> bool {
        true
    }

    /// The shift amount is below the width, as Rust demands.
    open spec fn shl_req(self, rhs: LittleEndian<i8>) -> bool {
        0 <= rhs.spec_native() < 8
    }

    open spec fn shl_spec(self, rhs: LittleEndian<i8>) -> LittleEndian<i8> {
        LittleEndian((self.spec_native() << rhs.spec_native()).spec_to_little_endian())
    }
}

impl ShlAssign for LittleEndian<i8> {
    /// Shifts the host-order value in place.
    fn shl_assign(&mut self, rhs: LittleEndian<i8>)
        requires
            0 <= rhs.spec_native() < 8,
        ensures
            *final(self) == LittleEndian((old(self).spec_native() << rhs.spec_native()).spec_to_little_endian()),
    {
        *self = LittleEndian::from(self.to_native() << rhs.to_native());
    }
}

impl Shr for LittleEndian<i8> {
    type Output = LittleEndian<i8>;

    /// Shifts the host-order value and stores the result.
    fn shr(self, other: LittleEndian<i8>) -> (r: LittleEndian<i8>) {
        LittleEndian::from(self.to_native() >> other.to_native())
    }
}

impl vstd::std_specs::ops::ShrSpecImpl for LittleEndian<i8> {
    open spec fn obeys_shr_spec() -> bool {
        true
    }

    /// The shift amount is below the width, as Rust demands.
    open spec fn shr_req(self, rhs: LittleEndian<i8>) -> bool {
        0 <= rhs.spec_native() < 8
    }

    open spec fn shr_spec(self, rhs: LittleEndian<i8>) -> LittleEndian<i8> {
        LittleEndian((self.spec_native() >> rhs.spec_native()).spec_to_little_endian())
    }
}

impl ShrAssign for LittleEndian<i8> {
    /// Shifts the host-order value in place.
    fn shr_assign(&mut self, rhs: LittleEndian<i8>)
        requires
            0 <= rhs.spec_native() < 8,
        ensures
            *final(self) == LittleEndian((old(self).spec_native() >> rhs.spec_native()).spec_to_little_endian()),
    {
        *self = LittleEndian::from(self.to_native() >> rhs.to_native());
    }
}

impl Shl for LittleEndian<u16> {
    type Output = LittleEndian<u16>;

    /// Shifts the host-order value and stores the result.
    fn shl(self, other: LittleEndian<u16>) -> (r: LittleEndian<u16>) {
        LittleEndian::from(self.to_native() << other.to_native())
    }
}

impl vstd::std_specs::ops::ShlSpecImpl for LittleEndian<u16> {
    open spec fn obeys_shl_spec() -> bool {
        true
    }

    /// The shift amount is below the width, as Rust demands.
    open spec fn shl_req(self, rhs: LittleEndian<u16>) -> bool {
        rhs.spec_native() < 16
    }

    open spec fn shl_spec(self, rhs: LittleEndian<u16>) -> LittleEndian<u16> {
        LittleEndian((self.spec_native() << rhs.spec_native()).spec_to_little_endian())
    }
}

impl ShlAssign for LittleEndian<u16> {
    /// Shifts the host-order value in place.
    fn shl_assign(&mut self, rhs: LittleEndian<u16>)
        requires
            rhs.spec_native() < 16,
        ensures
            *final(self) == LittleEndian((old(self).spec_native() << rhs.spec_native()).spec_to_little_endian()),
    {
        *self = LittleEndian::from(self.to_native() << rhs.to_native());
    }
}

impl Shr for LittleEndian<u16> {
    type Output = LittleEndian<u16>;

    /// Shifts the host-order value and stores the result.
    fn shr(self, other: LittleEndian<u16>) -> (r: LittleEndian<u16>) {
        LittleEndian::from(self.to_native() >> other.to_native())
    }
}

impl vstd::std_specs::ops::ShrSpecImpl for LittleEndian<u16> {
    open spec fn obeys_shr_spec() -> bool {
        true
    }

    /// The shift amount is below the width, as Rust demands.
    open spec fn shr_req(self, rhs: LittleEndian<u16>) -> bool {
        rhs.spec_native() < 16
    }

    open spec fn shr_spec(self, rhs: LittleEndian<u16>) -> LittleEndian<u16> {
        LittleEndian((self.spec_native() >> rhs.spec_native()).spec_to_little_endian())
    }
}

impl ShrAssign for LittleEndian<u16> {
    /// Shifts the host-order value in place.
    fn shr_assign(&mut self, rhs: LittleEndian<u16>)
        requires
            rhs.spec_native() < 16,
        ensures
            *final(self) == LittleEndian((old(self).spec_native() >> rhs.spec_native()).spec_to_little_endian()),
    {
        *self = LittleEndian::from(self.to_native() >> rhs.to_native());
    }
}

impl Shl for LittleEndian<i16> {
    type Output = LittleEndian<i16>;

    /// Shifts the host-order value and stores the result.
    fn shl(self, other: LittleEndian<i16>) -> (r: LittleEndian<i16>) {
        LittleEndian::from(self.to_native() << other.to_native())
    }
}

impl vstd::std_specs::ops::ShlSpecImpl for LittleEndian<i16> {
    open spec fn obeys_shl_spec() -> bool {
        true
    }

    /// The shift amount is below the width, as Rust demands.
    open spec fn shl_req(self, rhs: LittleEndian<i16>) -> bool {
        0 <= rhs.spec_native() < 16
    }

    open spec fn shl_spec(self, rhs: LittleEndian<i16>) -> LittleEndian<i16> {
        LittleEndian((self.spec_native() << rhs.spec_native()).spec_to_little_endian())
    }
}

impl ShlAssign for LittleEndian<i16> {
    /// Shifts the host-order value in place.
    fn shl_assign(&mut self, rhs: LittleEndian<i16>)
        requires
            0 <= rhs.spec_native() < 16,
        ensures
            *final(self) == LittleEndian((old(self).spec_native() << rhs.spec_native()).spec_to_little_endian()),
    {
        *self = LittleEndian::from(self.to_native() << rhs.to_native());
    }
}

impl Shr for LittleEndian<i16> {
    type Output = LittleEndian<i16>;

    /// Shifts the host-order value and stores the result.
    fn shr(self, other: LittleEndian<i16>) -> (r: LittleEndian<i16>) {
        LittleEndian::from(self.to_native() >> other.to_native())
    }
}

impl vstd::std_specs::ops::ShrSpecImpl for LittleEndian<i16> {
    open spec fn obeys_shr_spec() -> bool {
        true
    }

    /// The shift amount is below the width, as Rust demands.
    open spec fn shr_req(self, rhs: LittleEndian<i16>) -> bool {
        0 <= rhs.spec_native() < 16
    }

    open spec fn shr_spec(self, rhs: LittleEndian<i16>) -> LittleEndian<i16> {
        LittleEndian((self.spec_native() >> rhs.spec_native()).spec_to_little_endian())
    }
}

impl ShrAssign for LittleEndian<i16> {
    /// Shifts the host-order value in place.
    fn shr_assign(&mut self, rhs: LittleEndian<i16>)
        requires
            0 <= rhs.spec_native() < 16,
        ensures
            *final(self) == LittleEndian((old(self).spec_native() >> rhs.spec_native()).spec_to_little_endian()),
    {
        *self = LittleEndian::from(self.to_native() >> rhs.to_native());
    }
}

impl Shl for LittleEndian<u32> {
    type Output = LittleEndian<u32>;

    /// Shifts the host-order value and stores the result.
    fn shl(self, other: LittleEndian<u32>) -> (r: LittleEndian<u32>) {
        LittleEndian::from(self.to_native() << other.to_native())
    }
}

impl vstd::std_specs::ops::ShlSpecImpl for LittleEndian<u32> {
    open spec fn obeys_shl_spec() -> bool {
        true
    }

    /// The shift amount is below the width, as Rust demands.
    open spec fn shl_req(self, rhs: LittleEndian<u32>) -> bool {
        rhs.spec_native() < 32
    }

    open spec fn shl_spec(self, rhs: LittleEndian<u32>) -> LittleEndian<u32> {
        LittleEndian((self.spec_native() << rhs.spec_native()).spec_to_little_endian())
    }
}

impl ShlAssign for LittleEndian<u32> {
    /// Shifts the host-order value in place.
    fn shl_assign(&mut self, rhs: LittleEndian<u32>)
        requires
            rhs.spec_native() < 32,
        ensures
            *final(self) == LittleEndian((old(self).spec_native() << rhs.spec_native()).spec_to_little_endian()),
    {
        *self = LittleEndian::from(self.to_native() << rhs.to_native());
    }
}

impl Shr for LittleEndian<u32> {
    type Output = LittleEndian<u32>;

    /// Shifts the host-order value and stores the result.
    fn shr(self, other: LittleEndian<u32>) -> (r: LittleEndian<u32>) {
        LittleEndian::from(self.to_native() >> other.to_native())
    }
}

impl vstd::std_specs::ops::ShrSpecImpl for LittleEndian<u32> {
    open spec fn obeys_shr_spec() -> bool {
        true
    }

    /// The shift amount is below the width, as Rust demands.
    open spec fn shr_req(self, rhs: LittleEndian<u32>) -> bool {
        rhs.spec_native() < 32
    }

    open spec fn shr_spec(self, rhs: LittleEndian<u32>) -> LittleEndian<u32> {
        LittleEndian((self.spec_native() >> rhs.spec_native()).spec_to_little_endian())
    }
}

impl ShrAssign for LittleEndian<u32> {
    /// Shifts the host-order value in place.
    fn shr_assign(&mut self, rhs: LittleEndian<u32>)
        requires
            rhs.spec_native() < 32,
        ensures
            *final(self) == LittleEndian((old(self).spec_native() >> rhs.spec_native()).spec_to_little_endian()),
    {
        *self = LittleEndian::from(self.to_native() >> rhs.to_native());
    }
}

impl Shl for LittleEndian<i32> {
    type Output = LittleEndian<i32>;

    /// Shifts the host-order value and stores the result.
    fn shl(self, other: LittleEndian<i32>) -> (r: LittleEndian<i32>) {
        LittleEndian::from(self.to_native() << other.to_native())
    }
}

impl vstd::std_specs::ops::ShlSpecImpl for LittleEndian<i32> {
    open spec fn obeys_shl_spec() -> bool {
        true
    }

    /// The shift amount is below the width, as Rust demands.
    open spec fn shl_req(self, rhs: LittleEndian<i32>) -> bool {
        0 <= rhs.spec_native() < 32
    }

    open spec fn shl_spec(self, rhs: LittleEndian<i32>) -> LittleEndian<i32> {
        LittleEndian((self.spec_native() << rhs.spec_native()).spec_to_little_endian())
    }
}

impl ShlAssign for LittleEndian<i32> {
    /// Shifts the host-order value in place.
    fn shl_assign(&mut self, rhs: LittleEndian<i32>)
        requires
            0 <= rhs.spec_native() < 32,
        ensures
            *final(self) == LittleEndian((old(self).spec_native() << rhs.spec_native()).spec_to_little_endian()),
    {
        *self = LittleEndian::from(self.to_native() << rhs.to_native());
    }
}

impl Shr for LittleEndian<i32> {
    type Output = LittleEndian<i32>;

    /// Shifts the host-order value and stores the result.
    fn shr(self, other: LittleEndian<i32>) -> (r: LittleEndian<i32>) {
        LittleEndian::from(self.to_native() >> other.to_native())
    }
}

impl vstd::std_specs::ops::ShrSpecImpl for LittleEndian<i32> {
    open spec fn obeys_shr_spec() -> bool {
        true
    }

    /// The shift amount is below the width, as Rust demands.
    open spec fn shr_req(self, rhs: LittleEndian<i32>) -> bool {
        0 <= rhs.spec_native() < 32
    }

    open spec fn shr_spec(self, rhs: LittleEndian<i32>) -> LittleEndian<i32> {
        LittleEndian((self.spec_native() >> rhs.spec_native()).spec_to_little_endian())
    }
}

impl ShrAssign for LittleEndian<i32> {
    /// Shifts the host-order value in place.
    fn shr_assign(&mut self, rhs: LittleEndian<i32>)
        requires
            0 <= rhs.spec_native() < 32,
        ensures
            *final(self) == LittleEndian((old(self).spec_native() >> rhs.spec_native()).spec_to_little_endian()),
    {
        *self = LittleEndian::from(self.to_native() >> rhs.to_native());
    }
}

impl Shl for LittleEndian<u64> {
    type Output = LittleEndian<u64>;

    /// Shifts the host-order value and stores the result.
    fn shl(self, other: LittleEndian<u64>) -> (r: LittleEndian<u64>) {
        LittleEndian::from(self.to_native() << other.to_native())
    }
}

impl vstd::std_specs::ops::ShlSpecImpl for LittleEndian<u64> {
    open spec fn obeys_shl_spec() -> bool {
        true
    }

    /// The shift amount is below the width, as Rust demands.
    open spec fn shl_req(self, rhs: LittleEndian<u64>) -> bool {
        rhs.spec_native() < 64
    }

    open spec fn shl_spec(self, rhs: LittleEndian<u64>) -> LittleEndian<u64> {
        LittleEndian((self.spec_native() << rhs.spec_native()).spec_to_little_endian())
    }
}

impl ShlAssign for LittleEndian<u64> {
    /// Shifts the host-order value in place.
    fn shl_assign(&mut self, rhs: LittleEndian<u64>)
        requires
            rhs.spec_native() < 64,
        ensures
            *final(self) == LittleEndian((old(self).spec_native() << rhs.spec_native()).spec_to_little_endian()),
    {
        *self = LittleEndian::from(self.to_native() << rhs.to_native());
    }
}

impl Shr for LittleEndian<u64> {
    type Output = LittleEndian<u64>;

    /// Shifts the host-order value and stores the result.
    fn shr(self, other: LittleEndian<u64>) -> (r: LittleEndian<u64>) {
        LittleEndian::from(self.to_native() >> other.to_native())
    }
}

impl vstd::std_specs::ops::ShrSpecImpl for LittleEndian<u64> {
    open spec fn obeys_shr_spec() -> bool {
        true
    }

    /// The shift amount is below the width, as Rust demands.
    open spec fn shr_req(self, rhs: LittleEndian<u64>) -> bool {
        rhs.spec_native() < 64
    }

    open spec fn shr_spec(self, rhs: LittleEndian<u64>) -> LittleEndian<u64> {
        LittleEndian((self.spec_native() >> rhs.spec_native()).spec_to_little_endian())
    }
}

impl ShrAssign for LittleEndian<u64> {
    /// Shifts the host-order value in place.
    fn shr_assign(&mut self, rhs: LittleEndian<u64>)
        requires
            rhs.spec_native() < 64,
        ensures
            *final(self) == LittleEndian((old(self).spec_native() >> rhs.spec_native()).spec_to_little_endian()),
    {
        *self = LittleEndian::from(self.to_native() >> rhs.to_native());
    }
}

impl Shl for LittleEndian<i64> {
    type Output = LittleEndian<i64>;

    /// Shifts the host-order value and stores the result.
    fn shl(self, other: LittleEndian<i64>) -> (r: LittleEndian<i64>) {
        LittleEndian::from(self.to_native() << other.to_native())
    }
}

impl vstd::std_specs::ops::ShlSpecImpl for LittleEndian<i64> {
    open spec fn obeys_shl_spec() -> bool {
        true
    }

    /// The shift amount is below the width, as Rust demands.
    open spec fn shl_req(self, rhs: LittleEndian<i64>) -> bool {
        0 <= rhs.spec_native() < 64
    }

    open spec fn shl_spec(self, rhs: LittleEndian<i64>) -> LittleEndian<i64> {
        LittleEndian((self.spec_native() << rhs.spec_native()).spec_to_little_endian())
    }
}

impl ShlAssign for LittleEndian<i64> {
    /// Shifts the host-order value in place.
    fn shl_assign(&mut self, rhs: LittleEndian<i64>)
        requires
            0 <= rhs.spec_native() < 64,
        ensures
            *final(self) == LittleEndian((old(self).spec_native() << rhs.spec_native()).spec_to_little_endian()),
    {
        *self = LittleEndian::from(self.to_native() << rhs.to_native());
    }
}

impl Shr for LittleEndian<i64> {
    type Output = LittleEndian<i64>;

    /// Shifts the host-order value and stores the result.
    fn shr(self, other: LittleEndian<i64>) -> (r: LittleEndian<i64>) {
        LittleEndian::from(self.to_native() >> other.to_native())
    }
}

impl vstd::std_specs::ops::ShrSpecImpl for LittleEndian<i64> {
    open spec fn obeys_shr_spec() -> bool {
        true
    }

    /// The shift amount is below the width, as Rust demands.
    open spec fn shr_req(self, rhs: LittleEndian<i64>) -> bool {
        0 <= rhs.spec_native() < 64
    }

    open spec fn shr_spec(self, rhs: LittleEndian<i64>) -> LittleEndian<i64> {
        LittleEndian((self.spec_native() >> rhs.spec_native()).spec_to_little_endian())
    }
}

impl ShrAssign for LittleEndian<i64> {
    /// Shifts the host-order value in place.
    fn shr_assign(&mut self, rhs: LittleEndian<i64>)
        requires
            0 <= rhs.spec_native() < 64,
        ensures
            *final(self) == LittleEndian((old(self).spec_native() >> rhs.spec_native()).spec_to_little_endian()),
    {
        *self = LittleEndian::from(self.to_native() >> rhs.to_native());
    }
}

impl Shl for LittleEndian<u128> {
    type Output = LittleEndian<u128>;

    /// Shifts the host-order value and stores the result.
    fn shl(self, other: LittleEndian<u128>) -> (r: LittleEndian<u128>) {
        LittleEndian::from(self.to_native() << other.to_native())
    }
}

impl vstd::std_specs::ops::ShlSpecImpl for LittleEndian<u128> {
    open spec fn obeys_shl_spec() -> bool {
        true
    }

    /// The shift amount is below the width, as Rust demands.
    open spec fn shl_req(self, rhs: LittleEndian<u128>) -> bool {
        rhs.spec_native() < 128
    }

    open spec fn shl_spec(self, rhs: LittleEndian<u128>) -> LittleEndian<u128> {
        LittleEndian((self.spec_native() << rhs.spec_native()).spec_to_little_endian())
    }
}

impl ShlAssign for LittleEndian<u128> {
    /// Shifts the host-order value in place.
    fn shl_assign(&mut self, rhs: LittleEndian<u128>)
        requires
            rhs.spec_native() < 128,
        ensures
            *final(self) == LittleEndian((old(self).spec_native() << rhs.spec_native()).spec_to_little_endian()),
    {
        *self = LittleEndian::from(self.to_native() << rhs.to_native());
    }
}

impl Shr for LittleEndian<u128> {
    type Output = LittleEndian<u128>;

    /// Shifts the host-order value and stores the result.
    fn shr(self, other: LittleEndian<u128>) -> (r: LittleEndian<u128>) {
        LittleEndian::from(self.to_native() >> other.to_native())
    }
}

impl vstd::std_specs::ops::ShrSpecImpl for LittleEndian<u128> {
    open spec fn obeys_shr_spec() -> bool {
        true
    }

    /// The shift amount is below the width, as Rust demands.
    open spec fn shr_req(self, rhs: LittleEndian<u128>) -> bool {
        rhs.spec_native() < 128
    }

    open spec fn shr_spec(self, rhs: LittleEndian<u128>) -> LittleEndian<u128> {
        LittleEndian((self.spec_native() >> rhs.spec_native()).spec_to_little_endian())
    }
}

impl ShrAssign for LittleEndian<u128> {
    /// Shifts the host-order value in place.
    fn shr_assign(&mut self, rhs: LittleEndian<u128>)
        requires
            rhs.spec_native() < 128,
        ensures
            *final(self) == LittleEndian((old(self).spec_native() >> rhs.spec_native()).spec_to_little_endian()),
    {
        *self = LittleEndian::from(self.to_native() >> rhs.to_native());
    }
}

impl Shl for LittleEndian<i128> {
    type Output = LittleEndian<i128>;

    /// Shifts the host-order value and stores the result.
    fn shl(self, other: LittleEndian<i128>) -> (r: LittleEndian<i128>) {
        LittleEndian::from(self.to_native() << other.to_native())
    }
}

impl vstd::std_specs::ops::ShlSpecImpl for LittleEndian<i128> {
    open spec fn obeys_shl_spec() -> bool {
        true
    }

    /// The shift amount is below the width, as Rust demands.
    open spec fn shl_req(self, rhs: LittleEndian<i128>) -> bool {
        0 <= rhs.spec_native() < 128
    }

    open spec fn shl_spec(self, rhs: LittleEndian<i128>) -> LittleEndian<i128> {
        LittleEndian((self.spec_native() << rhs.spec_native()).spec_to_little_endian())
    }
}

impl ShlAssign for LittleEndian<i128> {
    /// Shifts the host-order value in place.
    fn shl_assign(&mut self, rhs: LittleEndian<i128>)
        requires
            0 <= rhs.spec_native() < 128,
        ensures
            *final(self) == LittleEndian((old(self).spec_native() << rhs.spec_native()).spec_to_little_endian()),
    {
        *self = LittleEndian::from(self.to_native() << rhs.to_native());
    }
}

impl Shr for LittleEndian<i128> {
    type Output = LittleEndian<i128>;

    /// Shifts the host-order value and stores the result.
    fn shr(self, other: LittleEndian<i128>) -> (r: LittleEndian<i128>) {
        LittleEndian::from(self.to_native() >> other.to_native())
    }
}

impl vstd::std_specs::ops::ShrSpecImpl for LittleEndian<i128> {
    open spec fn obeys_shr_spec() -> bool {
        true
    }

    /// The shift amount is below the width, as Rust demands.
    open spec fn shr_req(self, rhs: LittleEndian<i128>) -> bool {
        0 <= rhs.spec_native() < 128
    }

    open spec fn shr_spec(self, rhs: LittleEndian<i128>) -> LittleEndian<i128> {
        LittleEndian((self.spec_native() >> rhs.spec_native()).spec_to_little_endian())
    }
}

impl ShrAssign for LittleEndian<i128> {
    /// Shifts the host-order value in place.
    fn shr_assign(&mut self, rhs: LittleEndian<i128>)
        requires
            0 <= rhs.spec_native() < 128,
        ensures
            *final(self) == LittleEndian((old(self).spec_native() >> rhs.spec_native()).spec_to_little_endian()),
    {
        *self = LittleEndian::from(self.to_native() >> rhs.to_native());
    }
}

impl Shl for LittleEndian<usize> {
    type Output = LittleEndian<usize>;

    /// Shifts the host-order value and stores the result.
    fn shl(self, other: LittleEndian<usize>) -> (r: LittleEndian<usize>) {
        LittleEndian::from(self.to_native() << other.to_native())
    }
}

impl vstd::std_specs::ops::ShlSpecImpl for LittleEndian<usize> {
    open spec fn obeys_shl_spec() -> bool {
        true
    }

    /// The shift amount is below the width, as Rust demands.
    open spec fn shl_req(self, rhs: LittleEndian<usize>) -> bool {
        rhs.spec_native() < usize::BITS
    }

    open spec fn shl_spec(self, rhs: LittleEndian<usize>) -> LittleEndian<usize> {
        LittleEndian((self.spec_native() << rhs.spec_native()).spec_to_little_endian())
    }
}

impl ShlAssign for LittleEndian<usize> {
    /// Shifts the host-order value in place.
    fn shl_assign(&mut self, rhs: LittleEndian<usize>)
        requires
            rhs.spec_native() < usize::BITS,
        ensures
            *final(self) == LittleEndian((old(self).spec_native() << rhs.spec_native()).spec_to_little_endian()),
    {
        *self = LittleEndian::from(self.to_native() << rhs.to_native());
    }
}

impl Shr for LittleEndian<usize> {
    type Output = LittleEndian<usize>;

    /// Shifts the host-order value and stores the result.
    fn shr(self, other: LittleEndian<usize>) -> (r: LittleEndian<usize>) {
        LittleEndian::from(self.to_native() >> other.to_native())
    }
}

impl vstd::std_specs::ops::ShrSpecImpl for LittleEndian<usize> {
    open spec fn obeys_shr_spec() -> bool {
        true
    }

    /// The shift amount is below the width, as Rust demands.
    open spec fn shr_req(self, rhs: LittleEndian<usize>) -> bool {
        rhs.spec_native() < usize::BITS
    }

    open spec fn shr_spec(self, rhs: LittleEndian<usize>) -> LittleEndian<usize> {
        LittleEndian((self.spec_native() >> rhs.spec_native()).spec_to_little_endian())
    }
}

impl ShrAssign for LittleEndian<usize> {
    /// Shifts the host-order value in place.
    fn shr_assign(&mut self, rhs: LittleEndian<usize>)
        requires
            rhs.spec_native() < usize::BITS,
        ensures
            *final(self) == LittleEndian((old(self).spec_native() >> rhs.spec_native()).spec_to_little_endian()),
    {
        *self = LittleEndian::from(self.to_native() >> rhs.to_native());
    }
}

impl Shl for LittleEndian<isize> {
    type Output = LittleEndian<isize>;

    /// Shifts the host-order value and stores the result.
    fn shl(self, other: LittleEndian<isize>) -> (r: LittleEndian<isize>) {
        LittleEndian::from(self.to_native() << other.to_native())
    }
}

impl vstd::std_specs::ops::ShlSpecImpl for LittleEndian<isize> {
    open spec fn obeys_shl_spec() -> bool {
        true
    }

    /// The shift amount is below the width, as Rust demands.
    open spec fn shl_req(self, rhs: LittleEndian<isize>) -> bool {
        0 <= rhs.spec_native() < usize::BITS
    }

    open spec fn shl_spec(self, rhs: LittleEndian<isize>) -> LittleEndian<isize> {
        LittleEndian((self.spec_native() << rhs.spec_native()).spec_to_little_endian())
    }
}

impl ShlAssign for LittleEndian<isize> {
    /// Shifts the host-order value in place.
    fn shl_assign(&mut self, rhs: LittleEndian<isize>)
        requires
            0 <= rhs.spec_native() < usize::BITS,
        ensures
            *final(self) == LittleEndian((old(self).spec_native() << rhs.spec_native()).spec_to_little_endian()),
    {
        *self = LittleEndian::from(self.to_native() << rhs.to_native());
    }
}

impl Shr for LittleEndian<isize> {
    type Output = LittleEndian<isize>;

    /// Shifts the host-order value and stores the result.
    fn shr(self, other: LittleEndian<isize>) -> (r: LittleEndian<isize>) {
        LittleEndian::from(self.to_native() >> other.to_native())
    }
}

impl vstd::std_specs::ops::ShrSpecImpl for LittleEndian<isize> {
    open spec fn obeys_shr_spec() -> bool {
        true
    }

    /// The shift amount is below the width, as Rust demands.
    open spec fn shr_req(self, rhs: LittleEndian<isize>) -> bool {
        0 <= rhs.spec_native() < usize::BITS
    }

    open spec fn shr_spec(self, rhs: LittleEndian<isize>) -> LittleEndian<isize> {
        LittleEndian((self.spec_native() >> rhs.spec_native()).spec_to_little_endian())
    }
}

impl ShrAssign for LittleEndian<isize> {
    /// Shifts the host-order value in place.
    fn shr_assign(&mut self, rhs: LittleEndian<isize>)
        requires
            0 <= rhs.spec_native() < usize::BITS,
        ensures
            *final(self) == LittleEndian((old(self).spec_native() >> rhs.spec_native()).spec_to_little_endian()),
    {
        *self = LittleEndian::from(self.to_native() >> rhs.to_native());
    }
}

/// Shifting a stored `u8` gives the stored form of the shifted host-order value, which reads
/// back as that value, in either byte order; so `from(v) << from(n) == from(v << n)`, and
/// likewise for `>>`.
pub proof fn law_shift_u8(v: u8, n: u8)
    requires
        n < 8,
    ensures
        BigEndian((v << n).spec_to_big_endian()).spec_native() == v << n,
        BigEndian((v >> n).spec_to_big_endian()).spec_native() == v >> n,
        LittleEndian((v << n).spec_to_little_endian()).spec_native() == v << n,
        LittleEndian((v >> n).spec_to_little_endian()).spec_native() == v >> n,
        BigEndian(v.spec_to_big_endian()).shl_spec(BigEndian(n.spec_to_big_endian())) == BigEndian((v << n).spec_to_big_endian()),
        BigEndian(v.spec_to_big_endian()).shr_spec(BigEndian(n.spec_to_big_endian())) == BigEndian((v >> n).spec_to_big_endian()),
        LittleEndian(v.spec_to_little_endian()).shl_spec(LittleEndian(n.spec_to_little_endian())) == LittleEndian((v << n).spec_to_little_endian()),
        LittleEndian(v.spec_to_little_endian()).shr_spec(LittleEndian(n.spec_to_little_endian())) == LittleEndian((v >> n).spec_to_little_endian()),
{
    law_round_trip_u8(v);
    law_round_trip_u8(n);
    law_round_trip_u8(v << n);
    law_round_trip_u8(v >> n);
}

/// Shifting a stored `i8` gives the stored form of the shifted host-order value, which reads
/// back as that value, in either byte order; so `from(v) << from(n) == from(v << n)`, and
/// likewise for `>>`.
pub proof fn law_shift_i8(v: i8, n: i8)
    requires
        0 <= n < 8,
    ensures
        BigEndian((v << n).spec_to_big_endian()).spec_native() == v << n,
        BigEndian((v >> n).spec_to_big_endian()).spec_native() == v >> n,
        LittleEndian((v << n).spec_to_little_endian()).spec_native() == v << n,
        LittleEndian((v >> n).spec_to_little_endian()).spec_native() == v >> n,
        BigEndian(v.spec_to_big_endian()).shl_spec(BigEndian(n.spec_to_big_endian())) == BigEndian((v << n).spec_to_big_endian()),
        BigEndian(v.spec_to_big_endian()).shr_spec(BigEndian(n.spec_to_big_endian())) == BigEndian((v >> n).spec_to_big_endian()),
        LittleEndian(v.spec_to_little_endian()).shl_spec(LittleEndian(n.spec_to_little_endian())) == LittleEndian((v << n).spec_to_little_endian()),
        LittleEndian(v.spec_to_little_endian()).shr_spec(LittleEndian(n.spec_to_little_endian())) == LittleEndian((v >> n).spec_to_little_endian()),
{
    law_round_trip_i8(v);
    law_round_trip_i8(n);
    law_round_trip_i8(v << n);
    law_round_trip_i8(v >> n);
}

/// Shifting a stored `u16` gives the stored form of the shifted host-order value, which reads
/// back as that value, in either byte order; so `from(v) << from(n) == from(v << n)`, and
/// likewise for `>>`.
pub proof fn law_shift_u16(v: u16, n: u16)
    requires
        n < 16,
    ensures
        BigEndian((v << n).spec_to_big_endian()).spec_native() == v << n,
        BigEndian((v >> n).spec_to_big_endian()).spec_native() == v >> n,
        LittleEndian((v << n).spec_to_little_endian()).spec_native() == v << n,
        LittleEndian((v >> n).spec_to_little_endian()).spec_native() == v >> n,
        BigEndian(v.spec_to_big_endian()).shl_spec(BigEndian(n.spec_to_big_endian())) == BigEndian((v << n).spec_to_big_endian()),
        BigEndian(v.spec_to_big_endian()).shr_spec(BigEndian(n.spec_to_big_endian())) == BigEndian((v >> n).spec_to_big_endian()),
        LittleEndian(v.spec_to_little_endian()).shl_spec(LittleEndian(n.spec_to_little_endian())) == LittleEndian((v << n).spec_to_little_endian()),
        LittleEndian(v.spec_to_little_endian()).shr_spec(LittleEndian(n.spec_to_little_endian())) == LittleEndian((v >> n).spec_to_little_endian()),
{
    law_round_trip_u16(v);
    law_round_trip_u16(n);
    law_round_trip_u16(v << n);
    law_round_trip_u16(v >> n);
}

/// Shifting a stored `i16` gives the stored form of the shifted host-order value, which reads
/// back as that value, in either byte order; so `from(v) << from(n) == from(v << n)`, and
/// likewise for `>>`.
pub proof fn law_shift_i16(v: i16, n: i16)
    requires
        0 <= n < 16,
    ensures
        BigEndian((v << n).spec_to_big_endian()).spec_native() == v << n,
        BigEndian((v >> n).spec_to_big_endian()).spec_native() == v >> n,
        LittleEndian((v << n).spec_to_little_endian()).spec_native() == v << n,
        LittleEndian((v >> n).spec_to_little_endian()).spec_native() == v >> n,
        BigEndian(v.spec_to_big_endian()).shl_spec(BigEndian(n.spec_to_big_endian())) == BigEndian((v << n).spec_to_big_endian()),
        BigEndian(v.spec_to_big_endian()).shr_spec(BigEndian(n.spec_to_big_endian())) == BigEndian((v >> n).spec_to_big_endian()),
        LittleEndian(v.spec_to_little_endian()).shl_spec(LittleEndian(n.spec_to_little_endian())) == LittleEndian((v << n).spec_to_little_endian()),
        LittleEndian(v.spec_to_little_endian()).shr_spec(LittleEndian(n.spec_to_little_endian())) == LittleEndian((v >> n).spec_to_little_endian()),
{
    law_round_trip_i16(v);
    law_round_trip_i16(n);
    law_round_trip_i16(v << n);
    law_round_trip_i16(v >> n);
}

/// Shifting a stored `u32` gives the stored form of the shifted host-order value, which reads
/// back as that value, in either byte order; so `from(v) << from(n) == from(v << n)`, and
/// likewise for `>>`.
pub proof fn law_shift_u32(v: u32, n: u32)
    requires
        n < 32,
    ensures
        BigEndian((v << n).spec_to_big_endian()).spec_native() == v << n,
        BigEndian((v >> n).spec_to_big_endian()).spec_native() == v >> n,
        LittleEndian((v << n).spec_to_little_endian()).spec_native() == v << n,
        LittleEndian((v >> n).spec_to_little_endian()).spec_native() == v >> n,
        BigEndian(v.spec_to_big_endian()).shl_spec(BigEndian(n.spec_to_big_endian())) == BigEndian((v << n).spec_to_big_endian()),
        BigEndian(v.spec_to_big_endian()).shr_spec(BigEndian(n.spec_to_big_endian())) == BigEndian((v >> n).spec_to_big_endian()),
        LittleEndian(v.spec_to_little_endian()).shl_spec(LittleEndian(n.spec_to_little_endian())) == LittleEndian((v << n).spec_to_little_endian()),
        LittleEndian(v.spec_to_little_endian()).shr_spec(LittleEndian(n.spec_to_little_endian())) == LittleEndian((v >> n).spec_to_little_endian()),
{
    law_round_trip_u32(v);
    law_round_trip_u32(n);
    law_round_trip_u32(v << n);
    law_round_trip_u32(v >> n);
}

/// Shifting a stored `i32` gives the stored form of the shifted host-order value, which reads
/// back as that value, in either byte order; so `from(v) << from(n) == from(v << n)`, and
/// likewise for `>>`.
pub proof fn law_shift_i32(v: i32, n: i32)
    requires
        0 <= n < 32,
    ensures
        BigEndian((v << n).spec_to_big_endian()).spec_native() == v << n,
        BigEndian((v >> n).spec_to_big_endian()).spec_native() == v >> n,
        LittleEndian((v << n).spec_to_little_endian()).spec_native() == v << n,
        LittleEndian((v >> n).spec_to_little_endian()).spec_native() == v >> n,
        BigEndian(v.spec_to_big_endian()).shl_spec(BigEndian(n.spec_to_big_endian())) == BigEndian((v << n).spec_to_big_endian()),
        BigEndian(v.spec_to_big_endian()).shr_spec(BigEndian(n.spec_to_big_endian())) == BigEndian((v >> n).spec_to_big_endian()),
        LittleEndian(v.spec_to_little_endian()).shl_spec(LittleEndian(n.spec_to_little_endian())) == LittleEndian((v << n).spec_to_little_endian()),
        LittleEndian(v.spec_to_little_endian()).shr_spec(LittleEndian(n.spec_to_little_endian())) == LittleEndian((v >> n).spec_to_little_endian()),
{
    law_round_trip_i32(v);
    law_round_trip_i32(n);
    law_round_trip_i32(v << n);
    law_round_trip_i32(v >> n);
}

/// Shifting a stored `u64` gives the stored form of the shifted host-order value, which reads
/// back as that value, in either byte order; so `from(v) << from(n) == from(v << n)`, and
/// likewise for `>>`.
pub proof fn law_shift_u64(v: u64, n: u64)
    requires
        n < 64,
    ensures
        BigEndian((v << n).spec_to_big_endian()).spec_native() == v << n,
        BigEndian((v >> n).spec_to_big_endian()).spec_native() == v >> n,
        LittleEndian((v << n).spec_to_little_endian()).spec_native() == v << n,
        LittleEndian((v >> n).spec_to_little_endian()).spec_native() == v >> n,
        BigEndian(v.spec_to_big_endian()).shl_spec(BigEndian(n.spec_to_big_endian())) == BigEndian((v << n).spec_to_big_endian()),
        BigEndian(v.spec_to_big_endian()).shr_spec(BigEndian(n.spec_to_big_endian())) == BigEndian((v >> n).spec_to_big_endian()),
        LittleEndian(v.spec_to_little_endian()).shl_spec(LittleEndian(n.spec_to_little_endian())) == LittleEndian((v << n).spec_to_little_endian()),
        LittleEndian(v.spec_to_little_endian()).shr_spec(LittleEndian(n.spec_to_little_endian())) == LittleEndian((v >> n).spec_to_little_endian()),
{
    law_round_trip_u64(v);
    law_round_trip_u64(n);
    law_round_trip_u64(v << n);
    law_round_trip_u64(v >> n);
}

/// Shifting a stored `i64` gives the stored form of the shifted host-order value, which reads
/// back as that value, in either byte order; so `from(v) << from(n) == from(v << n)`, and
/// likewise for `>>`.
pub proof fn law_shift_i64(v: i64, n: i64)
    requires
        0 <= n < 64,
    ensures
        BigEndian((v << n).spec_to_big_endian()).spec_native() == v << n,
        BigEndian((v >> n).spec_to_big_endian()).spec_native() == v >> n,
        LittleEndian((v << n).spec_to_little_endian()).spec_native() == v << n,
        LittleEndian((v >> n).spec_to_little_endian()).spec_native() == v >> n,
        BigEndian(v.spec_to_big_endian()).shl_spec(BigEndian(n.spec_to_big_endian())) == BigEndian((v << n).spec_to_big_endian()),
        BigEndian(v.spec_to_big_endian()).shr_spec(BigEndian(n.spec_to_big_endian())) == BigEndian((v >> n).spec_to_big_endian()),
        LittleEndian(v.spec_to_little_endian()).shl_spec(LittleEndian(n.spec_to_little_endian())) == LittleEndian((v << n).spec_to_little_endian()),
        LittleEndian(v.spec_to_little_endian()).shr_spec(LittleEndian(n.spec_to_little_endian())) == LittleEndian((v >> n).spec_to_little_endian()),
{
    law_round_trip_i64(v);
    law_round_trip_i64(n);
    law_round_trip_i64(v << n);
    law_round_trip_i64(v >> n);
}

/// Shifting a stored `u128` gives the stored form of the shifted host-order value, which reads
/// back as that value, in either byte order; so `from(v) << from(n) == from(v << n)`, and
/// likewise for `>>`.
pub proof fn law_shift_u128(v: u128, n: u128)
    requires
        n < 128,
    ensures
        BigEndian((v << n).spec_to_big_endian()).spec_native() == v << n,
        BigEndian((v >> n).spec_to_big_endian()).spec_native() == v >> n,
        LittleEndian((v << n).spec_to_little_endian()).spec_native() == v << n,
        LittleEndian((v >> n).spec_to_little_endian()).spec_native() == v >> n,
        BigEndian(v.spec_to_big_endian()).shl_spec(BigEndian(n.spec_to_big_endian())) == BigEndian((v << n).spec_to_big_endian()),
        BigEndian(v.spec_to_big_endian()).shr_spec(BigEndian(n.spec_to_big_endian())) == BigEndian((v >> n).spec_to_big_endian()),
        LittleEndian(v.spec_to_little_endian()).shl_spec(LittleEndian(n.spec_to_little_endian())) == LittleEndian((v << n).spec_to_little_endian()),
        LittleEndian(v.spec_to_little_endian()).shr_spec(LittleEndian(n.spec_to_little_endian())) == LittleEndian((v >> n).spec_to_little_endian()),
{
    law_round_trip_u128(v);
    law_round_trip_u128(n);
    law_round_trip_u128(v << n);
    law_round_trip_u128(v >> n);
}

/// Shifting a stored `i128` gives the stored form of the shifted host-order value, which reads
/// back as that value, in either byte order; so `from(v) << from(n) == from(v << n)`, and
/// likewise for `>>`.
pub proof fn law_shift_i128(v: i128, n: i128)
    requires
        0 <= n < 128,
    ensures
        BigEndian((v << n).spec_to_big_endian()).spec_native() == v << n,
        BigEndian((v >> n).spec_to_big_endian()).spec_native() == v >> n,
        LittleEndian((v << n).spec_to_little_endian()).spec_native() == v << n,
        LittleEndian((v >> n).spec_to_little_endian()).spec_native() == v >> n,
        BigEndian(v.spec_to_big_endian()).shl_spec(BigEndian(n.spec_to_big_endian())) == BigEndian((v << n).spec_to_big_endian()),
        BigEndian(v.spec_to_big_endian()).shr_spec(BigEndian(n.spec_to_big_endian())) == BigEndian((v >> n).spec_to_big_endian()),
        LittleEndian(v.spec_to_little_endian()).shl_spec(LittleEndian(n.spec_to_little_endian())) == LittleEndian((v << n).spec_to_little_endian()),
        LittleEndian(v.spec_to_little_endian()).shr_spec(LittleEndian(n.spec_to_little_endian())) == LittleEndian((v >> n).spec_to_little_endian()),
{
    law_round_trip_i128(v);
    law_round_trip_i128(n);
    law_round_trip_i128(v << n);
    law_round_trip_i128(v >> n);
}

/// Shifting a stored `usize` gives the stored form of the shifted host-order value, which reads
/// back as that value, in either byte order; so `from(v) << from(n) == from(v << n)`, and
/// likewise for `>>`.
pub proof fn law_shift_usize(v: usize, n: usize)
    requires
        n < usize::BITS,
    ensures
        BigEndian((v << n).spec_to_big_endian()).spec_native() == v << n,
        BigEndian((v >> n).spec_to_big_endian()).spec_native() == v >> n,
        LittleEndian((v << n).spec_to_little_endian()).spec_native() == v << n,
        LittleEndian((v >> n).spec_to_little_endian()).spec_native() == v >> n,
        BigEndian(v.spec_to_big_endian()).shl_spec(BigEndian(n.spec_to_big_endian())) == BigEndian((v << n).spec_to_big_endian()),
        BigEndian(v.spec_to_big_endian()).shr_spec(BigEndian(n.spec_to_big_endian())) == BigEndian((v >> n).spec_to_big_endian()),
        LittleEndian(v.spec_to_little_endian()).shl_spec(LittleEndian(n.spec_to_little_endian())) == LittleEndian((v << n).spec_to_little_endian()),
        LittleEndian(v.spec_to_little_endian()).shr_spec(LittleEndian(n.spec_to_little_endian())) == LittleEndian((v >> n).spec_to_little_endian()),
{
    law_round_trip_usize(v);
    law_round_trip_usize(n);
    law_round_trip_usize(v << n);
    law_round_trip_usize(v >> n);
}

/// Shifting a stored `isize` gives the stored form of the shifted host-order value, which reads
/// back as that value, in either byte order; so `from(v) << from(n) == from(v << n)`, and
/// likewise for `>>`.
pub proof fn law_shift_isize(v: isize, n: isize)
    requires
        0 <= n < usize::BITS,
    ensures
        BigEndian((v << n).spec_to_big_endian()).spec_native() == v << n,
        BigEndian((v >> n).spec_to_big_endian()).spec_native() == v >> n,
        LittleEndian((v << n).spec_to_little_endian()).spec_native() == v << n,
        LittleEndian((v >> n).spec_to_little_endian()).spec_native() == v >> n,
        BigEndian(v.spec_to_big_endian()).shl_spec(BigEndian(n.spec_to_big_endian())) == BigEndian((v << n).spec_to_big_endian()),
        BigEndian(v.spec_to_big_endian()).shr_spec(BigEndian(n.spec_to_big_endian())) == BigEndian((v >> n).spec_to_big_endian()),
        LittleEndian(v.spec_to_little_endian()).shl_spec(LittleEndian(n.spec_to_little_endian())) == LittleEndian((v << n).spec_to_little_endian()),
        LittleEndian(v.spec_to_little_endian()).shr_spec(LittleEndian(n.spec_to_little_endian())) == LittleEndian((v >> n).spec_to_little_endian()),
{
    law_round_trip_isize(v);
    law_round_trip_isize(n);
    law_round_trip_isize(v << n);
    law_round_trip_isize(v >> n);
}

} // verus!
