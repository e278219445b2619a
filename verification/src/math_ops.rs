//! Arithmetic on endian-tagged values: convert to host order, compute, store the result.
use vstd::prelude::*;

use core::ops::{Add, AddAssign, Div, DivAssign, Mul, MulAssign, Sub, SubAssign};
use vstd::std_specs::ops::{AddSpec, DivSpec, MulSpec, SubSpec};

use crate::specific_endian::{BigEndian, LittleEndian, SpecificEndian, round_trips};

verus! {

impl<T: Add<Output = T> + AddSpec<Output = T> + SpecificEndian<T>> Add for BigEndian<T> {
    type Output = BigEndian<T>;

    /// Computes on the host-order values and stores the result.
    fn add(self, other: BigEndian<T>) -> (r: BigEndian<T>) {
        BigEndian::from(self.to_native() + other.to_native())
    }
}

impl<T: Add<Output = T> + AddSpec<Output = T> + SpecificEndian<T>> vstd::std_specs::ops::AddSpecImpl for BigEndian<T> {
    open spec fn obeys_add_spec() -> bool {
        T::obeys_add_spec()
    }

    /// What the operation on the host-order values requires (no overflow, no division by zero).
    open spec fn add_req(self, rhs: BigEndian<T>) -> bool {
        self.spec_native().add_req(rhs.spec_native())
    }

    open spec fn add_spec(self, rhs: BigEndian<T>) -> BigEndian<T> {
        BigEndian(self.spec_native().add_spec(rhs.spec_native()).spec_to_big_endian())
    }
}

impl<T: Add<Output = T> + AddSpec<Output = T> + SpecificEndian<T>> AddAssign for BigEndian<T> {
    /// Computes on the host-order values in place.
    fn add_assign(&mut self, other: BigEndian<T>)
        requires
            old(self).spec_native().add_req(other.spec_native()),
        ensures
            T::obeys_add_spec() ==> *final(self) == BigEndian(
                old(self).spec_native().add_spec(other.spec_native()).spec_to_big_endian(),
            ),
    {
        *self = *self + other;
    }
}

impl<T: Sub<Output = T> + SubSpec<Output = T> + SpecificEndian<T>> Sub for BigEndian<T> {
    type Output = BigEndian<T>;

    /// Computes on the host-order values and stores the result.
    fn sub(self, other: BigEndian<T>) -> (r: BigEndian<T>) {
        BigEndian::from(self.to_native() - other.to_native())
    }
}

impl<T: Sub<Output = T> + SubSpec<Output = T> + SpecificEndian<T>> vstd::std_specs::ops::SubSpecImpl for BigEndian<T> {
    open spec fn obeys_sub_spec() -> bool {
        T::obeys_sub_spec()
    }

    /// What the operation on the host-order values requires (no overflow, no division by zero).
    open spec fn sub_req(self, rhs: BigEndian<T>) -> bool {
        self.spec_native().sub_req(rhs.spec_native())
    }

    open spec fn sub_spec(self, rhs: BigEndian<T>) -> BigEndian<T> {
        BigEndian(self.spec_native().sub_spec(rhs.spec_native()).spec_to_big_endian())
    }
}

impl<T: Sub<Output = T> + SubSpec<Output = T> + SpecificEndian<T>> SubAssign for BigEndian<T> {
    /// Computes on the host-order values in place.
    fn sub_assign(&mut self, other: BigEndian<T>)
        requires
            old(self).spec_native().sub_req(other.spec_native()),
        ensures
            T::obeys_sub_spec() ==> *final(self) == BigEndian(
                old(self).spec_native().sub_spec(other.spec_native()).spec_to_big_endian(),
            ),
    {
        *self = *self - other;
    }
}

impl<T: Mul<Output = T> + MulSpec<Output = T> + SpecificEndian<T>> Mul for BigEndian<T> {
    type Output = BigEndian<T>;

    /// Computes on the host-order values and stores the result.
    fn mul(self, other: BigEndian<T>) -> (r: BigEndian<T>) {
        BigEndian::from(self.to_native() * other.to_native())
    }
}

impl<T: Mul<Output = T> + MulSpec<Output = T> + SpecificEndian<T>> vstd::std_specs::ops::MulSpecImpl for BigEndian<T> {
    open spec fn obeys_mul_spec() -> bool {
        T::obeys_mul_spec()
    }

    /// What the operation on the host-order values requires (no overflow, no division by zero).
    open spec fn mul_req(self, rhs: BigEndian<T>) -> bool {
        self.spec_native().mul_req(rhs.spec_native())
    }

    open spec fn mul_spec(self, rhs: BigEndian<T>) -> BigEndian<T> {
        BigEndian(self.spec_native().mul_spec(rhs.spec_native()).spec_to_big_endian())
    }
}

impl<T: Mul<Output = T> + MulSpec<Output = T> + SpecificEndian<T>> MulAssign for BigEndian<T> {
    /// Computes on the host-order values in place.
    fn mul_assign(&mut self, other: BigEndian<T>)
        requires
            old(self).spec_native().mul_req(other.spec_native()),
        ensures
            T::obeys_mul_spec() ==> *final(self) == BigEndian(
                old(self).spec_native().mul_spec(other.spec_native()).spec_to_big_endian(),
            ),
    {
        *self = *self * other;
    }
}

impl<T: Div<Output = T> + DivSpec<Output = T> + SpecificEndian<T>> Div for BigEndian<T> {
    type Output = BigEndian<T>;

    /// Computes on the host-order values and stores the result.
    fn div(self, other: BigEndian<T>) -> (r: BigEndian<T>) {
        BigEndian::from(self.to_native() / other.to_native())
    }
}

impl<T: Div<Output = T> + DivSpec<Output = T> + SpecificEndian<T>> vstd::std_specs::ops::DivSpecImpl for BigEndian<T> {
    open spec fn obeys_div_spec() -> bool {
        T::obeys_div_spec()
    }

    /// What the operation on the host-order values requires (no overflow, no division by zero).
    open spec fn div_req(self, rhs: BigEndian<T>) -> bool {
        self.spec_native().div_req(rhs.spec_native())
    }

    open spec fn div_spec(self, rhs: BigEndian<T>) -> BigEndian<T> {
        BigEndian(self.spec_native().div_spec(rhs.spec_native()).spec_to_big_endian())
    }
}

impl<T: Div<Output = T> + DivSpec<Output = T> + SpecificEndian<T>> DivAssign for BigEndian<T> {
    /// Computes on the host-order values in place.
    fn div_assign(&mut self, other: BigEndian<T>)
        requires
            old(self).spec_native().div_req(other.spec_native()),
        ensures
            T::obeys_div_spec() ==> *final(self) == BigEndian(
                old(self).spec_native().div_spec(other.spec_native()).spec_to_big_endian(),
            ),
    {
        *self = *self / other;
    }
}

impl<T: Add<Output = T> + AddSpec<Output = T> + SpecificEndian<T>> Add for LittleEndian<T> {
    type Output = LittleEndian<T>;

    /// Computes on the host-order values and stores the result.
    fn add(self, other: LittleEndian<T>) -> (r: LittleEndian<T>) {
        LittleEndian::from(self.to_native() + other.to_native())
    }
}

impl<T: Add<Output = T> + AddSpec<Output = T> + SpecificEndian<T>> vstd::std_specs::ops::AddSpecImpl for LittleEndian<T> {
    open spec fn obeys_add_spec() -> bool {
        T::obeys_add_spec()
    }

    /// What the operation on the host-order values requires (no overflow, no division by zero).
    open spec fn add_req(self, rhs: LittleEndian<T>) -> bool {
        self.spec_native().add_req(rhs.spec_native())
    }

    open spec fn add_spec(self, rhs: LittleEndian<T>) -> LittleEndian<T> {
        LittleEndian(self.spec_native().add_spec(rhs.spec_native()).spec_to_little_endian())
    }
}

impl<T: Add<Output = T> + AddSpec<Output = T> + SpecificEndian<T>> AddAssign for LittleEndian<T> {
    /// Computes on the host-order values in place.
    fn add_assign(&mut self, other: LittleEndian<T>)
        requires
            old(self).spec_native().add_req(other.spec_native()),
        ensures
            T::obeys_add_spec() ==> *final(self) == LittleEndian(
                old(self).spec_native().add_spec(other.spec_native()).spec_to_little_endian(),
            ),
    {
        *self = *self + other;
    }
}

impl<T: Sub<Output = T> + SubSpec<Output = T> + SpecificEndian<T>> Sub for LittleEndian<T> {
    type Output = LittleEndian<T>;

    /// Computes on the host-order values and stores the result.
    fn sub(self, other: LittleEndian<T>) -> (r: LittleEndian<T>) {
        LittleEndian::from(self.to_native() - other.to_native())
    }
}

impl<T: Sub<Output = T> + SubSpec<Output = T> + SpecificEndian<T>> vstd::std_specs::ops::SubSpecImpl for LittleEndian<T> {
    open spec fn obeys_sub_spec() -> bool {
        T::obeys_sub_spec()
    }

    /// What the operation on the host-order values requires (no overflow, no division by zero).
    open spec fn sub_req(self, rhs: LittleEndian<T>) -> bool {
        self.spec_native().sub_req(rhs.spec_native())
    }

    open spec fn sub_spec(self, rhs: LittleEndian<T>) -> LittleEndian<T> {
        LittleEndian(self.spec_native().sub_spec(rhs.spec_native()).spec_to_little_endian())
    }
}

impl<T: Sub<Output = T> + SubSpec<Output = T> + SpecificEndian<T>> SubAssign for LittleEndian<T> {
    /// Computes on the host-order values in place.
    fn sub_assign(&mut self, other: LittleEndian<T>)
        requires
            old(self).spec_native().sub_req(other.spec_native()),
        ensures
            T::obeys_sub_spec() ==> *final(self) == LittleEndian(
                old(self).spec_native().sub_spec(other.spec_native()).spec_to_little_endian(),
            ),
    {
        *self = *self - other;
    }
}

impl<T: Mul<Output = T> + MulSpec<Output = T> + SpecificEndian<T>> Mul for LittleEndian<T> {
    type Output = LittleEndian<T>;

    /// Computes on the host-order values and stores the result.
    fn mul(self, other: LittleEndian<T>) -> (r: LittleEndian<T>) {
        LittleEndian::from(self.to_native() * other.to_native())
    }
}

impl<T: Mul<Output = T> + MulSpec<Output = T> + SpecificEndian<T>> vstd::std_specs::ops::MulSpecImpl for LittleEndian<T> {
    open spec fn obeys_mul_spec() -> bool {
        T::obeys_mul_spec()
    }

    /// What the operation on the host-order values requires (no overflow, no division by zero).
    open spec fn mul_req(self, rhs: LittleEndian<T>) -> bool {
        self.spec_native().mul_req(rhs.spec_native())
    }

    open spec fn mul_spec(self, rhs: LittleEndian<T>) -> LittleEndian<T> {
        LittleEndian(self.spec_native().mul_spec(rhs.spec_native()).spec_to_little_endian())
    }
}

impl<T: Mul<Output = T> + MulSpec<Output = T> + SpecificEndian<T>> MulAssign for LittleEndian<T> {
    /// Computes on the host-order values in place.
    fn mul_assign(&mut self, other: LittleEndian<T>)
        requires
            old(self).spec_native().mul_req(other.spec_native()),
        ensures
            T::obeys_mul_spec() ==> *final(self) == LittleEndian(
                old(self).spec_native().mul_spec(other.spec_native()).spec_to_little_endian(),
            ),
    {
        *self = *self * other;
    }
}

impl<T: Div<Output = T> + DivSpec<Output = T> + SpecificEndian<T>> Div for LittleEndian<T> {
    type Output = LittleEndian<T>;

    /// Computes on the host-order values and stores the result.
    fn div(self, other: LittleEndian<T>) -> (r: LittleEndian<T>) {
        LittleEndian::from(self.to_native() / other.to_native())
    }
}

impl<T: Div<Output = T> + DivSpec<Output = T> + SpecificEndian<T>> vstd::std_specs::ops::DivSpecImpl for LittleEndian<T> {
    open spec fn obeys_div_spec() -> bool {
        T::obeys_div_spec()
    }

    /// What the operation on the host-order values requires (no overflow, no division by zero).
    open spec fn div_req(self, rhs: LittleEndian<T>) -> bool {
        self.spec_native().div_req(rhs.spec_native())
    }

    open spec fn div_spec(self, rhs: LittleEndian<T>) -> LittleEndian<T> {
        LittleEndian(self.spec_native().div_spec(rhs.spec_native()).spec_to_little_endian())
    }
}

impl<T: Div<Output = T> + DivSpec<Output = T> + SpecificEndian<T>> DivAssign for LittleEndian<T> {
    /// Computes on the host-order values in place.
    fn div_assign(&mut self, other: LittleEndian<T>)
        requires
            old(self).spec_native().div_req(other.spec_native()),
        ensures
            T::obeys_div_spec() ==> *final(self) == LittleEndian(
                old(self).spec_native().div_spec(other.spec_native()).spec_to_little_endian(),
            ),
    {
        *self = *self / other;
    }
}

/// `+` on stored values is storing `+` of the host-order values: for values that survive
/// storing (every primitive value does), `from(a) + from(b) == from(a + b)` in either byte order.
pub proof fn law_add_native<T: Add<Output = T> + AddSpec<Output = T> + SpecificEndian<T>>(a: T, b: T)
    requires
        round_trips(a),
        round_trips(b),
    ensures
        BigEndian(a.spec_to_big_endian()).add_spec(BigEndian(b.spec_to_big_endian())) == BigEndian(
            a.add_spec(b).spec_to_big_endian(),
        ),
        LittleEndian(a.spec_to_little_endian()).add_spec(LittleEndian(b.spec_to_little_endian()))
            == LittleEndian(a.add_spec(b).spec_to_little_endian()),
{
}

/// `-` on stored values is storing `-` of the host-order values: for values that survive
/// storing (every primitive value does), `from(a) - from(b) == from(a - b)` in either byte order.
pub proof fn law_sub_native<T: Sub<Output = T> + SubSpec<Output = T> + SpecificEndian<T>>(a: T, b: T)
    requires
        round_trips(a),
        round_trips(b),
    ensures
        BigEndian(a.spec_to_big_endian()).sub_spec(BigEndian(b.spec_to_big_endian())) == BigEndian(
            a.sub_spec(b).spec_to_big_endian(),
        ),
        LittleEndian(a.spec_to_little_endian()).sub_spec(LittleEndian(b.spec_to_little_endian()))
            == LittleEndian(a.sub_spec(b).spec_to_little_endian()),
{
}

/// `*` on stored values is storing `*` of the host-order values: for values that survive
/// storing (every primitive value does), `from(a) * from(b) == from(a * b)` in either byte order.
pub proof fn law_mul_native<T: Mul<Output = T> + MulSpec<Output = T> + SpecificEndian<T>>(a: T, b: T)
    requires
        round_trips(a),
        round_trips(b),
    ensures
        BigEndian(a.spec_to_big_endian()).mul_spec(BigEndian(b.spec_to_big_endian())) == BigEndian(
            a.mul_spec(b).spec_to_big_endian(),
        ),
        LittleEndian(a.spec_to_little_endian()).mul_spec(LittleEndian(b.spec_to_little_endian()))
            == LittleEndian(a.mul_spec(b).spec_to_little_endian()),
{
}

/// `/` on stored values is storing `/` of the host-order values: for values that survive
/// storing (every primitive value does), `from(a) / from(b) == from(a / b)` in either byte order.
pub proof fn law_div_native<T: Div<Output = T> + DivSpec<Output = T> + SpecificEndian<T>>(a: T, b: T)
    requires
        round_trips(a),
        round_trips(b),
    ensures
        BigEndian(a.spec_to_big_endian()).div_spec(BigEndian(b.spec_to_big_endian())) == BigEndian(
            a.div_spec(b).spec_to_big_endian(),
        ),
        LittleEndian(a.spec_to_little_endian()).div_spec(LittleEndian(b.spec_to_little_endian()))
            == LittleEndian(a.div_spec(b).spec_to_little_endian()),
{
}

} // verus!
