//! Types whose representation does not depend on byte order: the unit type, `bool`,
//! single-byte integers, `char` and strings. Their conversions are no-ops.
use vstd::prelude::*;

use crate::byte_order::{Endian, host_endian, spec_host_big};

verus! {

/// A type that is the same in big-endian and little-endian representation; every conversion
/// returns the value unchanged.
pub trait SimpleEndian: Sized {
    /// No-op conversion to big-endian representation.
    fn to_big_endian(self) -> (r: Self)
        ensures
            r == self,
    {
        self
    }

    /// No-op conversion to little-endian representation.
    fn to_little_endian(self) -> (r: Self)
        ensures
            r == self,
    {
        self
    }

    /// No-op conversion from big-endian representation.
    fn from_big_endian(self) -> (r: Self)
        ensures
            r == self,
    {
        self
    }

    /// No-op conversion from little-endian representation.
    fn from_little_endian(self) -> (r: Self)
        ensures
            r == self,
    {
        self
    }

    /// The byte order of the executing hardware.
    fn endian(&self) -> (e: Endian)
        ensures
            (e is Big) == spec_host_big(),
    {
        host_endian()
    }
}

impl SimpleEndian for () {}

impl SimpleEndian for bool {}

impl SimpleEndian for u8 {}

impl SimpleEndian for i8 {}

impl SimpleEndian for char {}

impl SimpleEndian for &str {}

impl SimpleEndian for String {}

} // verus!
