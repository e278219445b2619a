//! Ordering of endian-tagged values: two values compare as their host-order values do.
use vstd::prelude::*;

use core::cmp::Ordering;
use vstd::std_specs::cmp::{PartialOrdSpec, PartialOrdSpecImpl};

use crate::specific_endian::{BigEndian, LittleEndian, SpecificEndian};

verus! {

impl<T: PartialOrd + PartialOrdSpec + SpecificEndian<T>> PartialOrd for BigEndian<T> {
    /// Compares the host-order values, not the stored bytes.
    fn partial_cmp(&self, other: &BigEndian<T>) -> (r: Option<Ordering>) {
        self.to_native().partial_cmp(&other.to_native())
    }
}

impl<T: PartialOrd + PartialOrdSpec + SpecificEndian<T>> PartialOrdSpecImpl for BigEndian<T> {
    open spec fn obeys_partial_cmp_spec() -> bool {
        T::obeys_partial_cmp_spec()
    }

    open spec fn partial_cmp_spec(&self, other: &BigEndian<T>) -> Option<Ordering> {
        self.spec_native().partial_cmp_spec(&other.spec_native())
    }
}

impl<T: PartialOrd + PartialOrdSpec + SpecificEndian<T>> PartialOrd for LittleEndian<T> {
    /// Compares the host-order values, not the stored bytes.
    fn partial_cmp(&self, other: &LittleEndian<T>) -> (r: Option<Ordering>) {
        self.to_native().partial_cmp(&other.to_native())
    }
}

impl<T: PartialOrd + PartialOrdSpec + SpecificEndian<T>> PartialOrdSpecImpl for LittleEndian<T> {
    open spec fn obeys_partial_cmp_spec() -> bool {
        T::obeys_partial_cmp_spec()
    }

    open spec fn partial_cmp_spec(&self, other: &LittleEndian<T>) -> Option<Ordering> {
        self.spec_native().partial_cmp_spec(&other.spec_native())
    }
}

} // verus!
