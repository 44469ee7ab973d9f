//! The operators `==` and `<` for serial numbers. Either operand may be a
//! plain integer.
//!
//! The standard library has no name for the relation of two numbers that are
//! half the circle apart: `partial_cmp` gives `None` for them, and `<`, `<=`,
//! `>` and `>=` are all false.
use crate::relation::Relation;
use crate::serial::SerialNumber;
use crate::width::Unsigned;
use core::cmp::Ordering;
use vstd::prelude::*;
use vstd::std_specs::cmp::{PartialEqSpecImpl, PartialOrdSpecImpl};

verus! {

impl Relation {
    /// The relation as the standard library writes it: no value where the
    /// relation is `Undefined`.
    pub open spec fn ordering(self) -> Option<Ordering> {
        match self {
            Relation::Less => Some(Ordering::Less),
            Relation::Equal => Some(Ordering::Equal),
            Relation::Greater => Some(Ordering::Greater),
            Relation::Undefined => None,
        }
    }

    /// Writes the relation as the standard library does.
    #[verifier::when_used_as_spec(ordering)]
    pub fn to_ordering(self) -> (ordering: Option<Ordering>)
        ensures
            ordering == self.ordering(),
    {
        match self {
            Relation::Less => Some(Ordering::Less),
            Relation::Equal => Some(Ordering::Equal),
            Relation::Greater => Some(Ordering::Greater),
            Relation::Undefined => None,
        }
    }
}

impl<T: Unsigned> PartialEq for SerialNumber<T> {
    /// Tests whether two serial numbers are the same.
    fn eq(&self, other: &SerialNumber<T>) -> (same: bool)
        ensures
            same == self.spec_equals(*other),
    {
        self.equals(*other)
    }
}

impl<T: Unsigned> PartialEqSpecImpl for SerialNumber<T> {
    open spec fn obeys_eq_spec() -> bool {
        true
    }

    open spec fn eq_spec(&self, other: &SerialNumber<T>) -> bool {
        self.spec_equals(*other)
    }
}

impl<T: Unsigned> PartialEq<T> for SerialNumber<T> {
    /// Tests whether a serial number stands at an integer.
    fn eq(&self, other: &T) -> (same: bool)
        ensures
            same == self.spec_equals(SerialNumber(*other)),
    {
        self.equals(SerialNumber(*other))
    }
}

impl<T: Unsigned> PartialEqSpecImpl<T> for SerialNumber<T> {
    open spec fn obeys_eq_spec() -> bool {
        true
    }

    open spec fn eq_spec(&self, other: &T) -> bool {
        self.spec_equals(SerialNumber(*other))
    }
}

impl<T: Unsigned> PartialOrd for SerialNumber<T> {
    /// Compares two serial numbers by the shorter way round the circle.
    fn partial_cmp(&self, other: &SerialNumber<T>) -> (ordering: Option<Ordering>)
        ensures
            ordering == self.spec_compare(*other).ordering(),
    {
        self.compare(*other).to_ordering()
    }
}

impl<T: Unsigned> PartialOrdSpecImpl for SerialNumber<T> {
    open spec fn obeys_partial_cmp_spec() -> bool {
        true
    }

    open spec fn partial_cmp_spec(&self, other: &SerialNumber<T>) -> Option<Ordering> {
        self.spec_compare(*other).ordering()
    }
}

impl<T: Unsigned> PartialOrd<T> for SerialNumber<T> {
    /// Compares a serial number with the one that stands at an integer.
    fn partial_cmp(&self, other: &T) -> (ordering: Option<Ordering>)
        ensures
            ordering == self.spec_compare(SerialNumber(*other)).ordering(),
    {
        self.compare(SerialNumber(*other)).to_ordering()
    }
}

impl<T: Unsigned> PartialOrdSpecImpl<T> for SerialNumber<T> {
    open spec fn obeys_partial_cmp_spec() -> bool {
        true
    }

    open spec fn partial_cmp_spec(&self, other: &T) -> Option<Ordering> {
        self.spec_compare(SerialNumber(*other)).ordering()
    }
}

impl PartialEq<SerialNumber<u8>> for u8 {
    /// Tests whether an integer is the one that a serial number stands at.
    fn eq(&self, other: &SerialNumber<u8>) -> (same: bool)
        ensures
            same == other.spec_equals(SerialNumber(*self)),
    {
        other.equals(SerialNumber(*self))
    }
}

impl PartialEqSpecImpl<SerialNumber<u8>> for u8 {
    open spec fn obeys_eq_spec() -> bool {
        true
    }

    open spec fn eq_spec(&self, other: &SerialNumber<u8>) -> bool {
        other.spec_equals(SerialNumber(*self))
    }
}

impl PartialOrd<SerialNumber<u8>> for u8 {
    /// Compares the serial number that stands at an integer with another:
    /// the reverse of comparing the other with it.
    fn partial_cmp(&self, other: &SerialNumber<u8>) -> (ordering: Option<Ordering>)
        ensures
            ordering == other.spec_compare(SerialNumber(*self)).spec_reverse().ordering(),
    {
        other.compare(SerialNumber(*self)).reverse().to_ordering()
    }
}

impl PartialOrdSpecImpl<SerialNumber<u8>> for u8 {
    open spec fn obeys_partial_cmp_spec() -> bool {
        true
    }

    open spec fn partial_cmp_spec(&self, other: &SerialNumber<u8>) -> Option<Ordering> {
        other.spec_compare(SerialNumber(*self)).spec_reverse().ordering()
    }
}

impl PartialEq<SerialNumber<u16>> for u16 {
    /// Tests whether an integer is the one that a serial number stands at.
    fn eq(&self, other: &SerialNumber<u16>) -> (same: bool)
        ensures
            same == other.spec_equals(SerialNumber(*self)),
    {
        other.equals(SerialNumber(*self))
    }
}

impl PartialEqSpecImpl<SerialNumber<u16>> for u16 {
    open spec fn obeys_eq_spec() -> bool {
        true
    }

    open spec fn eq_spec(&self, other: &SerialNumber<u16>) -> bool {
        other.spec_equals(SerialNumber(*self))
    }
}

impl PartialOrd<SerialNumber<u16>> for u16 {
    /// Compares the serial number that stands at an integer with another:
    /// the reverse of comparing the other with it.
    fn partial_cmp(&self, other: &SerialNumber<u16>) -> (ordering: Option<Ordering>)
        ensures
            ordering == other.spec_compare(SerialNumber(*self)).spec_reverse().ordering(),
    {
        other.compare(SerialNumber(*self)).reverse().to_ordering()
    }
}

impl PartialOrdSpecImpl<SerialNumber<u16>> for u16 {
    open spec fn obeys_partial_cmp_spec() -> bool {
        true
    }

    open spec fn partial_cmp_spec(&self, other: &SerialNumber<u16>) -> Option<Ordering> {
        other.spec_compare(SerialNumber(*self)).spec_reverse().ordering()
    }
}

impl PartialEq<SerialNumber<u32>> for u32 {
    /// Tests whether an integer is the one that a serial number stands at.
    fn eq(&self, other: &SerialNumber<u32>) -> (same: bool)
        ensures
            same == other.spec_equals(SerialNumber(*self)),
    {
        other.equals(SerialNumber(*self))
    }
}

impl PartialEqSpecImpl<SerialNumber<u32>> for u32 {
    open spec fn obeys_eq_spec() -> bool {
        true
    }

    open spec fn eq_spec(&self, other: &SerialNumber<u32>) -> bool {
        other.spec_equals(SerialNumber(*self))
    }
}

impl PartialOrd<SerialNumber<u32>> for u32 {
    /// Compares the serial number that stands at an integer with another:
    /// the reverse of comparing the other with it.
    fn partial_cmp(&self, other: &SerialNumber<u32>) -> (ordering: Option<Ordering>)
        ensures
            ordering == other.spec_compare(SerialNumber(*self)).spec_reverse().ordering(),
    {
        other.compare(SerialNumber(*self)).reverse().to_ordering()
    }
}

impl PartialOrdSpecImpl<SerialNumber<u32>> for u32 {
    open spec fn obeys_partial_cmp_spec() -> bool {
        true
    }

    open spec fn partial_cmp_spec(&self, other: &SerialNumber<u32>) -> Option<Ordering> {
        other.spec_compare(SerialNumber(*self)).spec_reverse().ordering()
    }
}

impl PartialEq<SerialNumber<u64>> for u64 {
    /// Tests whether an integer is the one that a serial number stands at.
    fn eq(&self, other: &SerialNumber<u64>) -> (same: bool)
        ensures
            same == other.spec_equals(SerialNumber(*self)),
    {
        other.equals(SerialNumber(*self))
    }
}

impl PartialEqSpecImpl<SerialNumber<u64>> for u64 {
    open spec fn obeys_eq_spec() -> bool {
        true
    }

    open spec fn eq_spec(&self, other: &SerialNumber<u64>) -> bool {
        other.spec_equals(SerialNumber(*self))
    }
}

impl PartialOrd<SerialNumber<u64>> for u64 {
    /// Compares the serial number that stands at an integer with another:
    /// the reverse of comparing the other with it.
    fn partial_cmp(&self, other: &SerialNumber<u64>) -> (ordering: Option<Ordering>)
        ensures
            ordering == other.spec_compare(SerialNumber(*self)).spec_reverse().ordering(),
    {
        other.compare(SerialNumber(*self)).reverse().to_ordering()
    }
}

impl PartialOrdSpecImpl<SerialNumber<u64>> for u64 {
    open spec fn obeys_partial_cmp_spec() -> bool {
        true
    }

    open spec fn partial_cmp_spec(&self, other: &SerialNumber<u64>) -> Option<Ordering> {
        other.spec_compare(SerialNumber(*self)).spec_reverse().ordering()
    }
}

} // verus!
