//! The operators `+` and `+=` for serial numbers. Either operand of `+` may
//! be a plain integer, and so may the right operand of `+=`.
//!
//! What `+` returns is stated by the `add_spec` that follows each `add`: an
//! integer among the operands counts as the serial number that stands at it.
//! In the bodies, `add` with a dot is the method of `SerialNumber` itself,
//! which Rust looks up before the operator's.
use crate::serial::SerialNumber;
use crate::width::Unsigned;
use core::ops::{Add, AddAssign};
use vstd::prelude::*;
use vstd::std_specs::ops::AddSpecImpl;

verus! {

impl<T: Unsigned> Add for SerialNumber<T> {
    type Output = SerialNumber<T>;

    /// Adds two serial numbers, wrapping round past the largest number.
    fn add(self, other: SerialNumber<T>) -> (sum: SerialNumber<T>) {
        self.add(other)
    }
}

impl<T: Unsigned> AddSpecImpl for SerialNumber<T> {
    open spec fn obeys_add_spec() -> bool {
        true
    }

    open spec fn add_req(self, other: SerialNumber<T>) -> bool {
        true
    }

    open spec fn add_spec(self, other: SerialNumber<T>) -> SerialNumber<T> {
        self.spec_add(other)
    }
}

impl<T: Unsigned> Add<T> for SerialNumber<T> {
    type Output = SerialNumber<T>;

    /// Adds an integer to a serial number, wrapping round past the largest
    /// number.
    fn add(self, other: T) -> (sum: SerialNumber<T>) {
        self.add(SerialNumber(other))
    }
}

impl<T: Unsigned> AddSpecImpl<T> for SerialNumber<T> {
    open spec fn obeys_add_spec() -> bool {
        true
    }

    open spec fn add_req(self, other: T) -> bool {
        true
    }

    open spec fn add_spec(self, other: T) -> SerialNumber<T> {
        self.spec_add(SerialNumber(other))
    }
}

impl<T: Unsigned> AddAssign for SerialNumber<T> {
    /// Adds a serial number in place, wrapping round past the largest number.
    fn add_assign(&mut self, other: SerialNumber<T>)
        ensures
            *final(self) == old(self).spec_add(other),
    {
        *self = self.add(other);
    }
}

impl<T: Unsigned> AddAssign<T> for SerialNumber<T> {
    /// Adds an integer in place, wrapping round past the largest number.
    fn add_assign(&mut self, other: T)
        ensures
            *final(self) == old(self).spec_add(SerialNumber(other)),
    {
        *self = self.add(SerialNumber(other));
    }
}

impl Add<SerialNumber<u8>> for u8 {
    type Output = SerialNumber<u8>;

    /// Adds a serial number to an integer, wrapping round past the largest
    /// number.
    fn add(self, other: SerialNumber<u8>) -> (sum: SerialNumber<u8>) {
        other.add(SerialNumber(self))
    }
}

impl AddSpecImpl<SerialNumber<u8>> for u8 {
    open spec fn obeys_add_spec() -> bool {
        true
    }

    open spec fn add_req(self, other: SerialNumber<u8>) -> bool {
        true
    }

    open spec fn add_spec(self, other: SerialNumber<u8>) -> SerialNumber<u8> {
        other.spec_add(SerialNumber(self))
    }
}

impl Add<SerialNumber<u16>> for u16 {
    type Output = SerialNumber<u16>;

    /// Adds a serial number to an integer, wrapping round past the largest
    /// number.
    fn add(self, other: SerialNumber<u16>) -> (sum: SerialNumber<u16>) {
        other.add(SerialNumber(self))
    }
}

impl AddSpecImpl<SerialNumber<u16>> for u16 {
    open spec fn obeys_add_spec() -> bool {
        true
    }

    open spec fn add_req(self, other: SerialNumber<u16>) -> bool {
        true
    }

    open spec fn add_spec(self, other: SerialNumber<u16>) -> SerialNumber<u16> {
        other.spec_add(SerialNumber(self))
    }
}

impl Add<SerialNumber<u32>> for u32 {
    type Output = SerialNumber<u32>;

    /// Adds a serial number to an integer, wrapping round past the largest
    /// number.
    fn add(self, other: SerialNumber<u32>) -> (sum: SerialNumber<u32>) {
        other.add(SerialNumber(self))
    }
}

impl AddSpecImpl<SerialNumber<u32>> for u32 {
    open spec fn obeys_add_spec() -> bool {
        true
    }

    open spec fn add_req(self, other: SerialNumber<u32>) -> bool {
        true
    }

    open spec fn add_spec(self, other: SerialNumber<u32>) -> SerialNumber<u32> {
        other.spec_add(SerialNumber(self))
    }
}

impl Add<SerialNumber<u64>> for u64 {
    type Output = SerialNumber<u64>;

    /// Adds a serial number to an integer, wrapping round past the largest
    /// number.
    fn add(self, other: SerialNumber<u64>) -> (sum: SerialNumber<u64>) {
        other.add(SerialNumber(self))
    }
}

impl AddSpecImpl<SerialNumber<u64>> for u64 {
    open spec fn obeys_add_spec() -> bool {
        true
    }

    open spec fn add_req(self, other: SerialNumber<u64>) -> bool {
        true
    }

    open spec fn add_spec(self, other: SerialNumber<u64>) -> SerialNumber<u64> {
        other.spec_add(SerialNumber(self))
    }
}

} // verus!
