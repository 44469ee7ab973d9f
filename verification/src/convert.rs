//! Conversion between integers and serial numbers, in both directions.
use crate::serial::SerialNumber;
use crate::width::Unsigned;
use vstd::prelude::*;
use vstd::std_specs::convert::FromSpecImpl;

verus! {

impl<T: Unsigned> From<T> for SerialNumber<T> {
    /// Converts an integer into the serial number that stands at it.
    fn from(number: T) -> (serial: Self)
        ensures
            serial == SerialNumber::spec_from_raw(number),
    {
        SerialNumber::from_raw(number)
    }
}

impl<T: Unsigned> FromSpecImpl<T> for SerialNumber<T> {
    open spec fn obeys_from_spec() -> bool {
        true
    }

    open spec fn from_spec(number: T) -> Self {
        SerialNumber::spec_from_raw(number)
    }
}

impl From<SerialNumber<u8>> for u8 {
    /// Converts a serial number into the integer that it stands at.
    fn from(serial: SerialNumber<u8>) -> (number: Self)
        ensures
            number == serial.spec_to_raw(),
    {
        serial.to_raw()
    }
}

impl FromSpecImpl<SerialNumber<u8>> for u8 {
    open spec fn obeys_from_spec() -> bool {
        true
    }

    open spec fn from_spec(serial: SerialNumber<u8>) -> Self {
        serial.spec_to_raw()
    }
}

impl From<SerialNumber<u16>> for u16 {
    /// Converts a serial number into the integer that it stands at.
    fn from(serial: SerialNumber<u16>) -> (number: Self)
        ensures
            number == serial.spec_to_raw(),
    {
        serial.to_raw()
    }
}

impl FromSpecImpl<SerialNumber<u16>> for u16 {
    open spec fn obeys_from_spec() -> bool {
        true
    }

    open spec fn from_spec(serial: SerialNumber<u16>) -> Self {
        serial.spec_to_raw()
    }
}

impl From<SerialNumber<u32>> for u32 {
    /// Converts a serial number into the integer that it stands at.
    fn from(serial: SerialNumber<u32>) -> (number: Self)
        ensures
            number == serial.spec_to_raw(),
    {
        serial.to_raw()
    }
}

impl FromSpecImpl<SerialNumber<u32>> for u32 {
    open spec fn obeys_from_spec() -> bool {
        true
    }

    open spec fn from_spec(serial: SerialNumber<u32>) -> Self {
        serial.spec_to_raw()
    }
}

impl From<SerialNumber<u64>> for u64 {
    /// Converts a serial number into the integer that it stands at.
    fn from(serial: SerialNumber<u64>) -> (number: Self)
        ensures
            number == serial.spec_to_raw(),
    {
        serial.to_raw()
    }
}

impl FromSpecImpl<SerialNumber<u64>> for u64 {
    open spec fn obeys_from_spec() -> bool {
        true
    }

    open spec fn from_spec(serial: SerialNumber<u64>) -> Self {
        serial.spec_to_raw()
    }
}

} // verus!
