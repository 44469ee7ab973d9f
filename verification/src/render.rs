//! Serial numbers as text.
//!
//! A serial number is written exactly as the integer that it stands at: the
//! standard library renders the integer, and nothing is added to its digits.
use crate::serial::SerialNumber;
use crate::width::Unsigned;
use vstd::prelude::*;

verus! {

/// The sixteen digits, with the letters in lower case.
pub open spec fn lower_digits() -> Seq<char> {
    seq!['0', '1', '2', '3', '4', '5', '6', '7', '8', '9', 'a', 'b', 'c', 'd', 'e', 'f']
}

/// The sixteen digits, with the letters in upper case.
pub open spec fn upper_digits() -> Seq<char> {
    seq!['0', '1', '2', '3', '4', '5', '6', '7', '8', '9', 'A', 'B', 'C', 'D', 'E', 'F']
}

/// The numeral of `number` in the given radix: its digits from the most
/// significant to the least, taken from `digits`, with no sign, prefix or
/// leading zero. Zero is written as one digit.
pub open spec fn numeral(number: nat, radix: nat, digits: Seq<char>) -> Seq<char>
    recommends
        2 <= radix <= digits.len(),
    decreases number,
    via numeral_decreases
{
    if radix < 2 || number < radix {
        seq![digits[number as int]]
    } else {
        numeral(number / radix, radix, digits).push(digits[(number % radix) as int])
    }
}

#[via_fn]
proof fn numeral_decreases(number: nat, radix: nat, digits: Seq<char>) {
    if radix >= 2 && number >= radix {
        assert(number / radix < number) by (nonlinear_arith)
            requires
                radix >= 2,
                number >= radix,
        ;
    }
}

/// `format!` with `{}` on a `u64`, the integer's `Display`. The standard
/// library writes an unsigned integer in decimal digits, most significant
/// first, without a sign and without leading zeros.
#[verifier::external_body]
fn display_text(number: u64) -> (text: String)
    ensures
        text@ == numeral(number as nat, 10, lower_digits()),
{
    format!("{}", number)
}

/// What the standard library writes for `number` with `{:?}`. It promises
/// no particular text for debugging, only the same text for the same integer.
pub uninterp spec fn debug_numeral(number: u64) -> Seq<char>;

/// `format!` with `{:?}` on a `u64`, the integer's `Debug`. The text depends
/// on the integer alone.
#[verifier::external_body]
fn debug_text(number: u64) -> (text: String)
    ensures
        text@ == debug_numeral(number),
{
    format!("{:?}", number)
}

/// `format!` with `{:b}` on a `u64`, the integer's `Binary`. Without a flag
/// the standard library writes the binary digits alone, most significant
/// first.
#[verifier::external_body]
fn binary_text(number: u64) -> (text: String)
    ensures
        text@ == numeral(number as nat, 2, lower_digits()),
{
    format!("{:b}", number)
}

/// `format!` with `{:o}` on a `u64`, the integer's `Octal`. Without a flag
/// the standard library writes the octal digits alone, most significant
/// first.
#[verifier::external_body]
fn octal_text(number: u64) -> (text: String)
    ensures
        text@ == numeral(number as nat, 8, lower_digits()),
{
    format!("{:o}", number)
}

/// `format!` with `{:x}` on a `u64`, the integer's `LowerHex`. Without a
/// flag the standard library writes the hexadecimal digits alone, most
/// significant first, with `a` to `f` in lower case.
#[verifier::external_body]
fn lower_hex_text(number: u64) -> (text: String)
    ensures
        text@ == numeral(number as nat, 16, lower_digits()),
{
    format!("{:x}", number)
}

/// `format!` with `{:X}` on a `u64`, the integer's `UpperHex`. Without a
/// flag the standard library writes the hexadecimal digits alone, most
/// significant first, with `A` to `F` in upper case.
#[verifier::external_body]
fn upper_hex_text(number: u64) -> (text: String)
    ensures
        text@ == numeral(number as nat, 16, upper_digits()),
{
    format!("{:X}", number)
}

impl<T: Unsigned> SerialNumber<T> {
    /// The serial number in decimal digits, as the integer that it stands at
    /// is displayed.
    pub fn to_string(&self) -> (text: String)
        ensures
            text@ == numeral(self@, 10, lower_digits()),
    {
        display_text(self.0.widen())
    }

    /// The serial number as it is written for debugging: as the integer that
    /// it stands at is.
    pub fn to_debug(&self) -> (text: String)
        ensures
            text@ == debug_numeral(self@ as u64),
    {
        debug_text(self.0.widen())
    }

    /// The serial number in binary digits.
    pub fn to_binary(&self) -> (text: String)
        ensures
            text@ == numeral(self@, 2, lower_digits()),
    {
        binary_text(self.0.widen())
    }

    /// The serial number in octal digits.
    pub fn to_octal(&self) -> (text: String)
        ensures
            text@ == numeral(self@, 8, lower_digits()),
    {
        octal_text(self.0.widen())
    }

    /// The serial number in hexadecimal digits, with `a` to `f` in lower case.
    pub fn to_lower_hex(&self) -> (text: String)
        ensures
            text@ == numeral(self@, 16, lower_digits()),
    {
        lower_hex_text(self.0.widen())
    }

    /// The serial number in hexadecimal digits, with `A` to `F` in upper case.
    pub fn to_upper_hex(&self) -> (text: String)
        ensures
            text@ == numeral(self@, 16, upper_digits()),
    {
        upper_hex_text(self.0.widen())
    }
}

} // verus!
