//! The unsigned integer types that a serial number can be built on.
//!
//! Everything that depends on the width of the counter is gathered in the
//! trait `Unsigned`, so that the arithmetic and the ordering of serial numbers
//! are written once for all widths.
use vstd::arithmetic::power2::{lemma2_to64, lemma2_to64_rest, pow2};
use vstd::prelude::*;

verus! {

/// An unsigned integer type of a fixed width.
pub trait Unsigned: Copy + Sized {
    /// The width of the type in bits.
    spec fn bits() -> nat;

    /// The size of the counter space: how many numbers the type holds.
    spec fn modulus() -> nat;

    /// Half the size of the counter space.
    spec fn half() -> nat;

    /// The number that `self` holds.
    spec fn value(self) -> nat;

    /// The value of the type that holds `number`.
    spec fn of_value(number: nat) -> Self;

    /// The width is not zero. The counter space holds two to the power of the
    /// width numbers, and its half two to the power of the width less one.
    proof fn lemma_space()
        ensures
            0 < Self::bits(),
            Self::modulus() == pow2(Self::bits()),
            Self::half() == pow2((Self::bits() - 1) as nat),
            Self::modulus() == 2 * Self::half(),
            0 < Self::half(),
    ;

    /// Every value holds a number of the counter space.
    proof fn lemma_in_range(self)
        ensures
            self.value() < Self::modulus(),
    ;

    /// Every number of the counter space is held by a value.
    proof fn lemma_value_of(number: nat)
        requires
            number < Self::modulus(),
        ensures
            Self::of_value(number).value() == number,
    ;

    /// A value is known by the number that it holds.
    proof fn lemma_of_value(self)
        ensures
            Self::of_value(self.value()) == self,
    ;

    /// The midpoint of the counter space.
    fn midpoint() -> (mid: Self)
        ensures
            mid.value() == Self::half(),
    ;

    /// The sum of `self` and `rhs`, reduced modulo the size of the counter
    /// space.
    fn wrapping_sum(self, rhs: Self) -> (sum: Self)
        ensures
            sum.value() == (self.value() + rhs.value()) % Self::modulus(),
    ;

    /// The same number as a `u64`.
    fn widen(self) -> (wide: u64)
        ensures
            wide == self.value(),
    ;
}

impl Unsigned for u8 {
    open spec fn bits() -> nat {
        8
    }

    open spec fn modulus() -> nat {
        0x100
    }

    open spec fn half() -> nat {
        0x80
    }

    open spec fn value(self) -> nat {
        self as nat
    }

    open spec fn of_value(number: nat) -> Self {
        number as u8
    }

    proof fn lemma_space() {
        lemma2_to64();
    }

    proof fn lemma_in_range(self) {
    }

    proof fn lemma_value_of(number: nat) {
    }

    proof fn lemma_of_value(self) {
    }

    fn midpoint() -> (mid: Self) {
        0x80
    }

    fn wrapping_sum(self, rhs: Self) -> (sum: Self) {
        self.wrapping_add(rhs)
    }

    fn widen(self) -> (wide: u64) {
        self as u64
    }
}

impl Unsigned for u16 {
    open spec fn bits() -> nat {
        16
    }

    open spec fn modulus() -> nat {
        0x1_0000
    }

    open spec fn half() -> nat {
        0x8000
    }

    open spec fn value(self) -> nat {
        self as nat
    }

    open spec fn of_value(number: nat) -> Self {
        number as u16
    }

    proof fn lemma_space() {
        lemma2_to64();
    }

    proof fn lemma_in_range(self) {
    }

    proof fn lemma_value_of(number: nat) {
    }

    proof fn lemma_of_value(self) {
    }

    fn midpoint() -> (mid: Self) {
        0x8000
    }

    fn wrapping_sum(self, rhs: Self) -> (sum: Self) {
        self.wrapping_add(rhs)
    }

    fn widen(self) -> (wide: u64) {
        self as u64
    }
}

impl Unsigned for u32 {
    open spec fn bits() -> nat {
        32
    }

    open spec fn modulus() -> nat {
        0x1_0000_0000
    }

    open spec fn half() -> nat {
        0x8000_0000
    }

    open spec fn value(self) -> nat {
        self as nat
    }

    open spec fn of_value(number: nat) -> Self {
        number as u32
    }

    proof fn lemma_space() {
        lemma2_to64();
    }

    proof fn lemma_in_range(self) {
    }

    proof fn lemma_value_of(number: nat) {
    }

    proof fn lemma_of_value(self) {
    }

    fn midpoint() -> (mid: Self) {
        0x8000_0000
    }

    fn wrapping_sum(self, rhs: Self) -> (sum: Self) {
        self.wrapping_add(rhs)
    }

    fn widen(self) -> (wide: u64) {
        self as u64
    }
}

impl Unsigned for u64 {
    open spec fn bits() -> nat {
        64
    }

    open spec fn modulus() -> nat {
        0x1_0000_0000_0000_0000
    }

    open spec fn half() -> nat {
        0x8000_0000_0000_0000
    }

    open spec fn value(self) -> nat {
        self as nat
    }

    open spec fn of_value(number: nat) -> Self {
        number as u64
    }

    proof fn lemma_space() {
        lemma2_to64();
        lemma2_to64_rest();
    }

    proof fn lemma_in_range(self) {
    }

    proof fn lemma_value_of(number: nat) {
    }

    proof fn lemma_of_value(self) {
    }

    fn midpoint() -> (mid: Self) {
        0x8000_0000_0000_0000
    }

    fn wrapping_sum(self, rhs: Self) -> (sum: Self) {
        self.wrapping_add(rhs)
    }

    fn widen(self) -> (wide: u64) {
        self
    }
}

} // verus!
