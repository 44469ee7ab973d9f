//! The serial number itself: conversion, wrapping addition, equality and the
//! partial order.
use crate::relation::{lemma_relation_by_cases, relation_by_cases, serial_relation, Relation};
use crate::width::Unsigned;
use vstd::prelude::*;

verus! {

/// A serial number: a point on a circular counter as wide as `T`.
///
/// There are two operations. Addition wraps round when it passes the largest
/// number of the type. Comparison goes by the shorter way round the circle, so
/// that a number just past the wrap is ahead of one just before it; the result
/// may be surprising, and for two numbers exactly half the circle apart there
/// is none.
#[derive(Copy, Hash)]
pub struct SerialNumber<T>(pub T);

impl<T: Copy> Clone for SerialNumber<T> {
    fn clone(&self) -> (copy: Self)
        ensures
            copy == *self,
    {
        *self
    }
}

impl<T: Unsigned> View for SerialNumber<T> {
    type V = nat;

    /// The number that the counter stands at.
    open spec fn view(&self) -> nat {
        self.0.value()
    }
}

impl<T: Unsigned> SerialNumber<T> {
    /// The serial number that stands at `number`.
    pub open spec fn spec_from_raw(number: T) -> Self {
        SerialNumber(number)
    }

    /// The integer that the serial number stands at.
    pub open spec fn spec_to_raw(self) -> T {
        self.0
    }

    /// The sum of two serial numbers: the one serial number that stands at the
    /// sum of both, reduced modulo the size of the counter space.
    pub open spec fn spec_add(self, other: Self) -> Self {
        SerialNumber(T::of_value((self@ + other@) % T::modulus()))
    }

    /// Whether two serial numbers stand at the same number.
    pub open spec fn spec_equals(self, other: Self) -> bool {
        self@ == other@
    }

    /// The relation of `self` to `other` on the circle.
    pub open spec fn spec_compare(self, other: Self) -> Relation {
        serial_relation(self@, other@, T::half())
    }

    /// Makes a serial number of an integer.
    #[verifier::when_used_as_spec(spec_from_raw)]
    pub fn from_raw(number: T) -> (serial: Self)
        ensures
            serial == Self::spec_from_raw(number),
            serial@ == number.value(),
    {
        SerialNumber(number)
    }

    /// Gives the integer that the serial number stands at.
    #[verifier::when_used_as_spec(spec_to_raw)]
    pub fn to_raw(self) -> (number: T)
        ensures
            number == self.spec_to_raw(),
            number.value() == self@,
    {
        self.0
    }

    /// Adds `other` to `self`, wrapping round past the largest number of the
    /// type.
    #[verifier::when_used_as_spec(spec_add)]
    pub fn add(self, other: Self) -> (sum: Self)
        ensures
            sum@ == (self@ + other@) % T::modulus(),
            sum == self.spec_add(other),
    {
        let sum = SerialNumber(self.0.wrapping_sum(other.0));
        proof {
            sum.0.lemma_of_value();
        }
        sum
    }

    /// Adds `other` to `self` in place: `self` becomes what `add` returns.
    pub fn add_assign(&mut self, other: Self)
        ensures
            *final(self) == old(self).spec_add(other),
            final(self)@ == (old(self)@ + other@) % T::modulus(),
    {
        *self = self.add(other);
    }

    /// Tests whether two serial numbers are the same. Equality is plain: it
    /// knows nothing of the circle.
    #[verifier::when_used_as_spec(spec_equals)]
    pub fn equals(self, other: Self) -> (same: bool)
        ensures
            same == self.spec_equals(other),
            same <==> self == other,
    {
        proof {
            self.0.lemma_of_value();
            other.0.lemma_of_value();
        }
        self.0.widen() == other.0.widen()
    }

    /// Compares two serial numbers by the shorter way round the circle.
    ///
    /// Where the two differ, the larger less the smaller is their distance on
    /// the number line. If that is under half the counter space, the smaller
    /// number is the one behind; if it is over half, the shorter way leads
    /// across the wrap and the larger number is the one behind. At exactly
    /// half there is no shorter way, and the relation is `Undefined`.
    #[verifier::when_used_as_spec(spec_compare)]
    pub fn compare(self, other: Self) -> (relation: Relation)
        ensures
            relation == self.spec_compare(other),
            relation == relation_by_cases(self@, other@, T::half()),
    {
        let a: u64 = self.0.widen();
        let b: u64 = other.0.widen();
        let mid: u64 = T::midpoint().widen();
        proof {
            T::lemma_space();
            self.0.lemma_in_range();
            other.0.lemma_in_range();
            lemma_relation_by_cases(self@, other@, T::half());
        }
        if a == b {
            Relation::Equal
        } else if a < b {
            let distance: u64 = b - a;
            if distance < mid {
                Relation::Less
            } else if distance > mid {
                Relation::Greater
            } else {
                Relation::Undefined
            }
        } else {
            let distance: u64 = a - b;
            if distance > mid {
                Relation::Less
            } else if distance < mid {
                Relation::Greater
            } else {
                Relation::Undefined
            }
        }
    }
}

} // verus!
