//! What holds of serial numbers of every width.
//!
//! Each law is stated over the specification functions that the contracts of
//! the operations use, so that a caller can bring it to bear on what an
//! operation returned.
use crate::relation::{
    lemma_quarters_are_not_transitive, lemma_relation_by_cases, relation_by_cases, Relation,
};
use crate::serial::SerialNumber;
use crate::width::Unsigned;
use vstd::arithmetic::power2::lemma_pow2_unfold;
use vstd::prelude::*;
use vstd::std_specs::cmp::{PartialEqSpec, PartialOrdSpec};
use vstd::std_specs::ops::AddSpec;

verus! {

/// An integer made into a serial number and back is the same integer, and a
/// serial number made into an integer and back is the same serial number.
pub proof fn lemma_round_trip<T: Unsigned>(number: T, serial: SerialNumber<T>)
    ensures
        SerialNumber::from_raw(number).to_raw() == number,
        SerialNumber::from_raw(serial.to_raw()) == serial,
{
}

/// A serial number stands at a number of the counter space, and is known by
/// that number.
pub proof fn lemma_same_view<T: Unsigned>(a: SerialNumber<T>, b: SerialNumber<T>)
    ensures
        a@ < T::modulus(),
        a@ == b@ <==> a == b,
{
    a.0.lemma_in_range();
    a.0.lemma_of_value();
    b.0.lemma_of_value();
}

/// The sum of two serial numbers stands at the sum of their numbers, reduced
/// modulo the size of the counter space.
pub proof fn lemma_add_view<T: Unsigned>(a: SerialNumber<T>, b: SerialNumber<T>)
    ensures
        a.add(b)@ == (a@ + b@) % T::modulus(),
{
    let m = T::modulus();
    T::lemma_space();
    assert((a@ + b@) % m < m) by (nonlinear_arith)
        requires
            0 < m,
    ;
    T::lemma_value_of((a@ + b@) % m);
}

/// One added to the largest serial number gives zero.
pub proof fn lemma_add_wraps<T: Unsigned>(largest: SerialNumber<T>, one: SerialNumber<T>)
    requires
        largest@ == T::modulus() - 1,
        one@ == 1,
    ensures
        largest.add(one)@ == 0,
{
    let m = T::modulus();
    T::lemma_space();
    lemma_add_view(largest, one);
    assert(m % m == 0) by (nonlinear_arith)
        requires
            0 < m,
    ;
}

/// Addition does not depend on the order of its operands.
pub proof fn lemma_add_commutes<T: Unsigned>(a: SerialNumber<T>, b: SerialNumber<T>)
    ensures
        a.add(b) == b.add(a),
{
}

/// Equality is reflexive and symmetric.
pub proof fn lemma_equals_symmetric<T: Unsigned>(a: SerialNumber<T>, b: SerialNumber<T>)
    ensures
        a.equals(a),
        a.equals(b) == b.equals(a),
{
}

/// Comparing `a` with `b` gives the reverse of comparing `b` with `a`: `Less`
/// and `Greater` change places, `Equal` and `Undefined` stay.
pub proof fn lemma_compare_reverses<T: Unsigned>(a: SerialNumber<T>, b: SerialNumber<T>)
    ensures
        a.compare(b) == b.compare(a).reverse(),
{
    lemma_compare_by_cases(a, b);
    lemma_compare_by_cases(b, a);
}

/// Comparison goes by the difference of the larger number and the smaller.
pub proof fn lemma_compare_by_cases<T: Unsigned>(a: SerialNumber<T>, b: SerialNumber<T>)
    ensures
        a.compare(b) == relation_by_cases(a@, b@, T::half()),
{
    T::lemma_space();
    a.0.lemma_in_range();
    b.0.lemma_in_range();
    lemma_relation_by_cases(a@, b@, T::half());
}

/// Two serial numbers compare as `Equal` where they are the same, and
/// nowhere else.
pub proof fn lemma_equal_where_same<T: Unsigned>(a: SerialNumber<T>, b: SerialNumber<T>)
    ensures
        a.compare(b) == Relation::Equal <==> a.equals(b),
{
    T::lemma_space();
    lemma_compare_by_cases(a, b);
}

/// Two serial numbers have no order where they are half the counter space
/// apart, and nowhere else.
pub proof fn lemma_undefined_where_opposite<T: Unsigned>(a: SerialNumber<T>, b: SerialNumber<T>)
    ensures
        a.compare(b) == Relation::Undefined <==> (a@ - b@ == T::half() || b@ - a@ == T::half()),
{
    T::lemma_space();
    lemma_compare_by_cases(a, b);
}

/// The order of serial numbers is not transitive: on every counter of two
/// bits or more there are three serial numbers of which the first is behind
/// the second and the second behind the third, and yet the first is not
/// behind the third.
pub proof fn lemma_order_is_not_transitive<T: Unsigned>()
    requires
        2 <= T::bits(),
    ensures
        exists|a: SerialNumber<T>, b: SerialNumber<T>, c: SerialNumber<T>|
            a.compare(b) == Relation::Less && b.compare(c) == Relation::Less && a.compare(c)
                != Relation::Less,
{
    T::lemma_space();
    lemma_pow2_unfold((T::bits() - 1) as nat);
    let quarter = (T::half() / 2) as nat;
    let a = SerialNumber(T::of_value(0));
    let b = SerialNumber(T::of_value(quarter));
    let c = SerialNumber(T::of_value(T::half()));
    T::lemma_value_of(0);
    T::lemma_value_of(quarter);
    T::lemma_value_of(T::half());
    lemma_quarters_are_not_transitive(quarter);
    assert(a.compare(b) == Relation::Less && b.compare(c) == Relation::Less && a.compare(c)
        != Relation::Less);
}

/// An integer on the right of `+` or `==` counts as the serial number that
/// stands at it.
pub proof fn lemma_integer_on_the_right<T: Unsigned>(serial: SerialNumber<T>, number: T)
    ensures
        serial.add_spec(number) == serial.add(SerialNumber::from_raw(number)),
        serial.eq_spec(&number) == serial.equals(SerialNumber::from_raw(number)),
{
}

/// An integer on the right of `<` counts as the serial number that stands at
/// it.
pub proof fn lemma_integer_on_the_right_of_order<T: Unsigned>(serial: SerialNumber<T>, number: T)
    ensures
        serial.partial_cmp_spec(&number) == serial.compare(
            SerialNumber::from_raw(number),
        ).to_ordering(),
{
}

/// An integer of 8 bits on the left of `+` or `==` counts as the serial
/// number that stands at it, so that neither operator depends on which of
/// its operands is the integer.
pub proof fn lemma_u8_on_the_left(number: u8, serial: SerialNumber<u8>)
    ensures
        number.add_spec(serial) == SerialNumber::from_raw(number).add(serial),
        number.add_spec(serial) == serial.add_spec(number),
        number.eq_spec(&serial) == SerialNumber::from_raw(number).equals(serial),
        number.eq_spec(&serial) == serial.eq_spec(&number),
{
}

/// An integer of 8 bits on the left of `<` counts as the serial number
/// that stands at it.
pub proof fn lemma_u8_on_the_left_of_order(number: u8, serial: SerialNumber<u8>)
    ensures
        number.partial_cmp_spec(&serial) == SerialNumber::from_raw(number).compare(
            serial,
        ).to_ordering(),
{
    lemma_compare_reverses(SerialNumber::from_raw(number), serial);
}

/// An integer of 16 bits on the left of `+` or `==` counts as the serial
/// number that stands at it, so that neither operator depends on which of
/// its operands is the integer.
pub proof fn lemma_u16_on_the_left(number: u16, serial: SerialNumber<u16>)
    ensures
        number.add_spec(serial) == SerialNumber::from_raw(number).add(serial),
        number.add_spec(serial) == serial.add_spec(number),
        number.eq_spec(&serial) == SerialNumber::from_raw(number).equals(serial),
        number.eq_spec(&serial) == serial.eq_spec(&number),
{
}

/// An integer of 16 bits on the left of `<` counts as the serial number
/// that stands at it.
pub proof fn lemma_u16_on_the_left_of_order(number: u16, serial: SerialNumber<u16>)
    ensures
        number.partial_cmp_spec(&serial) == SerialNumber::from_raw(number).compare(
            serial,
        ).to_ordering(),
{
    lemma_compare_reverses(SerialNumber::from_raw(number), serial);
}

/// An integer of 32 bits on the left of `+` or `==` counts as the serial
/// number that stands at it, so that neither operator depends on which of
/// its operands is the integer.
pub proof fn lemma_u32_on_the_left(number: u32, serial: SerialNumber<u32>)
    ensures
        number.add_spec(serial) == SerialNumber::from_raw(number).add(serial),
        number.add_spec(serial) == serial.add_spec(number),
        number.eq_spec(&serial) == SerialNumber::from_raw(number).equals(serial),
        number.eq_spec(&serial) == serial.eq_spec(&number),
{
}

/// An integer of 32 bits on the left of `<` counts as the serial number
/// that stands at it.
pub proof fn lemma_u32_on_the_left_of_order(number: u32, serial: SerialNumber<u32>)
    ensures
        number.partial_cmp_spec(&serial) == SerialNumber::from_raw(number).compare(
            serial,
        ).to_ordering(),
{
    lemma_compare_reverses(SerialNumber::from_raw(number), serial);
}

/// An integer of 64 bits on the left of `+` or `==` counts as the serial
/// number that stands at it, so that neither operator depends on which of
/// its operands is the integer.
pub proof fn lemma_u64_on_the_left(number: u64, serial: SerialNumber<u64>)
    ensures
        number.add_spec(serial) == SerialNumber::from_raw(number).add(serial),
        number.add_spec(serial) == serial.add_spec(number),
        number.eq_spec(&serial) == SerialNumber::from_raw(number).equals(serial),
        number.eq_spec(&serial) == serial.eq_spec(&number),
{
}

/// An integer of 64 bits on the left of `<` counts as the serial number
/// that stands at it.
pub proof fn lemma_u64_on_the_left_of_order(number: u64, serial: SerialNumber<u64>)
    ensures
        number.partial_cmp_spec(&serial) == SerialNumber::from_raw(number).compare(
            serial,
        ).to_ordering(),
{
    lemma_compare_reverses(SerialNumber::from_raw(number), serial);
}

} // verus!
