//! The four outcomes of comparing two serial numbers, and the rule that
//! picks one of them.
use vstd::arithmetic::div_mod::{lemma_mod_add_multiples_vanish, lemma_small_mod};
use vstd::prelude::*;

verus! {

/// How one serial number stands to another.
#[derive(Clone, Copy, Debug, PartialEq, Eq, Hash, Structural)]
pub enum Relation {
    /// The first number is behind the second.
    Less,
    /// Both numbers are the same.
    Equal,
    /// The first number is ahead of the second.
    Greater,
    /// The numbers are exactly half the circle apart: neither is ahead.
    Undefined,
}

/// The number of steps that lead from `a` forward to `b` on a circle of
/// `modulus` numbers.
pub open spec fn forward_distance(a: nat, b: nat, modulus: nat) -> nat {
    ((b - a) % (modulus as int)) as nat
}

/// The relation of `a` to `b` on a circle of twice `half` numbers: `a` is
/// behind `b` where fewer than `half` steps lead from `a` forward to `b`, and
/// ahead of `b` where more than `half` do.
pub open spec fn serial_relation(a: nat, b: nat, half: nat) -> Relation {
    let steps = forward_distance(a, b, 2 * half);
    if steps == 0 {
        Relation::Equal
    } else if steps < half {
        Relation::Less
    } else if steps == half {
        Relation::Undefined
    } else {
        Relation::Greater
    }
}

/// The relation of `a` to `b` as it is computed: the smaller of the two is
/// taken from the larger, and the difference is held against `half`.
pub open spec fn relation_by_cases(a: nat, b: nat, half: nat) -> Relation {
    if a == b {
        Relation::Equal
    } else if a < b {
        if b - a < half {
            Relation::Less
        } else if b - a > half {
            Relation::Greater
        } else {
            Relation::Undefined
        }
    } else {
        if a - b > half {
            Relation::Less
        } else if a - b < half {
            Relation::Greater
        } else {
            Relation::Undefined
        }
    }
}

/// The number of steps forward from `a` to `b` is their difference where
/// `a` is not the larger, and the rest of the circle where it is.
pub proof fn lemma_forward_distance(a: nat, b: nat, modulus: nat)
    requires
        a < modulus,
        b < modulus,
    ensures
        a <= b ==> forward_distance(a, b, modulus) == b - a,
        a > b ==> forward_distance(a, b, modulus) == modulus - (a - b),
{
    if a <= b {
        lemma_small_mod((b - a) as nat, modulus);
    } else {
        lemma_mod_add_multiples_vanish(b - a, modulus as int);
        lemma_small_mod((modulus + b - a) as nat, modulus);
    }
}

/// For two numbers of the circle, going by the steps forward and going by
/// the difference of the larger and the smaller give the same relation.
pub proof fn lemma_relation_by_cases(a: nat, b: nat, half: nat)
    requires
        a < 2 * half,
        b < 2 * half,
    ensures
        serial_relation(a, b, half) == relation_by_cases(a, b, half),
{
    lemma_forward_distance(a, b, 2 * half);
}

/// On a circle of four times `quarter` numbers, zero is behind `quarter` and
/// `quarter` is behind twice `quarter`, yet zero is not behind twice
/// `quarter`: the two are half the circle apart and have no order.
pub proof fn lemma_quarters_are_not_transitive(quarter: nat)
    requires
        0 < quarter,
    ensures
        serial_relation(0, quarter, 2 * quarter) == Relation::Less,
        serial_relation(quarter, 2 * quarter, 2 * quarter) == Relation::Less,
        serial_relation(0, 2 * quarter, 2 * quarter) == Relation::Undefined,
{
    lemma_relation_by_cases(0, quarter, 2 * quarter);
    lemma_relation_by_cases(quarter, 2 * quarter, 2 * quarter);
    lemma_relation_by_cases(0, 2 * quarter, 2 * quarter);
}

impl Relation {
    /// The relation seen from the other side.
    pub open spec fn spec_reverse(self) -> Relation {
        match self {
            Relation::Less => Relation::Greater,
            Relation::Greater => Relation::Less,
            Relation::Equal => Relation::Equal,
            Relation::Undefined => Relation::Undefined,
        }
    }

    /// The relation seen from the other side: `Less` and `Greater` change
    /// places, `Equal` and `Undefined` stay.
    #[verifier::when_used_as_spec(spec_reverse)]
    pub fn reverse(self) -> (reversed: Relation)
        ensures
            reversed == self.spec_reverse(),
    {
        match self {
            Relation::Less => Relation::Greater,
            Relation::Greater => Relation::Less,
            Relation::Equal => Relation::Equal,
            Relation::Undefined => Relation::Undefined,
        }
    }
}

} // verus!
