//! Serial numbers of 8 bits.
use sna::{Relation, SerialNumber};
use std::cmp::Ordering;

/// Half the counter space of 8 bits.
const HALF: u8 = 0x80;

/// The largest number of 8 bits.
const MAX: u8 = u8::MAX;

/// Numbers around zero, the quarter, the half and the wrap.
const SAMPLES: [u8; 9] = [0, 1, 7, HALF / 2, HALF - 1, HALF, HALF + 1, MAX - 1, MAX];

fn serial(number: u8) -> SerialNumber<u8> {
    SerialNumber::from_raw(number)
}

#[test]
fn u8_from() {
    assert!(SerialNumber::from(MAX) == SerialNumber(MAX));
    assert_eq!(<u8>::from(SerialNumber(MAX)), MAX);
}

#[test]
fn u8_into() {
    let value: SerialNumber<u8> = MAX.into();
    assert!(SerialNumber(MAX) == value);
    let value: u8 = SerialNumber(MAX).into();
    assert_eq!(MAX, value);
}

#[test]
fn u8_raw_round_trip() {
    for number in SAMPLES {
        assert_eq!(SerialNumber::from_raw(number).to_raw(), number);
        assert_eq!(SerialNumber::from_raw(number).0, number);
        assert!(SerialNumber::from_raw(SerialNumber(number).to_raw()) == SerialNumber(number));
    }
}

#[test]
fn u8_add() {
    assert!(0 == (SerialNumber(1) + SerialNumber(MAX)).0);
    assert!(0 == (MAX + SerialNumber(1)).0);
    assert!(0 == (SerialNumber(1) + MAX).0);
    assert!(SerialNumber(1) + SerialNumber(MAX) == 0);
    assert!(MAX + SerialNumber(1) == 0);
    assert!(SerialNumber(1) + MAX == 0);
    assert!(0 == SerialNumber(1) + MAX);
}

#[test]
fn u8_add_wraps_past_max() {
    assert!(serial(MAX).add(serial(1)) == serial(0));
    assert_eq!(serial(MAX).add(serial(1)).to_raw(), 0);
    assert_eq!(serial(MAX).add(serial(MAX)).to_raw(), MAX - 1);
    assert_eq!(serial(HALF).add(serial(HALF)).to_raw(), 0);
    assert_eq!(serial(HALF - 1).add(serial(HALF)).to_raw(), MAX);
    assert_eq!(serial(HALF + 1).add(serial(HALF)).to_raw(), 1);
    assert_eq!(serial(3).add(serial(4)).to_raw(), 7);
    assert_eq!(serial(0).add(serial(0)).to_raw(), 0);
}

#[test]
fn u8_add_commutes() {
    for a in SAMPLES {
        for b in SAMPLES {
            let sum = a.wrapping_add(b);
            assert_eq!(serial(a).add(serial(b)).to_raw(), sum);
            assert_eq!(serial(b).add(serial(a)).to_raw(), sum);
            assert!(serial(a).add(serial(b)) == serial(b).add(serial(a)));
            assert!(serial(a) + serial(b) == serial(b) + serial(a));
            assert!(serial(a) + b == b + serial(a));
            assert!(a + serial(b) == serial(b) + a);
            assert!(serial(a) + b == serial(a) + serial(b));
            assert!(a + serial(b) == serial(a) + serial(b));
        }
    }
}

#[test]
fn u8_add_assign() {
    let mut a = SerialNumber(MAX);
    a += SerialNumber(MAX);
    assert!(SerialNumber(MAX - 1) == a);

    let mut a = SerialNumber(MAX);
    a += MAX;
    assert!(SerialNumber(MAX - 1) == a);
}

#[test]
fn u8_add_assign_is_add() {
    for a in SAMPLES {
        for b in SAMPLES {
            let sum = serial(a).add(serial(b));
            let mut named = serial(a);
            named.add_assign(serial(b));
            assert!(named == sum);
            let mut by_serial = serial(a);
            by_serial += serial(b);
            assert!(by_serial == sum);
            let mut by_integer = serial(a);
            by_integer += b;
            assert!(by_integer == sum);
        }
    }
}

#[test]
fn u8_eq() {
    let max = SerialNumber(MAX);
    assert!(max == max);
    assert!(max == MAX);
    assert!(MAX == max);
    assert!(max.equals(max));
    assert!(max.equals(serial(MAX)));
}

#[test]
fn u8_ne() {
    let zero: SerialNumber<u8> = 0.into();
    let max = SerialNumber(MAX);
    assert!(zero != max);
    assert!(zero != MAX);
    assert!(MAX != zero);
    assert!(!zero.equals(max));
    assert!(!max.equals(zero));
}

#[test]
fn u8_eq_is_symmetric() {
    for a in SAMPLES {
        for b in SAMPLES {
            let same = a == b;
            assert_eq!(serial(a).equals(serial(b)), same);
            assert_eq!(serial(b).equals(serial(a)), same);
            assert_eq!(serial(a) == serial(b), same);
            assert_eq!(serial(a) == b, same);
            assert_eq!(b == serial(a), same);
            assert_eq!(a == serial(b), same);
            assert_eq!(serial(b) == a, same);
        }
    }
}

#[test]
fn u8_partial_cmp() {
    let zero: SerialNumber<u8> = 0.into();
    let half_minus_one: u8 = HALF - 1;
    let half: SerialNumber<u8> = HALF.into();
    let max = SerialNumber(MAX);

    // Equal
    assert_eq!(max.partial_cmp(&max), Some(Ordering::Equal));
    assert_eq!(max.partial_cmp(&MAX), Some(Ordering::Equal));
    assert_eq!(MAX.partial_cmp(&max), Some(Ordering::Equal));

    // Less
    assert_eq!(max.partial_cmp(&zero), Some(Ordering::Less));
    assert_eq!(max.partial_cmp(&0), Some(Ordering::Less));
    assert_eq!(MAX.partial_cmp(&zero), Some(Ordering::Less));

    // Greater
    assert_eq!(zero.partial_cmp(&max), Some(Ordering::Greater));
    assert_eq!(zero.partial_cmp(&MAX), Some(Ordering::Greater));
    assert_eq!(0.partial_cmp(&max), Some(Ordering::Greater));

    // None
    assert_eq!(zero.partial_cmp(&half), None);
    assert_eq!(1.partial_cmp(&(half + 1)), None);
    assert_eq!(half_minus_one.partial_cmp(&max), None);
}

#[test]
fn u8_compare() {
    assert_eq!(serial(0).compare(serial(0)), Relation::Equal);
    assert_eq!(serial(HALF).compare(serial(HALF)), Relation::Equal);
    assert_eq!(serial(MAX).compare(serial(MAX)), Relation::Equal);

    assert_eq!(serial(0).compare(serial(1)), Relation::Less);
    assert_eq!(serial(0).compare(serial(HALF - 1)), Relation::Less);
    assert_eq!(serial(MAX).compare(serial(0)), Relation::Less);
    assert_eq!(serial(HALF + 1).compare(serial(0)), Relation::Less);
    assert_eq!(serial(MAX).compare(serial(HALF - 2)), Relation::Less);

    assert_eq!(serial(1).compare(serial(0)), Relation::Greater);
    assert_eq!(serial(HALF - 1).compare(serial(0)), Relation::Greater);
    assert_eq!(serial(0).compare(serial(MAX)), Relation::Greater);
    assert_eq!(serial(0).compare(serial(HALF + 1)), Relation::Greater);
    assert_eq!(serial(1).compare(serial(HALF + 2)), Relation::Greater);

    assert_eq!(serial(0).compare(serial(HALF)), Relation::Undefined);
    assert_eq!(serial(HALF).compare(serial(0)), Relation::Undefined);
    assert_eq!(serial(1).compare(serial(HALF + 1)), Relation::Undefined);
    assert_eq!(serial(HALF + 1).compare(serial(1)), Relation::Undefined);
    assert_eq!(serial(HALF - 1).compare(serial(MAX)), Relation::Undefined);
    assert_eq!(serial(MAX).compare(serial(HALF - 1)), Relation::Undefined);
}

#[test]
fn u8_compare_goes_by_the_steps_forward() {
    for a in SAMPLES {
        for b in SAMPLES {
            let steps = b.wrapping_sub(a);
            let expected = if steps == 0 {
                Relation::Equal
            } else if steps < HALF {
                Relation::Less
            } else if steps == HALF {
                Relation::Undefined
            } else {
                Relation::Greater
            };
            assert_eq!(serial(a).compare(serial(b)), expected);
        }
    }
}

#[test]
fn u8_compare_reverses() {
    for a in SAMPLES {
        for b in SAMPLES {
            let forward = serial(a).compare(serial(b));
            let backward = serial(b).compare(serial(a));
            assert_eq!(forward, backward.reverse());
            assert_eq!(forward == Relation::Equal, a == b);
            assert_eq!(serial(a).partial_cmp(&serial(b)), forward.to_ordering());
            assert_eq!(serial(a).partial_cmp(&b), forward.to_ordering());
            assert_eq!(a.partial_cmp(&serial(b)), forward.to_ordering());
            assert_eq!(b.partial_cmp(&serial(a)), backward.to_ordering());
        }
    }
}

#[test]
fn u8_order_is_not_transitive() {
    let zero = serial(0);
    let quarter = serial(HALF / 2);
    let half = serial(HALF);
    assert_eq!(zero.compare(quarter), Relation::Less);
    assert_eq!(quarter.compare(half), Relation::Less);
    assert_eq!(zero.compare(half), Relation::Undefined);
    assert!(zero < quarter);
    assert!(quarter < half);
    assert!(!(zero < half));
    assert!(!(zero > half));
    assert!(!(zero <= half));
    assert!(!(zero >= half));
    assert!(zero != half);
}

#[test]
fn u8_text() {
    for number in SAMPLES {
        assert_eq!(serial(number).to_string(), format!("{}", number));
        assert_eq!(serial(number).to_debug(), format!("{:?}", number));
        assert_eq!(serial(number).to_binary(), format!("{:b}", number));
        assert_eq!(serial(number).to_octal(), format!("{:o}", number));
        assert_eq!(serial(number).to_lower_hex(), format!("{:x}", number));
        assert_eq!(serial(number).to_upper_hex(), format!("{:X}", number));
    }
    assert_eq!(serial(MAX).to_binary(), "1".repeat(8));
    assert_eq!(serial(MAX).to_lower_hex(), "f".repeat(8 / 4));
    assert_eq!(serial(MAX).to_upper_hex(), "F".repeat(8 / 4));
    assert_eq!(serial(HALF).to_binary(), format!("1{}", "0".repeat(8 - 1)));
    assert_eq!(serial(0).to_string(), "0");
    assert_eq!(serial(0).to_debug(), "0");
    assert_eq!(serial(0).to_binary(), "0");
    assert_eq!(serial(0).to_octal(), "0");
    assert_eq!(serial(0).to_lower_hex(), "0");
    assert_eq!(serial(0).to_upper_hex(), "0");
    assert_eq!(serial(7).to_string(), "7");
    assert_eq!(serial(7).to_binary(), "111");
    assert_eq!(serial(HALF - 1).to_lower_hex(), format!("7{}", "f".repeat(8 / 4 - 1)));
}
