use pure_decimal::{Decimal, Error};
use std::cmp::Ordering;

fn dec(text: &str) -> Decimal {
    Decimal::from_str(text).expect("Invalid decimal float literal")
}

#[test]
fn default() {
    assert_eq!(Decimal::zero(), Decimal::default());
    assert_eq!(Decimal::zero(), Default::default());
    assert_eq!(Decimal::zero(), Decimal::from_str("0").unwrap());
    assert_eq!(Decimal::zero(), Decimal::from_str("0.0").unwrap());
}

#[test]
fn unary_op() {
    assert_eq!(dec("-1.1"), dec("1.1").neg());
    assert_eq!(dec("-1.1"), (&dec("1.1")).neg());
}

#[test]
fn binary_op() {
    let a = dec("1.11");
    let b = dec("2.22");
    assert_eq!(dec("3.33"), dec("1.11").add(&dec("2.22")));
    assert_eq!(dec("3.33"), (&a).add(&dec("2.22")));
    assert_eq!(dec("3.33"), dec("1.11").add(&b));
    assert_eq!(dec("3.33"), (&a).add(&b));
}

#[test]
fn as_ref_operand() {
    let other = dec("2.2");
    assert_eq!(dec("1.1"), dec("1.1").min(&dec("2.2")));
    assert_eq!(dec("1.1"), dec("1.1").min(&other));
}

#[test]
fn assign_op() {
    let mut x = dec("1");
    x.add_assign(dec("2"));
    assert_eq!(x, dec("3"));
    x.mul_assign(dec("3"));
    assert_eq!(x, dec("9"));
    x.sub_assign(dec("1"));
    assert_eq!(x, dec("8"));
}

#[test]
fn test_sum() {
    let decimals = vec![dec("1"), dec("2"), dec("3"), dec("4")];
    assert_eq!(dec("10"), Decimal::sum(&decimals));
    let moved: Vec<Decimal> = decimals.into_iter().collect();
    assert_eq!(dec("10"), Decimal::sum(&moved));
}

#[test]
fn sum_of_nothing_is_zero() {
    let none: Vec<Decimal> = Vec::new();
    assert_eq!(Decimal::zero(), Decimal::sum(&none));
    assert_eq!(Some(Decimal::zero()), Decimal::checked_sum(&none));
}

#[test]
fn checked_sum_agrees_with_sum() {
    let decimals = vec![dec("1.5"), dec("2.25"), dec("-0.75")];
    assert_eq!(Some(dec("3")), Decimal::checked_sum(&decimals));
    assert_eq!("3.00", Decimal::checked_sum(&decimals).unwrap().to_string());
}

#[test]
fn checked_sum_stops_at_overflow() {
    let huge = dec("9E6144");
    assert_eq!(None, Decimal::checked_sum(&vec![huge, huge]));
    assert_eq!(None, Decimal::checked_sum(&vec![dec("1"), huge, huge, dec("-9E6144")]));
}

#[test]
fn zero_is_zero() {
    assert!(Decimal::zero().is_zero());
    assert!(!Decimal::zero().is_negative());
    assert_eq!("0", Decimal::zero().to_string());
    assert_eq!(0x2208_0000_0000_0000_0000_0000_0000_0000u128, Decimal::zero().to_bits());
}

#[test]
fn predicates() {
    assert!(dec("0").is_zero());
    assert!(dec("0.000").is_zero());
    assert!(dec("-0").is_zero());
    assert!(!dec("0.1").is_zero());
    assert!(dec("-0.1").is_negative());
    assert!(!dec("0.1").is_negative());
    assert!(!dec("-0").is_negative());
}

#[test]
fn equal_literals_are_equal() {
    assert_eq!(dec("1.0"), dec("1.00"));
    assert_eq!(dec("1"), dec("1.0"));
    assert_eq!(dec("100"), dec("1E2"));
    assert_eq!(dec("0"), dec("-0"));
    assert_ne!(dec("1.0"), dec("1.1"));
    assert_ne!(dec("1"), dec("-1"));
}

#[test]
fn equal_values_share_a_hash_key() {
    assert_eq!(dec("1.0").hash_key(), dec("1.00").hash_key());
    assert_eq!(dec("1").hash_key(), dec("1.000").hash_key());
    assert_eq!(dec("100").hash_key(), dec("1E2").hash_key());
    assert_eq!(dec("0").hash_key(), dec("-0").hash_key());
    assert_eq!(dec("0").hash_key(), dec("0.00").hash_key());
    assert_eq!(Decimal::zero().to_bits(), dec("0E5").hash_key());
    assert_ne!(dec("1").hash_key(), dec("2").hash_key());
    assert_ne!(dec("1").hash_key(), dec("-1").hash_key());
    assert_ne!(dec("1.0").to_bits(), dec("1.00").to_bits());
}

#[test]
fn encodings_of_one_value_share_a_hash_key() {
    let zero = Decimal::zero().to_bits();
    let plain = Decimal::from_bits(zero | 0x06e).unwrap();
    let other = Decimal::from_bits(zero | 0x16e).unwrap();
    assert_eq!("888", plain.to_string());
    assert_eq!("888", other.to_string());
    assert_eq!(dec("888").to_bits(), plain.to_bits());
    assert_ne!(plain.to_bits(), other.to_bits());
    assert_eq!(plain, other);
    assert_eq!(plain.hash_key(), other.hash_key());
    assert_eq!(dec("888.0").hash_key(), other.hash_key());
}

#[test]
fn ordering() {
    assert_eq!(Ordering::Less, dec("1").cmp(&dec("2")));
    assert_eq!(Ordering::Greater, dec("2").cmp(&dec("1.999")));
    assert_eq!(Ordering::Equal, dec("2.0").cmp(&dec("2")));
    assert_eq!(Ordering::Less, dec("-1").cmp(&dec("0")));
    assert_eq!(Some(Ordering::Less), dec("1").partial_cmp(&dec("2")));
    assert!(dec("1") < dec("2"));
    assert!(dec("3") >= dec("3.0"));
}

#[test]
fn nan_spellings_are_rejected() {
    for text in ["NaN", "nan", "NAN", "sNaN", "-NaN", "NaN123"] {
        match Decimal::from_str(text) {
            Err(Error::NotANumber) => {}
            other => panic!("{}: {:?}", text, other),
        }
    }
    assert_eq!("NaN is not supported", Error::NotANumber.message());
}

#[test]
fn infinity_spellings_are_rejected() {
    for text in ["Infinity", "infinity", "inf", "Inf", "-Infinity", "-inf", "+Infinity"] {
        match Decimal::from_str(text) {
            Err(Error::Infinite) => {}
            other => panic!("{}: {:?}", text, other),
        }
    }
    assert_eq!("Infinity is not supported", Error::Infinite.message());
}

#[test]
fn overflowing_literal_is_rejected() {
    assert!(matches!(Decimal::from_str("1E999999"), Err(Error::Infinite)));
}

#[test]
fn text_that_is_no_literal_is_rejected() {
    for text in ["foo", "", "1.2.3", "1e", "--1", "1 2", "0x10", " 1", "NaNx", "infinit", "qNaN"] {
        match Decimal::from_str(text) {
            Err(Error::Parse) => {}
            other => panic!("{:?}: {:?}", text, other),
        }
    }
    assert_eq!("Failed to parse", Error::Parse.message());
}

#[test]
fn a_rejected_text_does_not_taint_the_next() {
    assert!(matches!(Decimal::from_str("foo"), Err(Error::Parse)));
    assert_eq!("1.5", dec("1.5").to_string());
    assert!(matches!(Decimal::from_str("NaN"), Err(Error::NotANumber)));
    assert!(matches!(dec("1").div(&dec("0")), Err(Error::NonFiniteResult)));
    assert!(matches!(Decimal::from_str("inf"), Err(Error::Infinite)));
    assert_eq!("2", dec("2").to_string());
}

#[test]
fn from_bits_admits_finite_patterns_only() {
    let zero = 0x2208_0000_0000_0000_0000_0000_0000_0000u128;
    assert_eq!(Decimal::zero(), Decimal::from_bits(zero).unwrap());
    assert_eq!(zero, Decimal::from_bits(zero).unwrap().to_bits());
    let one = dec("1").to_bits();
    assert_eq!(zero | 1, one);
    assert_eq!("1", Decimal::from_bits(one).unwrap().to_string());
    assert!(matches!(
        Decimal::from_bits(0x7c00_0000_0000_0000_0000_0000_0000_0000),
        Err(Error::NotANumber)
    ));
    assert!(matches!(
        Decimal::from_bits(0x7e00_0000_0000_0000_0000_0000_0000_0000),
        Err(Error::NotANumber)
    ));
    assert!(matches!(
        Decimal::from_bits(0xfc00_0000_0000_0000_0000_0000_0000_0001),
        Err(Error::NotANumber)
    ));
    assert!(matches!(
        Decimal::from_bits(0x7800_0000_0000_0000_0000_0000_0000_0000),
        Err(Error::Infinite)
    ));
    assert!(matches!(
        Decimal::from_bits(0xf800_0000_0000_0000_0000_0000_0000_0000),
        Err(Error::Infinite)
    ));
    assert!(Decimal::from_bits(0x7700_0000_0000_0000_0000_0000_0000_0000).is_ok());
}

#[test]
fn division() {
    assert_eq!(dec("2.5"), dec("5").div(&dec("2")).unwrap());
    assert_eq!(dec("-0.5"), dec("1").div(&dec("-2")).unwrap());
    assert_eq!("0.3333333333333333333333333333333333", dec("1").div(&dec("3")).unwrap().to_string());
    assert_eq!(dec("0"), dec("0").div(&dec("7")).unwrap());
}

#[test]
fn division_by_zero_fails() {
    for x in ["1", "-1", "0", "123.456", "9E6144"] {
        for zero in ["0", "-0", "0.00", "0E10"] {
            match dec(x).div(&dec(zero)) {
                Err(Error::NonFiniteResult) => {}
                other => panic!("{} / {}: {:?}", x, zero, other),
            }
        }
    }
    assert_eq!("Only finite value are supported", Error::NonFiniteResult.message());
}

#[test]
fn division_that_overflows_fails() {
    assert!(matches!(dec("9E6144").div(&dec("1E-100")), Err(Error::NonFiniteResult)));
}

#[test]
fn remainder() {
    assert_eq!(dec("1"), dec("7").rem(&dec("3")).unwrap());
    assert_eq!(dec("-1"), dec("-7").rem(&dec("3")).unwrap());
    assert_eq!(dec("0.5"), dec("5.5").rem(&dec("2.5")).unwrap());
    assert!(matches!(dec("7").rem(&dec("0")), Err(Error::NonFiniteResult)));
    assert!(matches!(dec("0").rem(&dec("0")), Err(Error::NonFiniteResult)));
}

#[test]
fn subtraction_and_multiplication() {
    assert_eq!(dec("-1.11"), dec("1.11").sub(&dec("2.22")));
    assert_eq!(dec("2.4642"), dec("1.11").mul(&dec("2.22")));
    assert_eq!("2.4642", dec("1.11").mul(&dec("2.22")).to_string());
    assert_eq!(Some(dec("0.3")), dec("0.1").checked_add(&dec("0.2")));
    assert_eq!(Some(dec("-0.1")), dec("0.1").checked_sub(&dec("0.2")));
    assert_eq!(Some(dec("0.02")), dec("0.1").checked_mul(&dec("0.2")));
}

#[test]
fn checked_arithmetic_reports_overflow() {
    let huge = dec("9E6144");
    assert_eq!(None, huge.checked_add(&huge));
    assert_eq!(None, huge.checked_sub(&huge.neg()));
    assert_eq!(None, huge.checked_mul(&dec("10")));
    assert_eq!(None, huge.checked_mul_add(&dec("10"), &dec("1")));
    assert_eq!(None, huge.checked_pow(&dec("2")));
    assert_eq!(None, dec("-1").checked_pow(&dec("0.5")));
}

#[test]
fn try_assign_leaves_the_value_on_overflow() {
    let huge = dec("9E6144");
    let mut x = huge;
    assert!(!x.try_add_assign(huge));
    assert_eq!(huge.to_bits(), x.to_bits());
    assert!(!x.try_mul_assign(dec("10")));
    assert_eq!(huge.to_bits(), x.to_bits());
    assert!(!x.try_sub_assign(huge.neg()));
    assert_eq!(huge.to_bits(), x.to_bits());
    let mut y = dec("1");
    assert!(y.try_add_assign(dec("2")));
    assert_eq!(dec("3"), y);
    assert!(y.try_mul_assign(dec("3")));
    assert_eq!(dec("9"), y);
    assert!(y.try_sub_assign(dec("1")));
    assert_eq!(dec("8"), y);
}

#[test]
fn abs_max_min() {
    assert_eq!(dec("1.5"), dec("-1.5").abs());
    assert_eq!(dec("1.5"), dec("1.5").abs());
    assert_eq!(dec("2.2"), dec("1.1").max(&dec("2.2")));
    assert_eq!(dec("2.2"), dec("2.2").max(&dec("1.1")));
    assert_eq!(dec("-3"), dec("-3").min(&dec("2")));
    assert_eq!(dec("0"), dec("0").neg());
}

#[test]
fn negation_changes_the_sign_alone() {
    assert_eq!("-1.50", dec("1.50").neg().to_string());
    assert_eq!("1.50", dec("-1.50").neg().to_string());
    assert_eq!("0", dec("0").neg().to_string());
    assert_eq!("0", dec("-0").neg().to_string());
    assert_eq!("0.00", dec("-0.00").neg().to_string());
    assert_eq!("1.50", dec("-1.50").abs().to_string());
    assert_eq!("0", dec("-0").abs().to_string());
    assert!(!dec("-7").abs().is_negative());
    assert!(dec("7").neg().is_negative());
}

#[test]
fn max_and_min_pick_an_operand() {
    for (a, b) in [("1", "2"), ("2", "1"), ("-1", "-2"), ("1.0", "1.00"), ("0", "-0"), ("-0", "0")] {
        let larger = dec(a).max(&dec(b));
        let smaller = dec(a).min(&dec(b));
        let expect_larger = if dec(a) < dec(b) { dec(b) } else { dec(a) };
        let expect_smaller = if dec(a) > dec(b) { dec(b) } else { dec(a) };
        assert_eq!(expect_larger, larger);
        assert_eq!(expect_smaller, smaller);
    }
    assert_eq!("2", dec("1").max(&dec("2")).to_string());
    assert_eq!("-2", dec("-1").min(&dec("-2")).to_string());
}

#[test]
fn mul_add_and_pow() {
    assert_eq!(dec("7"), dec("2").mul_add(&dec("3"), &dec("1")));
    assert_eq!(Some(dec("7")), dec("2").checked_mul_add(&dec("3"), &dec("1")));
    assert_eq!(dec("1024"), dec("2").pow(&dec("10")));
    assert_eq!(Some(dec("0.25")), dec("2").checked_pow(&dec("-2")));
}

#[test]
fn integer_conversions_are_exact() {
    assert_eq!("2147483647", Decimal::from_i32(i32::MAX).to_string());
    assert_eq!("-2147483648", Decimal::from_i32(i32::MIN).to_string());
    assert_eq!("4294967295", Decimal::from_u32(u32::MAX).to_string());
    assert_eq!("9223372036854775807", Decimal::from_i64(i64::MAX).to_string());
    assert_eq!("-9223372036854775808", Decimal::from_i64(i64::MIN).to_string());
    assert_eq!("18446744073709551615", Decimal::from_u64(u64::MAX).to_string());
    assert_eq!("0", Decimal::from_u64(0).to_string());
    assert_eq!(dec("-17"), Decimal::from_i32(-17));
}

#[test]
fn from_integers() {
    assert_eq!(dec("1234"), Decimal::from(1234i32));
    assert_eq!(dec("1234"), Decimal::from(1234u32));
    assert_eq!(dec("-1234"), Decimal::from(-1234i64));
    assert_eq!(dec("1234"), Decimal::from(1234u64));
    assert_eq!("-9223372036854775808", Decimal::from(i64::MIN).to_string());
    assert_eq!("18446744073709551615", Decimal::from(u64::MAX).to_string());
    assert_eq!(Decimal::from(7i32).to_bits(), Decimal::from(7u64).to_bits());
}

#[test]
fn text_round_trip() {
    for text in ["0", "1.234", "-1.10", "1E+10", "0.000001234", "1234.56", "-0", "9.99E-6143"] {
        let value = dec(text);
        let again = dec(&value.to_string());
        assert_eq!(value, again);
        assert_eq!(value.to_bits(), again.to_bits());
    }
    assert_eq!("1.234", dec("1.234").to_string());
    assert_eq!("1.10", dec("1.10").to_string());
}

#[test]
fn messages_tell_the_causes_apart() {
    assert_eq!("Failed to parse", Error::Parse.message());
    assert_eq!(
        "invalid value, expected a Decimal value",
        Error::InvalidValue(String::from("foo")).message()
    );
    assert_eq!("invalid type, expected a Decimal value", Error::UnexpectedType.message());
}
