use core::cmp::Ordering;
use num_bigint::BigInt;
use numbat_core::big_int_api::Sign;
use numbat_core::big_int_mock::RustBigInt;

fn big(v: i64) -> RustBigInt {
    RustBigInt::from(v)
}

fn val(x: &RustBigInt) -> BigInt {
    x.value().clone()
}

#[test]
fn construction_from_machine_words() {
    assert_eq!(val(&RustBigInt::from(42i64)), BigInt::from(42));
    assert_eq!(val(&RustBigInt::from(-42i32)), BigInt::from(-42));
    assert_eq!(val(&RustBigInt::from(i64::MIN)), BigInt::from(i64::MIN));
    assert_eq!(val(&RustBigInt::from(BigInt::from(7))), BigInt::from(7));
    assert_eq!(val(&RustBigInt::from(big(-9).abs_uint())), BigInt::from(9));
}

#[test]
fn clone_keeps_the_value() {
    let a = big(-77);
    let b = a.clone();
    assert_eq!(val(&b), BigInt::from(-77));
    assert!(a == b);
}

#[test]
fn addition_subtraction_multiplication() {
    assert_eq!(val(&(big(3) + big(4))), BigInt::from(7));
    assert_eq!(val(&(&big(3) + &big(-4))), BigInt::from(-1));
    assert_eq!(val(&(big(3) - big(4))), BigInt::from(-1));
    assert_eq!(val(&(&big(-3) - &big(-4))), BigInt::from(1));
    assert_eq!(val(&(big(6) * big(-7))), BigInt::from(-42));
    assert_eq!(val(&(&big(-6) * &big(-7))), BigInt::from(42));
    assert_eq!(
        val(&(big(i64::MAX) + big(1))),
        BigInt::from(i64::MAX) + BigInt::from(1)
    );
}

#[test]
fn division_rounds_toward_zero() {
    assert_eq!(val(&(big(7) / big(2))), BigInt::from(3));
    assert_eq!(val(&(big(-7) / big(2))), BigInt::from(-3));
    assert_eq!(val(&(big(7) / big(-2))), BigInt::from(-3));
    assert_eq!(val(&(&big(-7) / &big(-2))), BigInt::from(3));
    assert_eq!(val(&(big(0) / big(5))), BigInt::from(0));
}

#[test]
fn remainder_has_the_sign_of_the_dividend() {
    assert_eq!(val(&(big(7) % big(2))), BigInt::from(1));
    assert_eq!(val(&(big(-7) % big(2))), BigInt::from(-1));
    assert_eq!(val(&(big(7) % big(-2))), BigInt::from(1));
    assert_eq!(val(&(&big(-7) % &big(-2))), BigInt::from(-1));
    assert_eq!(val(&(big(6) % big(3))), BigInt::from(0));
}

#[test]
fn operations_in_place() {
    let mut a = big(10);
    a += &big(5);
    assert_eq!(val(&a), BigInt::from(15));
    a -= &big(20);
    assert_eq!(val(&a), BigInt::from(-5));
    a *= &big(-7);
    assert_eq!(val(&a), BigInt::from(35));
    a /= &big(-4);
    assert_eq!(val(&a), BigInt::from(-8));
    a %= &big(3);
    assert_eq!(val(&a), BigInt::from(-2));
    a += big(12);
    assert_eq!(val(&a), BigInt::from(10));
    a -= big(-5);
    assert_eq!(val(&a), BigInt::from(15));
    a *= big(-3);
    assert_eq!(val(&a), BigInt::from(-45));
    a /= big(6);
    assert_eq!(val(&a), BigInt::from(-7));
    a %= big(4);
    assert_eq!(val(&a), BigInt::from(-3));
}

#[test]
fn negation_and_absolute_value() {
    assert_eq!(val(&(-big(5))), BigInt::from(-5));
    assert_eq!(val(&(-big(-5))), BigInt::from(5));
    assert_eq!(val(&(-big(0))), BigInt::from(0));
    assert_eq!(big(-5).abs_uint().value(), &BigInt::from(5));
    assert_eq!(big(5).abs_uint().value(), &BigInt::from(5));
    assert_eq!(big(0).abs_uint().value(), &BigInt::from(0));
}

#[test]
fn sign_tells_positive_from_the_rest() {
    assert_eq!(big(5).sign(), Sign::Plus);
    assert_eq!(big(0).sign(), Sign::NoSign);
    assert_eq!(big(-5).sign(), Sign::NoSign);
}

#[test]
fn equality_and_order() {
    assert!(big(3) == big(3));
    assert!(big(3) != big(-3));
    assert_eq!(big(3).cmp(&big(4)), Ordering::Less);
    assert_eq!(big(4).cmp(&big(4)), Ordering::Equal);
    assert_eq!(big(5).cmp(&big(4)), Ordering::Greater);
    assert_eq!(big(-5).cmp(&big(4)), Ordering::Less);
    assert_eq!(big(-5).partial_cmp(&big(-6)), Some(Ordering::Greater));
    assert_eq!(Ord::cmp(&big(-5), &big(-6)), Ordering::Greater);
    assert!(big(-5).max(big(3)) == big(3));
    let mut sorted = vec![big(3), big(-300), big(0), big(128)];
    sorted.sort();
    let got: Vec<BigInt> = sorted.iter().map(val).collect();
    assert_eq!(
        got,
        vec![BigInt::from(-300), BigInt::from(0), BigInt::from(3), BigInt::from(128)]
    );
    assert!(big(-5) < big(-4));
    assert!(big(5) >= big(5));
}

#[test]
fn order_against_a_machine_word_is_that_of_the_promoted_word() {
    let words: [i64; 5] = [i64::MIN, -1, 0, 1, i64::MAX];
    let values: [i64; 7] = [i64::MIN, -2, -1, 0, 1, 2, i64::MAX];
    for v in values {
        for w in words {
            let x = big(v);
            assert_eq!(x == w, x == big(w));
            assert_eq!(x.partial_cmp(&w), Some(x.cmp(&big(w))));
            assert_eq!(x.partial_cmp(&w), Some(v.cmp(&w)));
        }
    }
}

#[test]
fn order_is_that_of_the_encodings_read_as_integers() {
    let values: [i64; 9] = [i64::MIN, -300, -129, -1, 0, 1, 128, 300, i64::MAX];
    for a in values {
        for b in values {
            let x = RustBigInt::from_signed_bytes_be(&big(a).to_signed_bytes_be());
            let y = RustBigInt::from_signed_bytes_be(&big(b).to_signed_bytes_be());
            assert_eq!(big(a).cmp(&big(b)), x.cmp(&y));
            assert_eq!(big(a).cmp(&big(b)), a.cmp(&b));
        }
    }
}

#[test]
fn checked_division() {
    assert_eq!(val(&big(-7).checked_div(&big(2)).unwrap()), BigInt::from(-3));
    assert_eq!(val(&big(-7).checked_rem(&big(2)).unwrap()), BigInt::from(-1));
    assert_eq!(val(&big(7).checked_div(&big(-2)).unwrap()), BigInt::from(-3));
    assert_eq!(val(&big(7).checked_rem(&big(-2)).unwrap()), BigInt::from(1));
    assert!(big(7).checked_div(&big(0)).is_none());
    assert!(big(7).checked_rem(&big(0)).is_none());
    assert!(big(0).checked_div(&big(0)).is_none());
}
