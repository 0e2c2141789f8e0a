use num_bigint::BigInt;
use numbat_core::big_int_mock::{RustBigInt, RustBigUint};

fn encode(v: i64) -> Vec<u8> {
    RustBigInt::from(v).to_signed_bytes_be()
}

fn decode(bytes: &[u8]) -> BigInt {
    RustBigInt::from_signed_bytes_be(bytes).value().clone()
}

#[test]
fn zero_is_the_empty_string() {
    assert_eq!(encode(0), Vec::<u8>::new());
    assert_eq!(decode(&[]), BigInt::from(0));
}

#[test]
fn small_values_take_one_byte() {
    assert_eq!(encode(1), vec![1]);
    assert_eq!(encode(5), vec![5]);
    assert_eq!(encode(127), vec![127]);
    assert_eq!(encode(-1), vec![0xff]);
    assert_eq!(encode(-5), vec![251]);
    assert_eq!(encode(-128), vec![0x80]);
}

#[test]
fn sign_bit_forces_another_byte() {
    assert_eq!(encode(128), vec![0, 128]);
    assert_eq!(encode(255), vec![0, 255]);
    assert_eq!(encode(256), vec![1, 0]);
    assert_eq!(encode(-129), vec![0xff, 0x7f]);
    assert_eq!(encode(-256), vec![0xff, 0x00]);
    assert_eq!(encode(-300), vec![0xfe, 0xd4]);
    assert_eq!(encode(-1125), vec![251, 155]);
    assert_eq!(encode(32767), vec![0x7f, 0xff]);
    assert_eq!(encode(32768), vec![0, 0x80, 0]);
    assert_eq!(encode(-32768), vec![0x80, 0]);
}

#[test]
fn machine_word_limits() {
    assert_eq!(encode(i64::MAX), vec![0x7f, 0xff, 0xff, 0xff, 0xff, 0xff, 0xff, 0xff]);
    assert_eq!(encode(i64::MIN), vec![0x80, 0, 0, 0, 0, 0, 0, 0]);
}

#[test]
fn round_trip_of_many_values() {
    let values: [i64; 17] = [
        0, 1, -1, 2, -2, 127, 128, -128, -129, 255, 256, -255, -256, 65535, -65536, i64::MAX,
        i64::MIN,
    ];
    for v in values {
        let bytes = encode(v);
        assert_eq!(decode(&bytes), BigInt::from(v), "value {}", v);
    }
}

#[test]
fn round_trip_beyond_machine_words() {
    let big = &RustBigInt::from(i64::MAX) * &RustBigInt::from(i64::MAX);
    let neg = &RustBigInt::from(i64::MIN) * &RustBigInt::from(i64::MAX);
    for x in [big, neg] {
        let bytes = x.to_signed_bytes_be();
        let back = RustBigInt::from_signed_bytes_be(&bytes);
        assert!(back == x);
        assert_eq!(back.to_signed_bytes_be(), bytes);
    }
}

#[test]
fn decoding_takes_strings_that_are_not_the_shortest() {
    assert_eq!(decode(&[0]), BigInt::from(0));
    assert_eq!(decode(&[0, 0, 5]), BigInt::from(5));
    assert_eq!(decode(&[0xff, 0xff, 0xfb]), BigInt::from(-5));
    assert_eq!(decode(&[0xff]), BigInt::from(-1));
    assert_eq!(decode(&[0x80]), BigInt::from(-128));
    assert_eq!(decode(&[0, 0x80]), BigInt::from(128));
    assert_eq!(decode(&[1, 0]), BigInt::from(256));
}

#[test]
fn unsigned_bytes() {
    let five = RustBigInt::from(5i64).abs_uint();
    assert_eq!(five.to_bytes_be(), vec![5]);
    let zero = RustBigInt::from(0i64).abs_uint();
    assert_eq!(zero.to_bytes_be(), Vec::<u8>::new());
    let top = RustBigInt::from(-200i64).abs_uint();
    assert_eq!(top.to_bytes_be(), vec![200]);
    let wide = RustBigInt::from(65535i64).abs_uint();
    assert_eq!(wide.to_bytes_be(), vec![255, 255]);
    assert_eq!(RustBigUint::from_bytes_be(&[200]).value(), &BigInt::from(200));
    assert_eq!(RustBigUint::from_bytes_be(&[]).value(), &BigInt::from(0));
    assert_eq!(RustBigUint::from_bytes_be(&[0, 0, 1, 0]).value(), &BigInt::from(256));
    assert_eq!(RustBigUint::from_bytes_be(&[255, 255]).to_bytes_be(), vec![255, 255]);
}
