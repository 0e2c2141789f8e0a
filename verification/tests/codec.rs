use num_bigint::BigInt;
use numbat_core::big_int_mock::{RustBigInt, RustBigUint};
use numbat_core::codec::{
    decode_signed, decode_unsigned, read_nested_bytes, write_nested_bytes, write_size_field,
    Decode, Encode, Input,
};
use numbat_core::error::{DecodeError, EncodeError, SCError};

#[test]
fn input_is_read_from_the_front() {
    let mut input = Input::new(vec![1, 2, 3, 4, 5]);
    assert_eq!(input.remaining_len(), 5);
    assert_eq!(input.read_slice(2), Ok(vec![1, 2]));
    assert_eq!(input.remaining_len(), 3);
    assert_eq!(input.read_slice(0), Ok(vec![]));
    assert_eq!(input.read_slice(4), Err(DecodeError::InputTooShort));
    assert_eq!(input.remaining_len(), 3);
    assert_eq!(input.flush(), vec![3, 4, 5]);
    assert_eq!(input.remaining_len(), 0);
    assert_eq!(input.flush(), Vec::<u8>::new());
    assert_eq!(input.read_slice(1), Err(DecodeError::InputTooShort));
}

#[test]
fn numbers_of_up_to_eight_bytes() {
    assert_eq!(decode_unsigned(&[]), 0);
    assert_eq!(decode_unsigned(&[5]), 5);
    assert_eq!(decode_unsigned(&[1, 0]), 256);
    assert_eq!(decode_unsigned(&[0xff; 8]), u64::MAX);
    assert_eq!(decode_unsigned(&[0, 0, 1, 2]), 258);
    assert_eq!(decode_signed(&[]), 0);
    assert_eq!(decode_signed(&[5]), 5);
    assert_eq!(decode_signed(&[0xff]), -1);
    assert_eq!(decode_signed(&[251]), -5);
    assert_eq!(decode_signed(&[0x80]), -128);
    assert_eq!(decode_signed(&[0, 0x80]), 128);
    assert_eq!(decode_signed(&[0xfe, 0xd4]), -300);
    assert_eq!(decode_signed(&[0xff; 8]), -1);
    assert_eq!(decode_signed(&[0x80, 0, 0, 0, 0, 0, 0, 0]), i64::MIN);
    assert_eq!(decode_signed(&[0x7f, 0xff, 0xff, 0xff, 0xff, 0xff, 0xff, 0xff]), i64::MAX);
}

#[test]
fn size_field_is_four_bytes_big_endian() {
    let mut dest = vec![7u8];
    assert_eq!(write_size_field(0, &mut dest), Ok(()));
    assert_eq!(dest, vec![7, 0, 0, 0, 0]);
    let mut dest = Vec::new();
    assert_eq!(write_size_field(3, &mut dest), Ok(()));
    assert_eq!(dest, vec![0, 0, 0, 3]);
    let mut dest = Vec::new();
    assert_eq!(write_size_field(0x0102_0304, &mut dest), Ok(()));
    assert_eq!(dest, vec![1, 2, 3, 4]);
    let mut dest = Vec::new();
    assert_eq!(write_size_field(0xffff_ffff, &mut dest), Ok(()));
    assert_eq!(dest, vec![255, 255, 255, 255]);
}

#[test]
fn size_that_does_not_fit_is_an_error() {
    if usize::BITS > 32 {
        let too_long = (u32::MAX as usize) + 1;
        let mut dest = vec![7u8];
        assert_eq!(write_size_field(too_long, &mut dest), Err(EncodeError::LengthOverflow));
        assert_eq!(dest, vec![7]);
    }
}

#[test]
fn nested_bytes_written_and_read() {
    let mut dest = Vec::new();
    assert_eq!(write_nested_bytes(&[1, 2, 3], &mut dest), Ok(()));
    assert_eq!(dest, vec![0, 0, 0, 3, 1, 2, 3]);
    assert_eq!(write_nested_bytes(&[], &mut dest), Ok(()));
    assert_eq!(dest, vec![0, 0, 0, 3, 1, 2, 3, 0, 0, 0, 0]);
    dest.push(42);
    let mut input = Input::new(dest);
    assert_eq!(read_nested_bytes(&mut input), Ok(vec![1, 2, 3]));
    assert_eq!(read_nested_bytes(&mut input), Ok(vec![]));
    assert_eq!(input.remaining_len(), 1);
    assert_eq!(read_nested_bytes(&mut input), Err(DecodeError::InputTooShort));
}

#[test]
fn nested_bytes_cut_short() {
    let mut input = Input::new(vec![0, 0, 0, 3, 1, 2]);
    assert_eq!(read_nested_bytes(&mut input), Err(DecodeError::InputTooShort));
    let mut input = Input::new(vec![0, 0, 0]);
    assert_eq!(read_nested_bytes(&mut input), Err(DecodeError::InputTooShort));
    let mut input = Input::new(vec![0xff, 0xff, 0xff, 0xff, 1]);
    assert_eq!(read_nested_bytes(&mut input), Err(DecodeError::InputTooShort));
}

#[test]
fn byte_strings() {
    let v: Vec<u8> = vec![1, 2, 3];
    assert_eq!(v.top_encode(), Ok(vec![1, 2, 3]));
    let mut dest = Vec::new();
    assert_eq!(v.dep_encode_to(&mut dest), Ok(()));
    assert_eq!(dest, vec![0, 0, 0, 3, 1, 2, 3]);
    let empty: Vec<u8> = Vec::new();
    assert_eq!(empty.top_encode(), Ok(vec![]));
    let mut dest = Vec::new();
    assert_eq!(empty.dep_encode_to(&mut dest), Ok(()));
    assert_eq!(dest, vec![0, 0, 0, 0]);
    assert_eq!(<Vec<u8> as Decode>::top_decode(&mut Input::new(vec![9, 8])), Ok(vec![9, 8]));
    assert_eq!(
        <Vec<u8> as Decode>::dep_decode(&mut Input::new(vec![0, 0, 0, 1, 9, 8])),
        Ok(vec![9])
    );
    assert_eq!(
        <Vec<u8> as Decode>::dep_decode(&mut Input::new(vec![0, 0, 0, 2, 9])),
        Err(DecodeError::InputTooShort)
    );
}

#[test]
fn signed_32_bit_numbers_top_level() {
    let top = |bytes: &[u8]| <i32 as Decode>::top_decode(&mut Input::new(bytes.to_vec()));
    assert_eq!(top(&[]), Ok(0));
    assert_eq!(top(&[5]), Ok(5));
    assert_eq!(top(&[251]), Ok(-5));
    assert_eq!(top(&[0xff]), Ok(-1));
    assert_eq!(top(&[0, 0, 0, 0, 0, 0, 0, 5]), Ok(5));
    assert_eq!(top(&[0x7f, 0xff, 0xff, 0xff]), Ok(i32::MAX));
    assert_eq!(top(&[0x80, 0, 0, 0]), Ok(i32::MIN));
    assert_eq!(top(&[0xff, 0xff, 0xff, 0xff, 0x80, 0, 0, 0]), Ok(i32::MIN));
    assert_eq!(top(&[0, 0x80, 0, 0, 0]), Err(DecodeError::InputOutOfRange));
    assert_eq!(top(&[0xff, 0x7f, 0xff, 0xff, 0xff]), Err(DecodeError::InputOutOfRange));
    assert_eq!(top(&[0x7f, 0xff, 0xff, 0xff, 0xff, 0xff, 0xff, 0xff]), Err(DecodeError::InputOutOfRange));
    assert_eq!(top(&[0, 0, 0, 0, 0, 0, 0, 0, 5]), Err(DecodeError::InputTooLong));
}

#[test]
fn signed_32_bit_numbers_nested() {
    let mut input = Input::new(vec![0, 0, 0, 5, 0xff, 0xff, 0xff, 0xfb, 1]);
    assert_eq!(<i32 as Decode>::dep_decode(&mut input), Ok(5));
    assert_eq!(<i32 as Decode>::dep_decode(&mut input), Ok(-5));
    assert_eq!(input.remaining_len(), 1);
    assert_eq!(<i32 as Decode>::dep_decode(&mut input), Err(DecodeError::InputTooShort));
    let mut input = Input::new(vec![0x80, 0, 0, 0, 0x7f, 0xff, 0xff, 0xff]);
    assert_eq!(<i32 as Decode>::dep_decode(&mut input), Ok(i32::MIN));
    assert_eq!(<i32 as Decode>::dep_decode(&mut input), Ok(i32::MAX));
}

#[test]
fn big_integers_top_level() {
    assert_eq!(RustBigInt::from(5i64).top_encode(), Ok(vec![5]));
    assert_eq!(RustBigInt::from(127i64).top_encode(), Ok(vec![127]));
    assert_eq!(RustBigInt::from(128i64).top_encode(), Ok(vec![0, 128]));
    assert_eq!(RustBigInt::from(-128i64).top_encode(), Ok(vec![128]));
    assert_eq!(RustBigInt::from(0i64).top_encode(), Ok(vec![]));
    let back = <RustBigInt as Decode>::top_decode(&mut Input::new(vec![0, 128])).ok().unwrap();
    assert_eq!(back.value(), &BigInt::from(128));
    let zero = <RustBigInt as Decode>::top_decode(&mut Input::new(vec![])).ok().unwrap();
    assert_eq!(zero.value(), &BigInt::from(0));
}

#[test]
fn big_integers_nested() {
    let mut dest = Vec::new();
    assert_eq!(RustBigInt::from(5i64).dep_encode_to(&mut dest), Ok(()));
    assert_eq!(dest, vec![0, 0, 0, 1, 5]);
    let mut dest = Vec::new();
    assert_eq!(RustBigInt::from(-5i64).dep_encode_to(&mut dest), Ok(()));
    assert_eq!(dest, vec![0, 0, 0, 1, 251]);
    let mut dest = Vec::new();
    assert_eq!(RustBigInt::from(0i64).dep_encode_to(&mut dest), Ok(()));
    assert_eq!(dest, vec![0, 0, 0, 0]);
    let mut input = Input::new(vec![0, 0, 0, 1, 251, 0, 0, 0, 0, 7]);
    let a = <RustBigInt as Decode>::dep_decode(&mut input).ok().unwrap();
    let b = <RustBigInt as Decode>::dep_decode(&mut input).ok().unwrap();
    assert_eq!(a.value(), &BigInt::from(-5));
    assert_eq!(b.value(), &BigInt::from(0));
    assert_eq!(input.remaining_len(), 1);
    assert_eq!(
        <RustBigInt as Decode>::dep_decode(&mut input).err(),
        Some(DecodeError::InputTooShort)
    );
}

#[test]
fn unsigned_big_integers() {
    let five = RustBigInt::from(5i64).abs_uint();
    assert_eq!(five.top_encode(), Ok(vec![5]));
    let mut dest = Vec::new();
    assert_eq!(five.dep_encode_to(&mut dest), Ok(()));
    assert_eq!(dest, vec![0, 0, 0, 1, 5]);
    let top = <RustBigUint as Decode>::top_decode(&mut Input::new(vec![200])).ok().unwrap();
    assert_eq!(top.value(), &BigInt::from(200));
    let nested = <RustBigUint as Decode>::dep_decode(&mut Input::new(vec![0, 0, 0, 2, 1, 0]))
        .ok()
        .unwrap();
    assert_eq!(nested.value(), &BigInt::from(256));
    assert_eq!(
        <RustBigUint as Decode>::dep_decode(&mut Input::new(vec![0, 0, 0, 2, 1])).err(),
        Some(DecodeError::InputTooShort)
    );
}

#[test]
fn pair_of_a_signed_and_an_unsigned_integer_nested() {
    let first = RustBigInt::from(-300i64);
    let second = RustBigInt::from(5i64).abs_uint();
    let mut buffer = Vec::new();
    assert_eq!(first.dep_encode_to(&mut buffer), Ok(()));
    assert_eq!(second.dep_encode_to(&mut buffer), Ok(()));
    assert_eq!(buffer, vec![0, 0, 0, 2, 0xfe, 0xd4, 0, 0, 0, 1, 5]);
    let mut input = Input::new(buffer);
    let a = <RustBigInt as Decode>::dep_decode(&mut input).ok().unwrap();
    let b = <RustBigUint as Decode>::dep_decode(&mut input).ok().unwrap();
    assert_eq!(input.remaining_len(), 0);
    assert_eq!(a.value(), &BigInt::from(-300));
    assert_eq!(b.value(), &BigInt::from(5));
    assert!(a == first);
    assert_eq!(b.to_bytes_be(), second.to_bytes_be());
}

#[test]
fn error_texts() {
    assert_eq!(DecodeError::InputTooShort.message(), "input too short");
    assert_eq!(DecodeError::InputTooLong.message(), "input too long");
    assert_eq!(DecodeError::InputOutOfRange.message(), "input out of range");
    assert_eq!(EncodeError::LengthOverflow.message(), "length does not fit the size field");
    assert_eq!(SCError::ArgWrongNumber.message(), "wrong number of arguments");
    assert_eq!(
        SCError::ArgAsyncWrongNumber.message(),
        "wrong number of arguments provided to async call"
    );
    assert_eq!(SCError::NotSupported.message(), "not supported");
    assert_eq!(SCError::ArgDecodeErr(DecodeError::InputTooLong).message(), "input too long");
    assert_eq!(
        SCError::PushAsyncEncodeErr(EncodeError::LengthOverflow).message(),
        "length does not fit the size field"
    );
}
