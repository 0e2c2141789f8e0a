use numbat_core::arg_serialize::{AsynCallArg, CallDataSerializer};
use numbat_core::arg_types::{OptionalArg, VarArgs};
use numbat_core::big_int_mock::RustBigInt;
use numbat_core::error::SCError;
use numbat_core::multi_result::{MultiResult1, MultiResult16, MultiResult2, MultiResult3};

fn big(v: i64) -> RustBigInt {
    RustBigInt::from(v)
}

#[test]
fn an_encodable_value_is_one_raw_argument() {
    let mut ser = CallDataSerializer::new();
    assert_eq!(big(-300).push_async_arg(&mut ser), Ok(()));
    assert_eq!(vec![1u8, 2, 3].push_async_arg(&mut ser), Ok(()));
    assert_eq!(big(0).push_async_arg(&mut ser), Ok(()));
    assert_eq!(big(128).abs_uint().push_async_arg(&mut ser), Ok(()));
    assert_eq!(
        ser.into_args(),
        vec![vec![0xfe, 0xd4], vec![1, 2, 3], vec![], vec![128]]
    );
}

#[test]
fn call_data_keeps_the_order_of_writing() {
    let mut ser = CallDataSerializer::new();
    ser.push_argument_bytes(vec![2]);
    ser.push_argument_bytes(vec![]);
    ser.push_argument_bytes(vec![1, 1]);
    assert_eq!(ser.into_args(), vec![vec![2], vec![], vec![1, 1]]);
    assert_eq!(CallDataSerializer::new().into_args(), Vec::<Vec<u8>>::new());
}

#[test]
fn a_list_writes_each_element() {
    let list = VarArgs::from(vec![big(1), big(-1), big(256)]);
    let mut ser = CallDataSerializer::new();
    ser.push_argument_bytes(vec![9]);
    assert_eq!(list.push_async_arg(&mut ser), Ok(()));
    assert_eq!(ser.into_args(), vec![vec![9], vec![1], vec![0xff], vec![1, 0]]);
    let empty: VarArgs<RustBigInt> = VarArgs::new();
    let mut ser = CallDataSerializer::new();
    assert_eq!(empty.push_async_arg(&mut ser), Ok(()));
    assert_eq!(ser.into_args(), Vec::<Vec<u8>>::new());
}

#[test]
fn a_list_with_the_expected_count_is_written() {
    let list = VarArgs::from(vec![big(1), big(2), big(3)]);
    let mut ser = CallDataSerializer::new();
    assert_eq!(list.push_async_arg_exact(&mut ser, 3), Ok(()));
    assert_eq!(ser.into_args(), vec![vec![1], vec![2], vec![3]]);
    let empty: VarArgs<Vec<u8>> = VarArgs::new();
    let mut ser = CallDataSerializer::new();
    assert_eq!(empty.push_async_arg_exact(&mut ser, 0), Ok(()));
    assert_eq!(ser.into_args(), Vec::<Vec<u8>>::new());
}

#[test]
fn a_list_with_another_count_writes_nothing() {
    let list = VarArgs::from(vec![big(1), big(2), big(3)]);
    for expected in [0usize, 1, 2, 4, 100] {
        let mut ser = CallDataSerializer::new();
        ser.push_argument_bytes(vec![7]);
        assert_eq!(
            list.push_async_arg_exact(&mut ser, expected),
            Err(SCError::ArgAsyncWrongNumber)
        );
        assert_eq!(ser.into_args(), vec![vec![7]]);
    }
    let empty: VarArgs<Vec<u8>> = VarArgs::new();
    let mut ser = CallDataSerializer::new();
    assert_eq!(empty.push_async_arg_exact(&mut ser, 1), Err(SCError::ArgAsyncWrongNumber));
}

#[test]
fn types_without_the_checked_form_are_not_supported() {
    let mut ser = CallDataSerializer::new();
    assert_eq!(big(5).push_async_arg_exact(&mut ser, 1), Err(SCError::NotSupported));
    assert_eq!(vec![1u8].push_async_arg_exact(&mut ser, 1), Err(SCError::NotSupported));
    assert_eq!(
        OptionalArg::Present(big(5)).push_async_arg_exact(&mut ser, 1),
        Err(SCError::NotSupported)
    );
    assert_eq!(
        MultiResult2((big(5), big(6))).push_async_arg_exact(&mut ser, 2),
        Err(SCError::NotSupported)
    );
    assert_eq!(ser.into_args(), Vec::<Vec<u8>>::new());
}

#[test]
fn an_optional_value_writes_itself_or_nothing() {
    let mut ser = CallDataSerializer::new();
    assert_eq!(OptionalArg::Present(big(-5)).push_async_arg(&mut ser), Ok(()));
    assert_eq!(OptionalArg::<RustBigInt>::Absent.push_async_arg(&mut ser), Ok(()));
    assert_eq!(OptionalArg::Present(vec![1u8, 2]).push_async_arg(&mut ser), Ok(()));
    assert_eq!(ser.into_args(), vec![vec![251], vec![1, 2]]);
}

#[test]
fn result_groups_write_their_parts_in_order() {
    let mut ser = CallDataSerializer::new();
    assert_eq!(MultiResult1((big(7),)).push_async_arg(&mut ser), Ok(()));
    assert_eq!(MultiResult2((big(-300), vec![5u8])).push_async_arg(&mut ser), Ok(()));
    assert_eq!(
        MultiResult3((vec![1u8], OptionalArg::<RustBigInt>::Absent, VarArgs::from(vec![big(2), big(3)])))
            .push_async_arg(&mut ser),
        Ok(())
    );
    assert_eq!(
        ser.into_args(),
        vec![vec![7], vec![0xfe, 0xd4], vec![5], vec![1], vec![2], vec![3]]
    );
}

#[test]
fn sixteen_results() {
    let b = |i: u8| vec![i];
    let group = MultiResult16((
        b(1), b(2), b(3), b(4), b(5), b(6), b(7), b(8), b(9), b(10), b(11), b(12), b(13), b(14),
        b(15), b(16),
    ));
    let mut ser = CallDataSerializer::new();
    assert_eq!(group.push_async_arg(&mut ser), Ok(()));
    let expected: Vec<Vec<u8>> = (1u8..=16).map(|i| vec![i]).collect();
    assert_eq!(ser.into_args(), expected);
}
