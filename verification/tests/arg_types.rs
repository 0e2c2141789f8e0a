use num_bigint::BigInt;
use numbat_core::arg_types::{
    check_no_more_args, load_dyn_arg, ArgType, AsyncCallResult, DynArgLoader, OptionalArg,
    RawArgs, VarArgs,
};
use numbat_core::big_int_mock::{RustBigInt, RustBigUint};
use numbat_core::error::{DecodeError, SCError};
use numbat_core::multi_arg::{MultiArg16, MultiArg2, MultiArg3};

const ID: &[u8] = b"arg";

fn source(args: &[&[u8]]) -> RawArgs {
    RawArgs::new(args.iter().map(|a| a.to_vec()).collect())
}

fn left(loader: &mut RawArgs) -> Vec<Vec<u8>> {
    let mut out = Vec::new();
    while let Some(bytes) = loader.next_arg(ID) {
        out.push(bytes);
    }
    out
}

#[test]
fn raw_arguments_come_in_their_order() {
    let mut loader = source(&[&[1], &[], &[2, 3]]);
    assert!(loader.has_next());
    assert_eq!(loader.next_arg(ID), Some(vec![1]));
    assert_eq!(loader.next_arg(ID), Some(vec![]));
    assert!(loader.has_next());
    assert_eq!(loader.next_arg(ID), Some(vec![2, 3]));
    assert!(!loader.has_next());
    assert_eq!(loader.next_arg(ID), None);
    assert_eq!(loader.next_arg(ID), None);
}

#[test]
fn a_decodable_type_takes_one_raw_argument() {
    let mut loader = source(&[&[251], &[1, 2], &[0xfe, 0xd4]]);
    assert_eq!(<i32 as ArgType<RawArgs>>::load(&mut loader, ID), Ok(-5));
    assert_eq!(<Vec<u8> as ArgType<RawArgs>>::load(&mut loader, ID), Ok(vec![1, 2]));
    let big = <RustBigInt as ArgType<RawArgs>>::load(&mut loader, ID).ok().unwrap();
    assert_eq!(big.value(), &BigInt::from(-300));
    assert!(!loader.has_next());
}

#[test]
fn a_missing_raw_argument_is_a_wrong_number() {
    let mut loader = source(&[]);
    assert_eq!(<i32 as ArgType<RawArgs>>::load(&mut loader, ID), Err(SCError::ArgWrongNumber));
    assert_eq!(<Vec<u8> as ArgType<RawArgs>>::load(&mut loader, ID), Err(SCError::ArgWrongNumber));
    assert_eq!(
        <RustBigInt as ArgType<RawArgs>>::load(&mut loader, ID).err(),
        Some(SCError::ArgWrongNumber)
    );
}

#[test]
fn a_decode_error_comes_through_unchanged() {
    let mut loader = source(&[&[0, 0, 0, 0, 0, 0, 0, 0, 1], &[0, 0x80, 0, 0, 0], &[7]]);
    assert_eq!(
        <i32 as ArgType<RawArgs>>::load(&mut loader, ID),
        Err(SCError::ArgDecodeErr(DecodeError::InputTooLong))
    );
    assert_eq!(
        <i32 as ArgType<RawArgs>>::load(&mut loader, ID),
        Err(SCError::ArgDecodeErr(DecodeError::InputOutOfRange))
    );
    assert_eq!(left(&mut loader), vec![vec![7]]);
}

#[test]
fn the_unit_type_takes_no_raw_argument() {
    let mut loader = source(&[&[1]]);
    assert_eq!(<() as ArgType<RawArgs>>::load(&mut loader, ID), Ok(()));
    assert_eq!(left(&mut loader), vec![vec![1]]);
    let mut empty = source(&[]);
    assert_eq!(<() as ArgType<RawArgs>>::load(&mut empty, ID), Ok(()));
}

#[test]
fn load_dyn_arg_loads_by_type() {
    let mut loader = source(&[&[5], &[6]]);
    assert_eq!(load_dyn_arg::<i32, RawArgs>(&mut loader, ID), Ok(5));
    assert_eq!(load_dyn_arg::<Vec<u8>, RawArgs>(&mut loader, ID), Ok(vec![6]));
    assert_eq!(load_dyn_arg::<i32, RawArgs>(&mut loader, ID), Err(SCError::ArgWrongNumber));
}

#[test]
fn check_no_more_args_wants_an_empty_source() {
    let mut loader = source(&[&[5]]);
    assert_eq!(check_no_more_args(&loader), Err(SCError::ArgWrongNumber));
    assert_eq!(load_dyn_arg::<i32, RawArgs>(&mut loader, ID), Ok(5));
    assert_eq!(check_no_more_args(&loader), Ok(()));
}

#[test]
fn a_list_takes_all_that_is_left_in_order() {
    let mut loader = source(&[&[9], &[1], &[], &[0xff], &[0, 128]]);
    assert_eq!(<i32 as ArgType<RawArgs>>::load(&mut loader, ID), Ok(9));
    let list = <VarArgs<i32> as ArgType<RawArgs>>::load(&mut loader, ID).ok().unwrap();
    assert_eq!(list.len(), 4);
    assert_eq!(list.as_slice(), &[1, 0, -1, 128]);
    assert!(!loader.has_next());
    assert_eq!(check_no_more_args(&loader), Ok(()));
}

#[test]
fn a_list_from_nothing_is_empty() {
    let mut loader = source(&[]);
    let list = <VarArgs<Vec<u8>> as ArgType<RawArgs>>::load(&mut loader, ID).ok().unwrap();
    assert!(list.is_empty());
    assert_eq!(list.len(), 0);
    assert_eq!(list.into_vec(), Vec::<Vec<u8>>::new());
}

#[test]
fn a_list_ends_with_the_first_error() {
    let mut loader = source(&[&[1], &[0, 0, 0, 0, 0, 0, 0, 0, 1], &[3]]);
    assert_eq!(
        <VarArgs<i32> as ArgType<RawArgs>>::load(&mut loader, ID).err(),
        Some(SCError::ArgDecodeErr(DecodeError::InputTooLong))
    );
}

#[test]
fn a_list_of_pairs() {
    let mut loader = source(&[&[1], &[10], &[2], &[20]]);
    let list = <VarArgs<MultiArg2<i32, Vec<u8>>> as ArgType<RawArgs>>::load(&mut loader, ID)
        .ok()
        .unwrap();
    let pairs: Vec<(i32, Vec<u8>)> = list.into_vec().into_iter().map(|p| p.into_tuple()).collect();
    assert_eq!(pairs, vec![(1, vec![10]), (2, vec![20])]);
    let mut odd = source(&[&[1], &[10], &[2]]);
    assert_eq!(
        <VarArgs<MultiArg2<i32, Vec<u8>>> as ArgType<RawArgs>>::load(&mut odd, ID).err(),
        Some(SCError::ArgWrongNumber)
    );
}

#[test]
fn list_methods() {
    let mut list: VarArgs<i32> = VarArgs::new();
    assert!(list.is_empty());
    list.push(3);
    list.push(4);
    assert_eq!(list.len(), 2);
    assert!(!list.is_empty());
    assert_eq!(list.as_slice(), &[3, 4]);
    assert_eq!(list.iter().copied().collect::<Vec<i32>>(), vec![3, 4]);
    assert_eq!(list.into_vec(), vec![3, 4]);
    let from: VarArgs<i32> = VarArgs::from(vec![7, 8, 9]);
    assert_eq!(from.as_slice(), &[7, 8, 9]);
    let default: VarArgs<i32> = VarArgs::default();
    assert_eq!(default.len(), 0);
}

#[test]
fn an_optional_argument_from_nothing_is_absent() {
    let mut loader = source(&[]);
    let arg = <OptionalArg<i32> as ArgType<RawArgs>>::load(&mut loader, ID).ok().unwrap();
    assert_eq!(arg.into_option(), None);
}

#[test]
fn an_optional_argument_from_one_raw_argument_is_present() {
    let mut loader = source(&[&[0xfe, 0xd4]]);
    let arg = <OptionalArg<i32> as ArgType<RawArgs>>::load(&mut loader, ID).ok().unwrap();
    assert_eq!(arg.into_option(), Some(-300));
    assert!(!loader.has_next());
}

#[test]
fn an_optional_argument_takes_at_most_one() {
    let mut loader = source(&[&[1], &[2]]);
    let arg = <OptionalArg<i32> as ArgType<RawArgs>>::load(&mut loader, ID).ok().unwrap();
    assert_eq!(arg.into_option(), Some(1));
    assert_eq!(left(&mut loader), vec![vec![2]]);
    let mut bad = source(&[&[0, 0, 0, 0, 0, 0, 0, 0, 1]]);
    assert_eq!(
        <OptionalArg<i32> as ArgType<RawArgs>>::load(&mut bad, ID).err(),
        Some(SCError::ArgDecodeErr(DecodeError::InputTooLong))
    );
}

#[test]
fn optional_argument_conversions() {
    let present: OptionalArg<i32> = OptionalArg::from(Some(5));
    assert_eq!(present.into_option(), Some(5));
    let absent: OptionalArg<i32> = OptionalArg::from(None);
    assert_eq!(absent.into_option(), None);
    assert!(matches!(OptionalArg::from(Some(1u8)), OptionalArg::Present(1)));
    assert!(matches!(OptionalArg::<u8>::from(None), OptionalArg::Absent));
}

#[test]
fn a_pair_followed_by_the_check() {
    let mut exact = source(&[&[1], &[2]]);
    let pair = <MultiArg2<i32, i32> as ArgType<RawArgs>>::load(&mut exact, ID).ok().unwrap();
    assert_eq!(pair.into_tuple(), (1, 2));
    assert_eq!(check_no_more_args(&exact), Ok(()));

    let mut more = source(&[&[1], &[2], &[3]]);
    let pair = <MultiArg2<i32, i32> as ArgType<RawArgs>>::load(&mut more, ID).ok().unwrap();
    assert_eq!(pair.into_tuple(), (1, 2));
    assert_eq!(check_no_more_args(&more), Err(SCError::ArgWrongNumber));

    let mut fewer = source(&[&[1]]);
    assert_eq!(
        <MultiArg2<i32, i32> as ArgType<RawArgs>>::load(&mut fewer, ID).err(),
        Some(SCError::ArgWrongNumber)
    );
}

#[test]
fn a_triple_of_different_types() {
    let mut loader = source(&[&[0xfe, 0xd4], &[5], &[7, 7]]);
    let triple = <MultiArg3<RustBigInt, RustBigUint, Vec<u8>> as ArgType<RawArgs>>::load(
        &mut loader,
        ID,
    )
    .ok()
    .unwrap();
    let (a, b, c) = triple.into_tuple();
    assert_eq!(a.value(), &BigInt::from(-300));
    assert_eq!(b.value(), &BigInt::from(5));
    assert_eq!(c, vec![7, 7]);
    assert_eq!(check_no_more_args(&loader), Ok(()));
}

#[test]
fn a_pair_may_end_with_a_list() {
    let mut loader = source(&[&[1], &[2], &[3], &[4]]);
    let pair = <MultiArg2<i32, VarArgs<i32>> as ArgType<RawArgs>>::load(&mut loader, ID)
        .ok()
        .unwrap();
    let (first, rest) = pair.into_tuple();
    assert_eq!(first, 1);
    assert_eq!(rest.into_vec(), vec![2, 3, 4]);
    assert_eq!(check_no_more_args(&loader), Ok(()));
}

type Sixteen = MultiArg16<
    i32, i32, i32, i32, i32, i32, i32, i32, i32, i32, i32, i32, i32, i32, i32, i32,
>;

#[test]
fn sixteen_arguments() {
    let raw: Vec<Vec<u8>> = (1u8..=17).map(|i| vec![i]).collect();
    let mut loader = RawArgs::new(raw.clone());
    let all = <Sixteen as ArgType<RawArgs>>::load(&mut loader, ID).ok().unwrap();
    let t = all.into_tuple();
    let got = vec![
        t.0, t.1, t.2, t.3, t.4, t.5, t.6, t.7, t.8, t.9, t.10, t.11, t.12, t.13, t.14, t.15,
    ];
    assert_eq!(got, (1..=16).collect::<Vec<i32>>());
    assert_eq!(check_no_more_args(&loader), Err(SCError::ArgWrongNumber));
    assert_eq!(left(&mut loader), vec![vec![17]]);

    let mut exact = RawArgs::new(raw[..16].to_vec());
    assert!(<Sixteen as ArgType<RawArgs>>::load(&mut exact, ID).is_ok());
    assert_eq!(check_no_more_args(&exact), Ok(()));

    let mut fewer = RawArgs::new(raw[..15].to_vec());
    assert_eq!(
        <Sixteen as ArgType<RawArgs>>::load(&mut fewer, ID).err(),
        Some(SCError::ArgWrongNumber)
    );
}

#[test]
fn an_async_result_with_code_zero_is_a_success() {
    let mut loader = source(&[&[], &[0xfe, 0xd4]]);
    let result = <AsyncCallResult<i32> as ArgType<RawArgs>>::load(&mut loader, ID).ok().unwrap();
    match result {
        AsyncCallResult::Success(v) => assert_eq!(v, -300),
        AsyncCallResult::Failure(_) => panic!("a failure"),
    }
    assert!(!loader.has_next());

    let mut zero_byte = source(&[&[0], &[1, 2, 3]]);
    let result = <AsyncCallResult<Vec<u8>> as ArgType<RawArgs>>::load(&mut zero_byte, ID)
        .ok()
        .unwrap();
    assert!(matches!(result, AsyncCallResult::Success(v) if v == vec![1, 2, 3]));
}

#[test]
fn an_async_result_with_another_code_is_a_failure() {
    let mut loader = source(&[&[4], b"out of funds", &[9]]);
    let result = <AsyncCallResult<i32> as ArgType<RawArgs>>::load(&mut loader, ID).ok().unwrap();
    match result {
        AsyncCallResult::Failure(err) => {
            assert_eq!(err.err_code, 4);
            assert_eq!(err.err_msg, b"out of funds".to_vec());
        },
        AsyncCallResult::Success(_) => panic!("a success"),
    }
    assert_eq!(left(&mut loader), vec![vec![9]]);

    let mut negative = source(&[&[0xff], &[]]);
    let result = <AsyncCallResult<i32> as ArgType<RawArgs>>::load(&mut negative, ID).ok().unwrap();
    assert!(matches!(result, AsyncCallResult::Failure(e) if e.err_code == -1 && e.err_msg.is_empty()));
}

#[test]
fn an_async_result_that_cannot_be_loaded() {
    let mut none = source(&[]);
    assert_eq!(
        <AsyncCallResult<i32> as ArgType<RawArgs>>::load(&mut none, ID).err(),
        Some(SCError::ArgWrongNumber)
    );
    let mut no_payload = source(&[&[]]);
    assert_eq!(
        <AsyncCallResult<i32> as ArgType<RawArgs>>::load(&mut no_payload, ID).err(),
        Some(SCError::ArgWrongNumber)
    );
    let mut no_message = source(&[&[1]]);
    assert_eq!(
        <AsyncCallResult<i32> as ArgType<RawArgs>>::load(&mut no_message, ID).err(),
        Some(SCError::ArgWrongNumber)
    );
    let mut bad_code = source(&[&[1, 0, 0, 0, 0], &[1]]);
    assert_eq!(
        <AsyncCallResult<i32> as ArgType<RawArgs>>::load(&mut bad_code, ID).err(),
        Some(SCError::ArgDecodeErr(DecodeError::InputOutOfRange))
    );
    let mut with_unit = source(&[&[]]);
    assert!(matches!(
        <AsyncCallResult<()> as ArgType<RawArgs>>::load(&mut with_unit, ID),
        Ok(AsyncCallResult::Success(()))
    ));
}
