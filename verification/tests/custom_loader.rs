use numbat_core::arg_types::{
    check_no_more_args, ArgId, ArgType, DynArgLoader, OptionalArg, VarArgs,
};
use numbat_core::error::SCError;
use numbat_core::multi_arg::MultiArg2;

/// Hands out the one-byte arguments `left - 1`, `left - 2`, down to zero.
struct Countdown {
    left: u8,
    asked: Vec<Vec<u8>>,
}

impl DynArgLoader for Countdown {
    fn has_next(&self) -> bool {
        self.left > 0
    }

    fn next_arg(&mut self, arg_id: ArgId) -> Option<Vec<u8>> {
        self.asked.push(arg_id.to_vec());
        if self.left > 0 {
            self.left -= 1;
            Some(vec![self.left])
        } else {
            None
        }
    }
}

#[test]
fn a_source_of_another_kind() {
    let mut loader = Countdown { left: 5, asked: Vec::new() };
    assert_eq!(<i32 as ArgType<Countdown>>::load(&mut loader, b"first"), Ok(4));
    let pair = <MultiArg2<i32, Vec<u8>> as ArgType<Countdown>>::load(&mut loader, b"pair")
        .ok()
        .unwrap();
    assert_eq!(pair.into_tuple(), (3, vec![2]));
    assert_eq!(check_no_more_args(&loader), Err(SCError::ArgWrongNumber));
    let rest = <VarArgs<i32> as ArgType<Countdown>>::load(&mut loader, b"rest").ok().unwrap();
    assert_eq!(rest.into_vec(), vec![1, 0]);
    assert_eq!(check_no_more_args(&loader), Ok(()));
    let none = <OptionalArg<i32> as ArgType<Countdown>>::load(&mut loader, b"opt").ok().unwrap();
    assert_eq!(none.into_option(), None);
    assert_eq!(<i32 as ArgType<Countdown>>::load(&mut loader, b"last"), Err(SCError::ArgWrongNumber));
    assert_eq!(
        loader.asked,
        vec![
            b"first".to_vec(),
            b"pair".to_vec(),
            b"pair".to_vec(),
            b"rest".to_vec(),
            b"rest".to_vec(),
            b"last".to_vec()
        ]
    );
}
