use core::cmp::Ordering;
use numbat_core::backends::{computed_op, encode_on_both};
use numbat_core::big_int::{andes_cmp_i64, AndesBigInt, AndesBigUint};
use numbat_core::big_int_api::{BinaryOp, Sign};
use numbat_core::big_int_mock::RustBigInt;
use numbat_core::codec::Input;
use numbat_core::error::DecodeError;
use numbat_core::host::{BigIntHost, LocalHost};

fn bytes_of(v: i64) -> Vec<u8> {
    RustBigInt::from(v).to_signed_bytes_be()
}

#[test]
fn host_hands_out_new_handles() {
    let mut host = LocalHost::new();
    let a = host.big_int_new(5);
    let b = host.big_int_new(5);
    let c = host.big_int_new(-1);
    assert!(a != b && b != c && a != c);
    assert_eq!(host.big_int_signed_byte_length(a), 1);
    assert_eq!(host.big_int_signed_byte_length(c), 1);
    let zero = host.big_int_new(0);
    assert_eq!(host.big_int_signed_byte_length(zero), 0);
    let wide = host.big_int_new(-300);
    assert_eq!(host.big_int_signed_byte_length(wide), 2);
    let mut dest = vec![0u8; 2];
    host.big_int_get_signed_bytes(wide, &mut dest);
    assert_eq!(dest, vec![0xfe, 0xd4]);
}

#[test]
fn host_operations_write_into_the_destination() {
    let mut host = LocalHost::new();
    let x = host.big_int_new(-7);
    let y = host.big_int_new(2);
    let d = host.big_int_new(0);
    host.big_int_add(d, x, y);
    assert_eq!(AndesBigInt { handle: d }.to_signed_bytes_be(&host), bytes_of(-5));
    host.big_int_sub(d, x, y);
    assert_eq!(AndesBigInt { handle: d }.to_signed_bytes_be(&host), bytes_of(-9));
    host.big_int_mul(d, x, y);
    assert_eq!(AndesBigInt { handle: d }.to_signed_bytes_be(&host), bytes_of(-14));
    host.big_int_t_div(d, x, y);
    assert_eq!(AndesBigInt { handle: d }.to_signed_bytes_be(&host), bytes_of(-3));
    host.big_int_t_mod(d, x, y);
    assert_eq!(AndesBigInt { handle: d }.to_signed_bytes_be(&host), bytes_of(-1));
    host.big_int_abs(d, x);
    assert_eq!(AndesBigInt { handle: d }.to_signed_bytes_be(&host), bytes_of(7));
    host.big_int_neg(d, y);
    assert_eq!(AndesBigInt { handle: d }.to_signed_bytes_be(&host), bytes_of(-2));
    host.big_int_set_signed_bytes(d, &[0xfe, 0xd4]);
    assert_eq!(AndesBigInt { handle: d }.to_signed_bytes_be(&host), bytes_of(-300));
    // the operands are untouched
    assert_eq!(AndesBigInt { handle: x }.to_signed_bytes_be(&host), bytes_of(-7));
    assert_eq!(AndesBigInt { handle: y }.to_signed_bytes_be(&host), bytes_of(2));
    assert!(host.big_int_sign(x) < 0);
    assert!(host.big_int_sign(y) > 0);
    assert!(host.big_int_compare(x, y) < 0);
    assert!(host.big_int_compare(y, x) > 0);
    assert_eq!(host.big_int_compare(x, x), 0);
}

#[test]
fn construction_and_encoding() {
    let mut host = LocalHost::new();
    let a = AndesBigInt::from_i64(&mut host, -300);
    let b = AndesBigInt::from_i32(&mut host, 128);
    let z = AndesBigInt::from_i64(&mut host, 0);
    assert_eq!(a.to_signed_bytes_be(&host), vec![0xfe, 0xd4]);
    assert_eq!(b.to_signed_bytes_be(&host), vec![0, 128]);
    assert_eq!(z.to_signed_bytes_be(&host), Vec::<u8>::new());
    let c = AndesBigInt::from_signed_bytes_be(&mut host, &[0xff, 0xff, 0xfb]);
    assert_eq!(c.to_signed_bytes_be(&host), vec![0xfb]);
    let e = AndesBigInt::from_signed_bytes_be(&mut host, &[]);
    assert_eq!(e.to_signed_bytes_be(&host), Vec::<u8>::new());
}

#[test]
fn round_trip_on_the_host() {
    let mut host = LocalHost::new();
    let values: [i64; 9] = [0, 1, -1, 127, 128, -128, -129, i64::MAX, i64::MIN];
    for v in values {
        let x = AndesBigInt::from_i64(&mut host, v);
        let bytes = x.to_signed_bytes_be(&host);
        let back = AndesBigInt::from_signed_bytes_be(&mut host, &bytes);
        assert!(back.eq(&host, &x));
        assert_eq!(back.to_signed_bytes_be(&host), bytes_of(v));
    }
}

#[test]
fn clone_takes_a_new_handle() {
    let mut host = LocalHost::new();
    let a = AndesBigInt::from_i64(&mut host, 99);
    let mut b = a.clone(&mut host);
    assert!(a.handle != b.handle);
    assert!(a.eq(&host, &b));
    let one = AndesBigInt::from_i64(&mut host, 1);
    b.add_assign(&mut host, &one);
    assert_eq!(a.to_signed_bytes_be(&host), bytes_of(99));
    assert_eq!(b.to_signed_bytes_be(&host), bytes_of(100));
}

#[test]
fn arithmetic_makes_new_integers() {
    let mut host = LocalHost::new();
    let a = AndesBigInt::from_i64(&mut host, -7);
    let b = AndesBigInt::from_i64(&mut host, 2);
    let sum = a.add(&mut host, &b);
    let diff = a.sub(&mut host, &b);
    let prod = a.mul(&mut host, &b);
    let quot = a.div(&mut host, &b);
    let rem = a.rem(&mut host, &b);
    assert_eq!(sum.to_signed_bytes_be(&host), bytes_of(-5));
    assert_eq!(diff.to_signed_bytes_be(&host), bytes_of(-9));
    assert_eq!(prod.to_signed_bytes_be(&host), bytes_of(-14));
    assert_eq!(quot.to_signed_bytes_be(&host), bytes_of(-3));
    assert_eq!(rem.to_signed_bytes_be(&host), bytes_of(-1));
    assert_eq!(a.to_signed_bytes_be(&host), bytes_of(-7));
    assert_eq!(b.to_signed_bytes_be(&host), bytes_of(2));
    let handles = [a.handle, b.handle, sum.handle, diff.handle, prod.handle, quot.handle, rem.handle];
    for i in 0..handles.len() {
        for j in 0..i {
            assert!(handles[i] != handles[j]);
        }
    }
}

#[test]
fn arithmetic_in_place_keeps_the_handle() {
    let mut host = LocalHost::new();
    let mut a = AndesBigInt::from_i64(&mut host, 10);
    let handle = a.handle;
    let five = AndesBigInt::from_i64(&mut host, 5);
    let twenty = AndesBigInt::from_i64(&mut host, 20);
    let minus_seven = AndesBigInt::from_i64(&mut host, -7);
    let minus_four = AndesBigInt::from_i64(&mut host, -4);
    let three = AndesBigInt::from_i64(&mut host, 3);
    a.add_assign(&mut host, &five);
    assert_eq!(a.to_signed_bytes_be(&host), bytes_of(15));
    a.sub_assign(&mut host, &twenty);
    assert_eq!(a.to_signed_bytes_be(&host), bytes_of(-5));
    a.mul_assign(&mut host, &minus_seven);
    assert_eq!(a.to_signed_bytes_be(&host), bytes_of(35));
    a.div_assign(&mut host, &minus_four);
    assert_eq!(a.to_signed_bytes_be(&host), bytes_of(-8));
    a.rem_assign(&mut host, &three);
    assert_eq!(a.to_signed_bytes_be(&host), bytes_of(-2));
    assert_eq!(a.handle, handle);
    assert_eq!(five.to_signed_bytes_be(&host), bytes_of(5));
}

#[test]
fn negation_and_absolute_value_on_the_host() {
    let mut host = LocalHost::new();
    let a = AndesBigInt::from_i64(&mut host, -5);
    let abs: AndesBigUint = a.abs_uint(&mut host);
    let as_signed = AndesBigInt::from(abs);
    assert_eq!(as_signed.to_signed_bytes_be(&host), bytes_of(5));
    let a2 = AndesBigInt::from_i64(&mut host, -5);
    let n = a2.neg(&mut host);
    assert_eq!(n.to_signed_bytes_be(&host), bytes_of(5));
    let z = AndesBigInt::from_i64(&mut host, 0);
    let nz = z.neg(&mut host);
    assert_eq!(nz.to_signed_bytes_be(&host), Vec::<u8>::new());
}

#[test]
fn sign_tells_positive_from_the_rest_on_the_host() {
    let mut host = LocalHost::new();
    let p = AndesBigInt::from_i64(&mut host, 5);
    let z = AndesBigInt::from_i64(&mut host, 0);
    let n = AndesBigInt::from_i64(&mut host, -5);
    assert_eq!(p.sign(&host), Sign::Plus);
    assert_eq!(z.sign(&host), Sign::NoSign);
    assert_eq!(n.sign(&host), Sign::NoSign);
}

#[test]
fn sign_is_the_same_in_both_representations() {
    let mut host = LocalHost::new();
    let words: [i64; 7] = [i64::MIN, -300, -1, 0, 1, 300, i64::MAX];
    for w in words {
        let delegated = AndesBigInt::from_i64(&mut host, w);
        let computed = RustBigInt::from(w);
        assert_eq!(delegated.sign(&host), computed.sign(), "word {}", w);
    }
}

#[test]
fn order_on_the_host() {
    let mut host = LocalHost::new();
    let a = AndesBigInt::from_i64(&mut host, -5);
    let b = AndesBigInt::from_i64(&mut host, 4);
    let c = AndesBigInt::from_i64(&mut host, 4);
    assert!(!a.eq(&host, &b));
    assert!(b.eq(&host, &c));
    assert_eq!(a.cmp(&host, &b), Ordering::Less);
    assert_eq!(b.cmp(&host, &a), Ordering::Greater);
    assert_eq!(b.cmp(&host, &c), Ordering::Equal);
    assert_eq!(a.partial_cmp(&host, &b), Some(Ordering::Less));
}

#[test]
fn order_against_a_machine_word_on_the_host() {
    let words: [i64; 5] = [i64::MIN, -1, 0, 1, i64::MAX];
    let values: [i64; 7] = [i64::MIN, -2, -1, 0, 1, 2, i64::MAX];
    for v in values {
        for w in words {
            let mut host = LocalHost::new();
            let x = AndesBigInt::from_i64(&mut host, v);
            let promoted = AndesBigInt::from_i64(&mut host, w);
            let expected = x.cmp(&host, &promoted);
            assert_eq!(expected, v.cmp(&w));
            assert_eq!(x.partial_cmp_i64(&mut host, w), Some(expected));
            assert_eq!(x.eq_i64(&mut host, w), v == w);
            assert_eq!(andes_cmp_i64(&x, &mut host, w).cmp(&0), v.cmp(&w));
        }
    }
}

#[test]
fn comparing_with_zero_takes_no_handle() {
    let mut host = LocalHost::new();
    let x = AndesBigInt::from_i64(&mut host, 9);
    assert!(andes_cmp_i64(&x, &mut host, 0) > 0);
    let next = host.big_int_new(0);
    assert_eq!(next, x.handle + 1);
    assert!(andes_cmp_i64(&x, &mut host, 9) == 0);
    let after = host.big_int_new(0);
    assert_eq!(after, next + 2);
}

#[test]
fn both_representations_give_the_same_bytes() {
    let ops = [BinaryOp::Add, BinaryOp::Sub, BinaryOp::Mul, BinaryOp::Div, BinaryOp::Rem];
    let words: [i64; 11] = [i64::MIN, -65536, -300, -129, -1, 1, 127, 128, 255, 65535, i64::MAX];
    let mut host = LocalHost::new();
    for op in ops {
        for a in words {
            for b in words {
                let (computed, delegated) = encode_on_both(&mut host, op, a, b);
                assert_eq!(computed, delegated);
            }
        }
    }
    for op in [BinaryOp::Add, BinaryOp::Sub, BinaryOp::Mul] {
        let (computed, delegated) = encode_on_both(&mut host, op, 0, 0);
        assert_eq!(computed, Vec::<u8>::new());
        assert_eq!(delegated, Vec::<u8>::new());
    }
}

#[test]
fn both_representations_exact_values() {
    let mut host = LocalHost::new();
    assert_eq!(encode_on_both(&mut host, BinaryOp::Add, 100, 28), (vec![0, 128], vec![0, 128]));
    assert_eq!(encode_on_both(&mut host, BinaryOp::Sub, -100, 200), (vec![0xfe, 0xd4], vec![0xfe, 0xd4]));
    assert_eq!(encode_on_both(&mut host, BinaryOp::Mul, -16, 8), (vec![0x80], vec![0x80]));
    assert_eq!(encode_on_both(&mut host, BinaryOp::Div, -7, 2), (vec![0xfd], vec![0xfd]));
    assert_eq!(encode_on_both(&mut host, BinaryOp::Rem, -7, 2), (vec![0xff], vec![0xff]));
    assert_eq!(encode_on_both(&mut host, BinaryOp::Rem, 7, -2), (vec![1], vec![1]));
    let r = computed_op(BinaryOp::Div, &RustBigInt::from(7i64), &RustBigInt::from(-2i64));
    assert_eq!(r.to_signed_bytes_be(), vec![0xfd]);
}

#[test]
fn codec_on_the_host() {
    let mut host = LocalHost::new();
    let a = AndesBigInt::from_i64(&mut host, -300);
    assert_eq!(a.top_encode(&host), Ok(vec![0xfe, 0xd4]));
    let mut dest = vec![9u8];
    assert_eq!(a.dep_encode_to(&host, &mut dest), Ok(()));
    assert_eq!(dest, vec![9, 0, 0, 0, 2, 0xfe, 0xd4]);

    let mut input = Input::new(vec![0xff, 0x7f]);
    let top = AndesBigInt::top_decode(&mut host, &mut input).ok().unwrap();
    assert_eq!(top.to_signed_bytes_be(&host), bytes_of(-129));
    assert_eq!(input.remaining_len(), 0);

    let mut input = Input::new(vec![0, 0, 0, 2, 0xfe, 0xd4, 0, 0, 0, 1, 5]);
    let first = AndesBigInt::dep_decode(&mut host, &mut input).ok().unwrap();
    assert_eq!(input.remaining_len(), 5);
    let second = AndesBigInt::dep_decode(&mut host, &mut input).ok().unwrap();
    assert_eq!(input.remaining_len(), 0);
    assert_eq!(first.to_signed_bytes_be(&host), bytes_of(-300));
    assert_eq!(second.to_signed_bytes_be(&host), bytes_of(5));

    let mut short = Input::new(vec![0, 0, 0, 3, 1, 2]);
    assert_eq!(
        AndesBigInt::dep_decode(&mut host, &mut short).err(),
        Some(DecodeError::InputTooShort)
    );
    let mut shorter = Input::new(vec![0, 0]);
    assert_eq!(
        AndesBigInt::dep_decode(&mut host, &mut shorter).err(),
        Some(DecodeError::InputTooShort)
    );
}

#[test]
fn checked_division_on_the_host() {
    let mut host = LocalHost::new();
    let a = AndesBigInt::from_i64(&mut host, -7);
    let b = AndesBigInt::from_i64(&mut host, 2);
    let z = AndesBigInt::from_i64(&mut host, 0);
    let q = a.checked_div(&mut host, &b).unwrap();
    let r = a.checked_rem(&mut host, &b).unwrap();
    assert_eq!(q.to_signed_bytes_be(&host), bytes_of(-3));
    assert_eq!(r.to_signed_bytes_be(&host), bytes_of(-1));
    assert!(a.checked_div(&mut host, &z).is_none());
    assert!(a.checked_rem(&mut host, &z).is_none());
    let next = host.big_int_new(0);
    assert_eq!(next, r.handle + 1);
}
