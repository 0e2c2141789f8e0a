//! The arbitrary-precision integer that holds its value itself and computes
//! on it in this process.

use vstd::prelude::*;
use vstd::std_specs::cmp::{PartialEqSpecImpl, PartialOrdSpecImpl};
use vstd::std_specs::convert::FromSpecImpl;
use vstd::std_specs::ops::{
    AddSpecImpl, DivSpecImpl, MulSpecImpl, NegSpecImpl, RemSpecImpl, SubSpecImpl,
};
use core::cmp::Ordering;
use num_bigint::BigInt;
use num_traits::sign::Signed;
use crate::big_int_api::{
    int_of, magnitude, ordering_of, sign_of, truncating_div, truncating_rem, Sign,
};
use crate::codec::{
    lemma_nested_bytes_round_trip, nested_bytes, read_nested_bytes, take_nested_bytes,
    write_nested_bytes, Decode, Encode, Input,
};
use crate::error::{DecodeError, EncodeError};
use crate::signed_bytes::{
    lemma_leading_zero, lemma_signed_bytes_round_trip, lemma_unsigned_bytes_of_positive,
    signed_be, signed_bytes_be, twos_complement_be, unsigned_be, unsigned_bytes_be,
};

verus! {

/// The signed integer of `num_bigint`. The verifier does not look inside
/// it; what it holds goes by the name `big_int_value`.
#[verifier::external_type_specification]
#[verifier::external_body]
pub struct ExBigInt(num_bigint::BigInt);

/// The mathematical integer that a `BigInt` holds.
pub uninterp spec fn big_int_value(b: BigInt) -> int;

/// `BigInt::from` on an `i64`: the result holds the machine integer's
/// value.
#[verifier::external_body]
fn big_from_i64(v: i64) -> (r: BigInt)
    ensures
        big_int_value(r) == v,
{
    BigInt::from(v)
}

/// `BigInt::clone`: the copy holds the same value.
#[verifier::external_body]
fn big_clone(a: &BigInt) -> (r: BigInt)
    ensures
        big_int_value(r) == big_int_value(*a),
{
    a.clone()
}

/// `&BigInt + &BigInt`: the result holds the sum.
#[verifier::external_body]
fn big_add(a: &BigInt, b: &BigInt) -> (r: BigInt)
    ensures
        big_int_value(r) == big_int_value(*a) + big_int_value(*b),
{
    a + b
}

/// `&BigInt - &BigInt`: the result holds the difference.
#[verifier::external_body]
fn big_sub(a: &BigInt, b: &BigInt) -> (r: BigInt)
    ensures
        big_int_value(r) == big_int_value(*a) - big_int_value(*b),
{
    a - b
}

/// `&BigInt * &BigInt`: the result holds the product.
#[verifier::external_body]
fn big_mul(a: &BigInt, b: &BigInt) -> (r: BigInt)
    ensures
        big_int_value(r) == big_int_value(*a) * big_int_value(*b),
{
    a * b
}

/// `&BigInt / &BigInt`: the quotient rounded toward zero. The division
/// panics on a zero divisor, which the precondition leaves out.
#[verifier::external_body]
fn big_div(a: &BigInt, b: &BigInt) -> (r: BigInt)
    requires
        big_int_value(*b) != 0,
    ensures
        big_int_value(r) == truncating_div(big_int_value(*a), big_int_value(*b)),
{
    a / b
}

/// `&BigInt % &BigInt`: the remainder of the division rounded toward zero.
/// It panics on a zero divisor, which the precondition leaves out.
#[verifier::external_body]
fn big_rem(a: &BigInt, b: &BigInt) -> (r: BigInt)
    requires
        big_int_value(*b) != 0,
    ensures
        big_int_value(r) == truncating_rem(big_int_value(*a), big_int_value(*b)),
{
    a % b
}

/// `-BigInt`: the result holds the additive inverse.
#[verifier::external_body]
fn big_neg(a: BigInt) -> (r: BigInt)
    ensures
        big_int_value(r) == -big_int_value(a),
{
    -a
}

/// `Signed::abs` of a `BigInt`: the result holds the absolute value.
#[verifier::external_body]
fn big_abs(a: &BigInt) -> (r: BigInt)
    ensures
        big_int_value(r) == magnitude(big_int_value(*a)),
{
    a.abs()
}

/// `BigInt::sign`: minus below zero, no sign at zero, plus above.
#[verifier::external_body]
fn big_sign(a: &BigInt) -> (r: Sign)
    ensures
        r == sign_of(big_int_value(*a)),
{
    match a.sign() {
        num_bigint::Sign::Minus => Sign::Minus,
        num_bigint::Sign::NoSign => Sign::NoSign,
        num_bigint::Sign::Plus => Sign::Plus,
    }
}

/// `Ord::cmp` of two `BigInt`s: the order of the integers they hold.
#[verifier::external_body]
fn big_compare(a: &BigInt, b: &BigInt) -> (r: Ordering)
    ensures
        r == ordering_of(big_int_value(*a), big_int_value(*b)),
{
    a.cmp(b)
}

/// `BigInt::to_signed_bytes_be`: the shortest big-endian two's-complement
/// string of at least one byte, so one zero byte for zero.
#[verifier::external_body]
fn big_to_signed_bytes_be(a: &BigInt) -> (r: Vec<u8>)
    ensures
        r@ == twos_complement_be(big_int_value(*a)),
{
    a.to_signed_bytes_be()
}

/// `BigInt::from_signed_bytes_be`: the integer that the bytes denote in
/// big-endian two's complement, zero for no bytes.
#[verifier::external_body]
fn big_from_signed_bytes_be(bytes: &[u8]) -> (r: BigInt)
    ensures
        big_int_value(r) == signed_be(bytes@),
{
    BigInt::from_signed_bytes_be(bytes)
}

/// A signed integer of any size, computed in this process.
#[derive(Debug, Ord)]
pub struct RustBigInt(pub BigInt);

/// An unsigned integer of any size, computed in this process.
pub struct RustBigUint(BigInt);

impl View for RustBigInt {
    type V = int;

    open spec fn view(&self) -> int {
        big_int_value(self.0)
    }
}

impl View for RustBigUint {
    type V = nat;

    closed spec fn view(&self) -> nat {
        magnitude(big_int_value(self.0))
    }
}

impl RustBigUint {
    #[verifier::type_invariant]
    spec fn not_negative(self) -> bool {
        big_int_value(self.0) >= 0
    }

    /// The value as a signed integer of the outside library.
    pub fn value(&self) -> (r: &BigInt)
        ensures
            big_int_value(*r) == self@,
    {
        proof {
            use_type_invariant(self);
        }
        &self.0
    }

    /// The shortest big-endian string of base-256 digits for the value;
    /// no bytes for zero.
    pub fn to_bytes_be(&self) -> (r: Vec<u8>)
        ensures
            r@ == unsigned_bytes_be(self@),
    {
        proof {
            use_type_invariant(self);
            lemma_unsigned_bytes_of_positive(big_int_value(self.0));
        }
        let mut bytes = big_to_signed_bytes_be(&self.0);
        if bytes[0] == 0 {
            let ghost before = bytes@;
            bytes.remove(0);
            proof {
                assert(bytes@ =~= before.skip(1));
            }
        }
        bytes
    }

    /// The unsigned integer that `bytes` denote as big-endian base-256
    /// digits; zero for no bytes.
    pub fn from_bytes_be(bytes: &[u8]) -> (r: RustBigUint)
        ensures
            r@ == unsigned_be(bytes@),
    {
        let mut padded: Vec<u8> = Vec::new();
        padded.push(0);
        padded.extend_from_slice(bytes);
        proof {
            assert(padded@ =~= seq![0u8] + bytes@);
            lemma_leading_zero(bytes@);
        }
        RustBigUint(big_from_signed_bytes_be(padded.as_slice()))
    }
}

impl Clone for RustBigUint {
    fn clone(&self) -> (r: Self)
        ensures
            r@ == self@,
    {
        proof {
            use_type_invariant(self);
        }
        RustBigUint(big_clone(&self.0))
    }
}

impl Encode for RustBigUint {
    open spec fn top_encoded(&self) -> Result<Seq<u8>, EncodeError> {
        Ok(unsigned_bytes_be(self@))
    }

    open spec fn dep_encoded(&self) -> Result<Seq<u8>, EncodeError> {
        nested_bytes(unsigned_bytes_be(self@))
    }

    fn top_encode(&self) -> (r: Result<Vec<u8>, EncodeError>) {
        Ok(self.to_bytes_be())
    }

    /// On an error `dest` is left as it was.
    fn dep_encode_to(&self, dest: &mut Vec<u8>) -> (r: Result<(), EncodeError>)
        ensures
            r is Err ==> final(dest)@ == old(dest)@,
    {
        let bytes = self.to_bytes_be();
        write_nested_bytes(bytes.as_slice(), dest)
    }
}

impl Decode for RustBigUint {
    open spec fn top_decoded(bytes: Seq<u8>) -> Result<nat, DecodeError> {
        Ok(unsigned_be(bytes))
    }

    open spec fn dep_decoded(bytes: Seq<u8>) -> Result<(nat, nat), DecodeError> {
        match take_nested_bytes(bytes) {
            Ok((s, k)) => Ok((unsigned_be(s), k)),
            Err(e) => Err(e),
        }
    }

    fn top_decode(input: &mut Input) -> (r: Result<Self, DecodeError>) {
        let bytes = input.flush();
        Ok(RustBigUint::from_bytes_be(bytes.as_slice()))
    }

    fn dep_decode(input: &mut Input) -> (r: Result<Self, DecodeError>) {
        match read_nested_bytes(input) {
            Ok(bytes) => Ok(RustBigUint::from_bytes_be(bytes.as_slice())),
            Err(e) => Err(e),
        }
    }
}

impl RustBigInt {
    /// The value as a signed integer of the outside library.
    pub fn value(&self) -> (r: &BigInt)
        ensures
            big_int_value(*r) == self@,
    {
        &self.0
    }

    /// The absolute value, as an unsigned integer.
    pub fn abs_uint(&self) -> (r: RustBigUint)
        ensures
            r@ == magnitude(self@),
    {
        RustBigUint(big_abs(&self.0))
    }

    /// The sign as callers see it: plus above zero, no sign at zero and
    /// below. A negative value is not told apart from zero here.
    pub fn sign(&self) -> (r: Sign)
        ensures
            r == (if self@ > 0 {
                Sign::Plus
            } else {
                Sign::NoSign
            }),
    {
        match big_sign(&self.0) {
            Sign::Minus => Sign::NoSign,
            Sign::NoSign => Sign::NoSign,
            Sign::Plus => Sign::Plus,
        }
    }

    /// The canonical big-endian two's-complement encoding: the shortest
    /// string that denotes the value, and no bytes for zero.
    pub fn to_signed_bytes_be(&self) -> (r: Vec<u8>)
        ensures
            r@ == signed_bytes_be(self@),
    {
        let bytes = big_to_signed_bytes_be(&self.0);
        match big_sign(&self.0) {
            Sign::NoSign => Vec::new(),
            _ => bytes,
        }
    }

    /// The integer that `bytes` denote in big-endian two's complement;
    /// zero for no bytes. The string need not be the shortest.
    pub fn from_signed_bytes_be(bytes: &[u8]) -> (r: RustBigInt)
        ensures
            r@ == signed_be(bytes@),
    {
        let bi = big_from_signed_bytes_be(bytes);
        RustBigInt(bi)
    }

    /// The quotient by `other` rounded toward zero, or nothing where
    /// `other` is zero.
    pub fn checked_div(&self, other: &RustBigInt) -> (r: Option<RustBigInt>)
        ensures
            match r {
                Some(q) => other@ != 0 && q@ == truncating_div(self@, other@),
                None => other@ == 0,
            },
    {
        match big_sign(&other.0) {
            Sign::NoSign => None,
            _ => Some(RustBigInt(big_div(&self.0, &other.0))),
        }
    }

    /// The remainder of the division by `other` rounded toward zero, or
    /// nothing where `other` is zero.
    pub fn checked_rem(&self, other: &RustBigInt) -> (r: Option<RustBigInt>)
        ensures
            match r {
                Some(m) => other@ != 0 && m@ == truncating_rem(self@, other@),
                None => other@ == 0,
            },
    {
        match big_sign(&other.0) {
            Sign::NoSign => None,
            _ => Some(RustBigInt(big_rem(&self.0, &other.0))),
        }
    }

    /// How the value stands to `other`.
    pub fn cmp(&self, other: &RustBigInt) -> (r: Ordering)
        ensures
            r == ordering_of(self@, other@),
    {
        big_compare(&self.0, &other.0)
    }
}

impl From<RustBigUint> for RustBigInt {
    fn from(item: RustBigUint) -> (r: Self)
        ensures
            r@ == item@,
    {
        proof {
            use_type_invariant(&item);
        }
        RustBigInt(item.0)
    }
}

impl FromSpecImpl<RustBigUint> for RustBigInt {
    open spec fn obeys_from_spec() -> bool {
        false
    }

    open spec fn from_spec(v: RustBigUint) -> Self {
        arbitrary()
    }
}

impl From<i64> for RustBigInt {
    fn from(item: i64) -> (r: Self)
        ensures
            r@ == item,
    {
        RustBigInt(big_from_i64(item))
    }
}

impl FromSpecImpl<i64> for RustBigInt {
    open spec fn obeys_from_spec() -> bool {
        false
    }

    open spec fn from_spec(v: i64) -> Self {
        arbitrary()
    }
}

impl From<i32> for RustBigInt {
    fn from(item: i32) -> (r: Self)
        ensures
            r@ == item,
    {
        RustBigInt(big_from_i64(item as i64))
    }
}

impl FromSpecImpl<i32> for RustBigInt {
    open spec fn obeys_from_spec() -> bool {
        false
    }

    open spec fn from_spec(v: i32) -> Self {
        arbitrary()
    }
}

impl From<BigInt> for RustBigInt {
    fn from(item: BigInt) -> (r: Self) {
        RustBigInt(item)
    }
}

impl FromSpecImpl<BigInt> for RustBigInt {
    open spec fn obeys_from_spec() -> bool {
        true
    }

    open spec fn from_spec(v: BigInt) -> Self {
        RustBigInt(v)
    }
}

impl Clone for RustBigInt {
    fn clone(&self) -> (r: Self)
        ensures
            r@ == self@,
    {
        RustBigInt(big_clone(&self.0))
    }
}

impl core::ops::Add for RustBigInt {
    type Output = RustBigInt;

    fn add(self, other: RustBigInt) -> (r: RustBigInt)
        ensures
            r@ == self@ + other@,
    {
        RustBigInt(big_add(&self.0, &other.0))
    }
}

impl AddSpecImpl for RustBigInt {
    open spec fn obeys_add_spec() -> bool {
        false
    }

    open spec fn add_req(self, rhs: RustBigInt) -> bool {
        true
    }

    open spec fn add_spec(self, rhs: RustBigInt) -> RustBigInt {
        arbitrary()
    }
}

impl<'a, 'b> core::ops::Add<&'b RustBigInt> for &'a RustBigInt {
    type Output = RustBigInt;

    fn add(self, other: &RustBigInt) -> (r: RustBigInt)
        ensures
            r@ == self@ + other@,
    {
        RustBigInt(big_add(&self.0, &other.0))
    }
}

impl<'a, 'b> AddSpecImpl<&'b RustBigInt> for &'a RustBigInt {
    open spec fn obeys_add_spec() -> bool {
        false
    }

    open spec fn add_req(self, rhs: &RustBigInt) -> bool {
        true
    }

    open spec fn add_spec(self, rhs: &RustBigInt) -> RustBigInt {
        arbitrary()
    }
}

impl core::ops::Sub for RustBigInt {
    type Output = RustBigInt;

    fn sub(self, other: RustBigInt) -> (r: RustBigInt)
        ensures
            r@ == self@ - other@,
    {
        RustBigInt(big_sub(&self.0, &other.0))
    }
}

impl SubSpecImpl for RustBigInt {
    open spec fn obeys_sub_spec() -> bool {
        false
    }

    open spec fn sub_req(self, rhs: RustBigInt) -> bool {
        true
    }

    open spec fn sub_spec(self, rhs: RustBigInt) -> RustBigInt {
        arbitrary()
    }
}

impl<'a, 'b> core::ops::Sub<&'b RustBigInt> for &'a RustBigInt {
    type Output = RustBigInt;

    fn sub(self, other: &RustBigInt) -> (r: RustBigInt)
        ensures
            r@ == self@ - other@,
    {
        RustBigInt(big_sub(&self.0, &other.0))
    }
}

impl<'a, 'b> SubSpecImpl<&'b RustBigInt> for &'a RustBigInt {
    open spec fn obeys_sub_spec() -> bool {
        false
    }

    open spec fn sub_req(self, rhs: &RustBigInt) -> bool {
        true
    }

    open spec fn sub_spec(self, rhs: &RustBigInt) -> RustBigInt {
        arbitrary()
    }
}

impl core::ops::Mul for RustBigInt {
    type Output = RustBigInt;

    fn mul(self, other: RustBigInt) -> (r: RustBigInt)
        ensures
            r@ == self@ * other@,
    {
        RustBigInt(big_mul(&self.0, &other.0))
    }
}

impl MulSpecImpl for RustBigInt {
    open spec fn obeys_mul_spec() -> bool {
        false
    }

    open spec fn mul_req(self, rhs: RustBigInt) -> bool {
        true
    }

    open spec fn mul_spec(self, rhs: RustBigInt) -> RustBigInt {
        arbitrary()
    }
}

impl<'a, 'b> core::ops::Mul<&'b RustBigInt> for &'a RustBigInt {
    type Output = RustBigInt;

    fn mul(self, other: &RustBigInt) -> (r: RustBigInt)
        ensures
            r@ == self@ * other@,
    {
        RustBigInt(big_mul(&self.0, &other.0))
    }
}

impl<'a, 'b> MulSpecImpl<&'b RustBigInt> for &'a RustBigInt {
    open spec fn obeys_mul_spec() -> bool {
        false
    }

    open spec fn mul_req(self, rhs: &RustBigInt) -> bool {
        true
    }

    open spec fn mul_spec(self, rhs: &RustBigInt) -> RustBigInt {
        arbitrary()
    }
}

impl core::ops::Div for RustBigInt {
    type Output = RustBigInt;

    fn div(self, other: RustBigInt) -> (r: RustBigInt)
        ensures
            r@ == truncating_div(self@, other@),
    {
        RustBigInt(big_div(&self.0, &other.0))
    }
}

impl DivSpecImpl for RustBigInt {
    open spec fn obeys_div_spec() -> bool {
        false
    }

    open spec fn div_req(self, rhs: RustBigInt) -> bool {
        rhs@ != 0
    }

    open spec fn div_spec(self, rhs: RustBigInt) -> RustBigInt {
        arbitrary()
    }
}

impl<'a, 'b> core::ops::Div<&'b RustBigInt> for &'a RustBigInt {
    type Output = RustBigInt;

    fn div(self, other: &RustBigInt) -> (r: RustBigInt)
        ensures
            r@ == truncating_div(self@, other@),
    {
        RustBigInt(big_div(&self.0, &other.0))
    }
}

impl<'a, 'b> DivSpecImpl<&'b RustBigInt> for &'a RustBigInt {
    open spec fn obeys_div_spec() -> bool {
        false
    }

    open spec fn div_req(self, rhs: &RustBigInt) -> bool {
        rhs@ != 0
    }

    open spec fn div_spec(self, rhs: &RustBigInt) -> RustBigInt {
        arbitrary()
    }
}

impl core::ops::Rem for RustBigInt {
    type Output = RustBigInt;

    fn rem(self, other: RustBigInt) -> (r: RustBigInt)
        ensures
            r@ == truncating_rem(self@, other@),
    {
        RustBigInt(big_rem(&self.0, &other.0))
    }
}

impl RemSpecImpl for RustBigInt {
    open spec fn obeys_rem_spec() -> bool {
        false
    }

    open spec fn rem_req(self, rhs: RustBigInt) -> bool {
        rhs@ != 0
    }

    open spec fn rem_spec(self, rhs: RustBigInt) -> RustBigInt {
        arbitrary()
    }
}

impl<'a, 'b> core::ops::Rem<&'b RustBigInt> for &'a RustBigInt {
    type Output = RustBigInt;

    fn rem(self, other: &RustBigInt) -> (r: RustBigInt)
        ensures
            r@ == truncating_rem(self@, other@),
    {
        RustBigInt(big_rem(&self.0, &other.0))
    }
}

impl<'a, 'b> RemSpecImpl<&'b RustBigInt> for &'a RustBigInt {
    open spec fn obeys_rem_spec() -> bool {
        false
    }

    open spec fn rem_req(self, rhs: &RustBigInt) -> bool {
        rhs@ != 0
    }

    open spec fn rem_spec(self, rhs: &RustBigInt) -> RustBigInt {
        arbitrary()
    }
}

impl core::ops::AddAssign<RustBigInt> for RustBigInt {
    fn add_assign(&mut self, other: RustBigInt)
        ensures
            final(self)@ == old(self)@ + other@,
    {
        let r = big_add(&self.0, &other.0);
        self.0 = r;
    }
}

impl<'a> core::ops::AddAssign<&'a RustBigInt> for RustBigInt {
    fn add_assign(&mut self, other: &RustBigInt)
        ensures
            final(self)@ == old(self)@ + other@,
    {
        let r = big_add(&self.0, &other.0);
        self.0 = r;
    }
}

impl core::ops::SubAssign<RustBigInt> for RustBigInt {
    fn sub_assign(&mut self, other: RustBigInt)
        ensures
            final(self)@ == old(self)@ - other@,
    {
        let r = big_sub(&self.0, &other.0);
        self.0 = r;
    }
}

impl<'a> core::ops::SubAssign<&'a RustBigInt> for RustBigInt {
    fn sub_assign(&mut self, other: &RustBigInt)
        ensures
            final(self)@ == old(self)@ - other@,
    {
        let r = big_sub(&self.0, &other.0);
        self.0 = r;
    }
}

impl core::ops::MulAssign<RustBigInt> for RustBigInt {
    fn mul_assign(&mut self, other: RustBigInt)
        ensures
            final(self)@ == old(self)@ * other@,
    {
        let r = big_mul(&self.0, &other.0);
        self.0 = r;
    }
}

impl<'a> core::ops::MulAssign<&'a RustBigInt> for RustBigInt {
    fn mul_assign(&mut self, other: &RustBigInt)
        ensures
            final(self)@ == old(self)@ * other@,
    {
        let r = big_mul(&self.0, &other.0);
        self.0 = r;
    }
}

impl core::ops::DivAssign<RustBigInt> for RustBigInt {
    fn div_assign(&mut self, other: RustBigInt)
        requires
            other@ != 0,
        ensures
            final(self)@ == truncating_div(old(self)@, other@),
    {
        let r = big_div(&self.0, &other.0);
        self.0 = r;
    }
}

impl<'a> core::ops::DivAssign<&'a RustBigInt> for RustBigInt {
    fn div_assign(&mut self, other: &RustBigInt)
        requires
            other@ != 0,
        ensures
            final(self)@ == truncating_div(old(self)@, other@),
    {
        let r = big_div(&self.0, &other.0);
        self.0 = r;
    }
}

impl core::ops::RemAssign<RustBigInt> for RustBigInt {
    fn rem_assign(&mut self, other: RustBigInt)
        requires
            other@ != 0,
        ensures
            final(self)@ == truncating_rem(old(self)@, other@),
    {
        let r = big_rem(&self.0, &other.0);
        self.0 = r;
    }
}

impl<'a> core::ops::RemAssign<&'a RustBigInt> for RustBigInt {
    fn rem_assign(&mut self, other: &RustBigInt)
        requires
            other@ != 0,
        ensures
            final(self)@ == truncating_rem(old(self)@, other@),
    {
        let r = big_rem(&self.0, &other.0);
        self.0 = r;
    }
}

impl core::ops::Neg for RustBigInt {
    type Output = RustBigInt;

    fn neg(self) -> (r: RustBigInt)
        ensures
            r@ == -self@,
    {
        RustBigInt(big_neg(self.0))
    }
}

impl NegSpecImpl for RustBigInt {
    open spec fn obeys_neg_spec() -> bool {
        false
    }

    open spec fn neg_req(self) -> bool {
        true
    }

    open spec fn neg_spec(self) -> RustBigInt {
        arbitrary()
    }
}

impl PartialEq for RustBigInt {
    fn eq(&self, other: &Self) -> (r: bool) {
        match big_compare(&self.0, &other.0) {
            Ordering::Equal => true,
            _ => false,
        }
    }
}

impl PartialEqSpecImpl for RustBigInt {
    open spec fn obeys_eq_spec() -> bool {
        true
    }

    open spec fn eq_spec(&self, other: &Self) -> bool {
        self@ == other@
    }
}

impl Eq for RustBigInt {

}

impl PartialOrd for RustBigInt {
    fn partial_cmp(&self, other: &Self) -> (r: Option<Ordering>) {
        Some(big_compare(&self.0, &other.0))
    }
}

impl PartialOrdSpecImpl for RustBigInt {
    open spec fn obeys_partial_cmp_spec() -> bool {
        true
    }

    open spec fn partial_cmp_spec(&self, other: &Self) -> Option<Ordering> {
        Some(ordering_of(self@, other@))
    }
}

impl PartialEq<i64> for RustBigInt {
    fn eq(&self, other: &i64) -> (r: bool) {
        let promoted = big_from_i64(*other);
        match big_compare(&self.0, &promoted) {
            Ordering::Equal => true,
            _ => false,
        }
    }
}

impl PartialEqSpecImpl<i64> for RustBigInt {
    open spec fn obeys_eq_spec() -> bool {
        true
    }

    open spec fn eq_spec(&self, other: &i64) -> bool {
        self@ == *other
    }
}

impl PartialOrd<i64> for RustBigInt {
    fn partial_cmp(&self, other: &i64) -> (r: Option<Ordering>) {
        let promoted = big_from_i64(*other);
        Some(big_compare(&self.0, &promoted))
    }
}

impl PartialOrdSpecImpl<i64> for RustBigInt {
    open spec fn obeys_partial_cmp_spec() -> bool {
        true
    }

    open spec fn partial_cmp_spec(&self, other: &i64) -> Option<Ordering> {
        Some(ordering_of(self@, int_of(*other)))
    }
}

impl Encode for RustBigInt {
    /// The top-level form is the canonical two's-complement encoding.
    open spec fn top_encoded(&self) -> Result<Seq<u8>, EncodeError> {
        Ok(signed_bytes_be(self@))
    }

    /// The nested form is the canonical encoding behind its size field.
    open spec fn dep_encoded(&self) -> Result<Seq<u8>, EncodeError> {
        nested_bytes(signed_bytes_be(self@))
    }

    fn top_encode(&self) -> (r: Result<Vec<u8>, EncodeError>) {
        let bytes = self.to_signed_bytes_be();
        Ok(bytes)
    }

    /// On an error `dest` is left as it was.
    fn dep_encode_to(&self, dest: &mut Vec<u8>) -> (r: Result<(), EncodeError>)
        ensures
            r is Err ==> final(dest)@ == old(dest)@,
    {
        let bytes = self.to_signed_bytes_be();
        write_nested_bytes(bytes.as_slice(), dest)
    }
}

impl Decode for RustBigInt {
    /// Any byte string denotes an integer in two's complement.
    open spec fn top_decoded(bytes: Seq<u8>) -> Result<int, DecodeError> {
        Ok(signed_be(bytes))
    }

    open spec fn dep_decoded(bytes: Seq<u8>) -> Result<(int, nat), DecodeError> {
        match take_nested_bytes(bytes) {
            Ok((s, k)) => Ok((signed_be(s), k)),
            Err(e) => Err(e),
        }
    }

    fn top_decode(input: &mut Input) -> (r: Result<Self, DecodeError>) {
        let bytes = input.flush();
        Ok(RustBigInt::from_signed_bytes_be(bytes.as_slice()))
    }

    fn dep_decode(input: &mut Input) -> (r: Result<Self, DecodeError>) {
        match read_nested_bytes(input) {
            Ok(bytes) => Ok(RustBigInt::from_signed_bytes_be(bytes.as_slice())),
            Err(e) => Err(e),
        }
    }
}

/// Reading back what was written gives the integer back: in the top-level
/// form from the whole of its encoding, in the nested form from the front
/// of a buffer that holds anything behind it, and then with the number of
/// bytes that the nested form has.
pub proof fn lemma_big_int_round_trip(x: int, rest: Seq<u8>)
    ensures
        <RustBigInt as Decode>::top_decoded(signed_bytes_be(x)) == Ok::<int, DecodeError>(x),
        nested_bytes(signed_bytes_be(x)) matches Ok(e) ==> <RustBigInt as Decode>::dep_decoded(
            e + rest,
        ) == Ok::<(int, nat), DecodeError>((x, e.len())),
{
    lemma_signed_bytes_round_trip(x);
    if signed_bytes_be(x).len() <= u32::MAX {
        lemma_nested_bytes_round_trip(signed_bytes_be(x), rest);
    }
}

} // verus!
