//! What both representations of the arbitrary-precision integer share: the
//! sign value and the mathematical meaning of the operations.

use vstd::prelude::*;
use core::cmp::Ordering;
use crate::signed_bytes::{lemma_signed_bytes_round_trip, signed_be, signed_bytes_be};

verus! {

/// The sign of an arbitrary-precision integer.
#[derive(Clone, Copy, Debug, PartialEq, Eq, Structural)]
pub enum Sign {
    Minus,
    NoSign,
    Plus,
}

/// The sign of the integer `x`: minus below zero, none at zero, plus above.
pub open spec fn sign_of(x: int) -> Sign {
    if x < 0 {
        Sign::Minus
    } else if x == 0 {
        Sign::NoSign
    } else {
        Sign::Plus
    }
}

/// The integer that a machine word holds.
pub open spec fn int_of(v: i64) -> int {
    v as int
}

/// The absolute value of `x`.
pub open spec fn magnitude(x: int) -> nat {
    if x < 0 {
        (-x) as nat
    } else {
        x as nat
    }
}

/// The quotient of `a` by `b`, rounded toward zero.
pub open spec fn truncating_div(a: int, b: int) -> int {
    if (a < 0) == (b < 0) {
        magnitude(a) as int / magnitude(b) as int
    } else {
        -(magnitude(a) as int / magnitude(b) as int)
    }
}

/// The remainder that the truncating division leaves: it has the sign of
/// the dividend.
pub open spec fn truncating_rem(a: int, b: int) -> int {
    a - b * truncating_div(a, b)
}

/// The arithmetic operations that both representations offer.
#[derive(Clone, Copy, Debug, PartialEq, Eq, Structural)]
pub enum BinaryOp {
    Add,
    Sub,
    Mul,
    Div,
    Rem,
}

/// The result of `op` on `a` and `b`. Division and remainder by zero have
/// no meaning.
pub open spec fn apply_op(op: BinaryOp, a: int, b: int) -> int {
    match op {
        BinaryOp::Add => a + b,
        BinaryOp::Sub => a - b,
        BinaryOp::Mul => a * b,
        BinaryOp::Div => truncating_div(a, b),
        BinaryOp::Rem => truncating_rem(a, b),
    }
}

/// Whether `op` has a result on `a` and `b`: all but division and
/// remainder by zero.
pub open spec fn op_defined(op: BinaryOp, b: int) -> bool {
    match op {
        BinaryOp::Div | BinaryOp::Rem => b != 0,
        _ => true,
    }
}

/// The remainder of the truncating division is smaller than the divisor
/// in magnitude, and is zero or has the sign of the dividend.
pub proof fn lemma_truncating_rem_bounds(a: int, b: int)
    requires
        b != 0,
    ensures
        magnitude(truncating_rem(a, b)) < magnitude(b),
        a >= 0 ==> truncating_rem(a, b) >= 0,
        a <= 0 ==> truncating_rem(a, b) <= 0,
{
    let ma = magnitude(a) as int;
    let mb = magnitude(b) as int;
    let q = ma / mb;
    assert(ma == mb * q + ma % mb) by {
        vstd::arithmetic::div_mod::lemma_fundamental_div_mod(ma, mb);
    }
    assert(0 <= ma % mb < mb) by {
        vstd::arithmetic::div_mod::lemma_mod_bound(ma, mb);
    }
    assert(b * (-q) == -(b * q)) by (nonlinear_arith);
    assert((-mb) * q == -(mb * q)) by (nonlinear_arith);
}

/// How `a` stands to `b` in the order of the integers.
pub open spec fn ordering_of(a: int, b: int) -> Ordering {
    if a < b {
        Ordering::Less
    } else if a == b {
        Ordering::Equal
    } else {
        Ordering::Greater
    }
}

/// How two byte strings stand to each other as the integers they denote
/// in big-endian two's complement.
pub open spec fn cmp_as_integer(x: Seq<u8>, y: Seq<u8>) -> Ordering {
    ordering_of(signed_be(x), signed_be(y))
}

/// Two integers stand to each other as their canonical encodings do when
/// these are compared as integers.
pub proof fn lemma_ordering_by_bytes(a: int, b: int)
    ensures
        ordering_of(a, b) == cmp_as_integer(signed_bytes_be(a), signed_bytes_be(b)),
{
    lemma_signed_bytes_round_trip(a);
    lemma_signed_bytes_round_trip(b);
}

} // verus!
