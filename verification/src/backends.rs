//! The two representations of the arbitrary-precision integer side by
//! side: the one computed in this process and the one that the host keeps.

use vstd::prelude::*;
use crate::big_int::AndesBigInt;
use crate::big_int_api::{apply_op, op_defined, BinaryOp};
use crate::big_int_mock::RustBigInt;
use crate::host::BigIntHost;
use crate::signed_bytes::signed_bytes_be;

verus! {

/// The result of `op` on `a` and `b`, computed in this process.
pub fn computed_op(op: BinaryOp, a: &RustBigInt, b: &RustBigInt) -> (r: RustBigInt)
    requires
        op_defined(op, b@),
    ensures
        r@ == apply_op(op, a@, b@),
{
    match op {
        BinaryOp::Add => a + b,
        BinaryOp::Sub => a - b,
        BinaryOp::Mul => a * b,
        BinaryOp::Div => a / b,
        BinaryOp::Rem => a % b,
    }
}

/// Computes `op` on the machine words `a` and `b` in both representations
/// and gives the canonical encodings of the two results: first that of
/// the one computed in this process, then that of the one on the host.
/// The two are the same bytes. The host keeps what it kept, and three
/// integers more: the two words and the result.
pub fn encode_on_both<H: BigIntHost>(host: &mut H, op: BinaryOp, a: i64, b: i64) -> (r: (
    Vec<u8>,
    Vec<u8>,
))
    requires
        old(host).free_handles() >= 3,
        op_defined(op, b as int),
    ensures
        r.0@ == signed_bytes_be(apply_op(op, a as int, b as int)),
        r.1@ == r.0@,
        final(host).free_handles() == old(host).free_handles() - 3,
        exists|x: i32, y: i32, z: i32|
            {
                &&& !old(host).values().dom().contains(x)
                &&& !old(host).values().dom().contains(y)
                &&& !old(host).values().dom().contains(z)
                &&& x != y && x != z && y != z
                &&& #[trigger] final(host).values() == old(host).values().insert(
                    x,
                    a as int,
                ).insert(y, b as int).insert(z, apply_op(op, a as int, b as int))
            },
{
    let computed = computed_op(op, &RustBigInt::from(a), &RustBigInt::from(b));
    let x = AndesBigInt::from_i64(host, a);
    let y = AndesBigInt::from_i64(host, b);
    let delegated = x.binary(host, op, &y);
    proof {
        assert(host.values() == old(host).values().insert(x.handle, a as int).insert(
            y.handle,
            b as int,
        ).insert(delegated.handle, apply_op(op, a as int, b as int)));
    }
    (computed.to_signed_bytes_be(), delegated.to_signed_bytes_be(host))
}

} // verus!
