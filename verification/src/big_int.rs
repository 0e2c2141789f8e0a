//! The arbitrary-precision integer whose value the execution host keeps.
//!
//! A value of this type is a handle. Every operation that makes a new
//! integer takes a new handle from the host; no handle is given back.

use vstd::prelude::*;
use vstd::std_specs::convert::FromSpecImpl;
use core::cmp::Ordering;
use crate::big_int_api::{
    apply_op, int_of, magnitude, op_defined, ordering_of, truncating_div, truncating_rem, BinaryOp,
    Sign,
};
use crate::codec::{nested_bytes, read_nested_bytes, take_nested_bytes, write_nested_bytes, Input};
use crate::error::{DecodeError, EncodeError};
use crate::host::BigIntHost;
use crate::signed_bytes::{signed_be, signed_bytes_be};

verus! {

/// A signed integer of any size that the host keeps.
pub struct AndesBigInt {
    pub handle: i32,
}

/// An unsigned integer of any size that the host keeps.
pub struct AndesBigUint {
    pub handle: i32,
}

/// Whether `after` keeps what `before` kept and, behind the handle `fresh`
/// that `before` did not use, the integer `value`.
pub open spec fn allocated<H: BigIntHost>(before: &H, after: &H, fresh: i32, value: int) -> bool {
    &&& !before.values().dom().contains(fresh)
    &&& after.values() == before.values().insert(fresh, value)
    &&& after.free_handles() == before.free_handles() - 1
}

/// Whether `after` keeps what `before` kept, but behind `handle` the
/// integer `value`.
pub open spec fn updated<H: BigIntHost>(before: &H, after: &H, handle: i32, value: int) -> bool {
    &&& after.values() == before.values().insert(handle, value)
    &&& after.free_handles() == before.free_handles()
}

/// Whether `after` keeps just what `before` kept.
pub open spec fn unchanged<H: BigIntHost>(before: &H, after: &H) -> bool {
    &&& after.values() == before.values()
    &&& after.free_handles() == before.free_handles()
}

/// Lets the host compute `op` on the integers behind `x` and `y` into the
/// one behind `dest`.
fn host_apply<H: BigIntHost>(host: &mut H, op: BinaryOp, dest: i32, x: i32, y: i32)
    requires
        old(host).values().dom().contains(dest),
        old(host).values().dom().contains(x),
        old(host).values().dom().contains(y),
        op_defined(op, old(host).values()[y]),
    ensures
        updated(
            old(host),
            final(host),
            dest,
            apply_op(op, old(host).values()[x], old(host).values()[y]),
        ),
{
    match op {
        BinaryOp::Add => host.big_int_add(dest, x, y),
        BinaryOp::Sub => host.big_int_sub(dest, x, y),
        BinaryOp::Mul => host.big_int_mul(dest, x, y),
        BinaryOp::Div => host.big_int_t_div(dest, x, y),
        BinaryOp::Rem => host.big_int_t_mod(dest, x, y),
    }
}

impl From<AndesBigUint> for AndesBigInt {
    fn from(item: AndesBigUint) -> (r: Self) {
        AndesBigInt { handle: item.handle }
    }
}

impl FromSpecImpl<AndesBigUint> for AndesBigInt {
    open spec fn obeys_from_spec() -> bool {
        true
    }

    /// The signed integer shares the handle, and so the value.
    open spec fn from_spec(v: AndesBigUint) -> Self {
        AndesBigInt { handle: v.handle }
    }
}

impl AndesBigUint {
    /// Whether the host keeps an integer behind the handle.
    pub open spec fn live<H: BigIntHost>(&self, host: &H) -> bool {
        host.values().dom().contains(self.handle)
    }

    /// The integer that the host keeps behind the handle.
    pub open spec fn value<H: BigIntHost>(&self, host: &H) -> int {
        host.values()[self.handle]
    }
}

impl AndesBigInt {
    /// Whether the host keeps an integer behind the handle.
    pub open spec fn live<H: BigIntHost>(&self, host: &H) -> bool {
        host.values().dom().contains(self.handle)
    }

    /// The integer that the host keeps behind the handle.
    pub open spec fn value<H: BigIntHost>(&self, host: &H) -> int {
        host.values()[self.handle]
    }

    /// A new integer with the value of `value`.
    pub fn from_i64<H: BigIntHost>(host: &mut H, value: i64) -> (r: AndesBigInt)
        requires
            old(host).free_handles() > 0,
        ensures
            allocated(old(host), final(host), r.handle, value as int),
    {
        AndesBigInt { handle: host.big_int_new(value) }
    }

    /// A new integer with the value of `value`.
    pub fn from_i32<H: BigIntHost>(host: &mut H, value: i32) -> (r: AndesBigInt)
        requires
            old(host).free_handles() > 0,
        ensures
            allocated(old(host), final(host), r.handle, value as int),
    {
        AndesBigInt { handle: host.big_int_new(value as i64) }
    }

    /// A new integer with the same value. The host has no copy operation:
    /// the copy is a new zero to which the value is added.
    pub fn clone<H: BigIntHost>(&self, host: &mut H) -> (r: AndesBigInt)
        requires
            self.live(old(host)),
            old(host).free_handles() > 0,
        ensures
            allocated(old(host), final(host), r.handle, self.value(old(host))),
    {
        let clone_handle = host.big_int_new(0);
        host.big_int_add(clone_handle, clone_handle, self.handle);
        proof {
            assert(host.values() =~= old(host).values().insert(
                clone_handle,
                self.value(old(host)),
            ));
        }
        AndesBigInt { handle: clone_handle }
    }

    /// A new integer that holds the result of `op` on this one and `other`.
    pub fn binary<H: BigIntHost>(&self, host: &mut H, op: BinaryOp, other: &AndesBigInt) -> (r:
        AndesBigInt)
        requires
            self.live(old(host)),
            other.live(old(host)),
            op_defined(op, other.value(old(host))),
            old(host).free_handles() > 0,
        ensures
            allocated(
                old(host),
                final(host),
                r.handle,
                apply_op(op, self.value(old(host)), other.value(old(host))),
            ),
    {
        let result = host.big_int_new(0);
        host_apply(host, op, result, self.handle, other.handle);
        proof {
            assert(host.values() =~= old(host).values().insert(
                result,
                apply_op(op, self.value(old(host)), other.value(old(host))),
            ));
        }
        AndesBigInt { handle: result }
    }

    /// Replaces the value of this integer by the result of `op` on it and
    /// `other`. The handle stays.
    pub fn binary_assign<H: BigIntHost>(&mut self, host: &mut H, op: BinaryOp, other: &AndesBigInt)
        requires
            old(self).live(old(host)),
            other.live(old(host)),
            op_defined(op, other.value(old(host))),
        ensures
            final(self).handle == old(self).handle,
            updated(
                old(host),
                final(host),
                old(self).handle,
                apply_op(op, old(self).value(old(host)), other.value(old(host))),
            ),
    {
        host_apply(host, op, self.handle, self.handle, other.handle);
    }

    /// The sum, as a new integer.
    pub fn add<H: BigIntHost>(&self, host: &mut H, other: &AndesBigInt) -> (r: AndesBigInt)
        requires
            self.live(old(host)),
            other.live(old(host)),
            old(host).free_handles() > 0,
        ensures
            allocated(
                old(host),
                final(host),
                r.handle,
                self.value(old(host)) + other.value(old(host)),
            ),
    {
        self.binary(host, BinaryOp::Add, other)
    }

    /// The difference, as a new integer.
    pub fn sub<H: BigIntHost>(&self, host: &mut H, other: &AndesBigInt) -> (r: AndesBigInt)
        requires
            self.live(old(host)),
            other.live(old(host)),
            old(host).free_handles() > 0,
        ensures
            allocated(
                old(host),
                final(host),
                r.handle,
                self.value(old(host)) - other.value(old(host)),
            ),
    {
        self.binary(host, BinaryOp::Sub, other)
    }

    /// The product, as a new integer.
    pub fn mul<H: BigIntHost>(&self, host: &mut H, other: &AndesBigInt) -> (r: AndesBigInt)
        requires
            self.live(old(host)),
            other.live(old(host)),
            old(host).free_handles() > 0,
        ensures
            allocated(
                old(host),
                final(host),
                r.handle,
                self.value(old(host)) * other.value(old(host)),
            ),
    {
        self.binary(host, BinaryOp::Mul, other)
    }

    /// The quotient rounded toward zero, as a new integer. The divisor is
    /// not zero.
    pub fn div<H: BigIntHost>(&self, host: &mut H, other: &AndesBigInt) -> (r: AndesBigInt)
        requires
            self.live(old(host)),
            other.live(old(host)),
            other.value(old(host)) != 0,
            old(host).free_handles() > 0,
        ensures
            allocated(
                old(host),
                final(host),
                r.handle,
                truncating_div(self.value(old(host)), other.value(old(host))),
            ),
    {
        self.binary(host, BinaryOp::Div, other)
    }

    /// The remainder of the division rounded toward zero, as a new
    /// integer. The divisor is not zero.
    pub fn rem<H: BigIntHost>(&self, host: &mut H, other: &AndesBigInt) -> (r: AndesBigInt)
        requires
            self.live(old(host)),
            other.live(old(host)),
            other.value(old(host)) != 0,
            old(host).free_handles() > 0,
        ensures
            allocated(
                old(host),
                final(host),
                r.handle,
                truncating_rem(self.value(old(host)), other.value(old(host))),
            ),
    {
        self.binary(host, BinaryOp::Rem, other)
    }

    /// The quotient by `other` rounded toward zero, as a new integer; or
    /// nothing, with the host left as it was, where `other` is zero.
    pub fn checked_div<H: BigIntHost>(&self, host: &mut H, other: &AndesBigInt) -> (r: Option<
        AndesBigInt,
    >)
        requires
            self.live(old(host)),
            other.live(old(host)),
            old(host).free_handles() > 0,
        ensures
            match r {
                Some(q) => other.value(old(host)) != 0 && allocated(
                    old(host),
                    final(host),
                    q.handle,
                    truncating_div(self.value(old(host)), other.value(old(host))),
                ),
                None => other.value(old(host)) == 0 && unchanged(old(host), final(host)),
            },
    {
        if host.big_int_sign(other.handle) == 0 {
            None
        } else {
            Some(self.binary(host, BinaryOp::Div, other))
        }
    }

    /// The remainder of the division by `other` rounded toward zero, as a
    /// new integer; or nothing, with the host left as it was, where
    /// `other` is zero.
    pub fn checked_rem<H: BigIntHost>(&self, host: &mut H, other: &AndesBigInt) -> (r: Option<
        AndesBigInt,
    >)
        requires
            self.live(old(host)),
            other.live(old(host)),
            old(host).free_handles() > 0,
        ensures
            match r {
                Some(m) => other.value(old(host)) != 0 && allocated(
                    old(host),
                    final(host),
                    m.handle,
                    truncating_rem(self.value(old(host)), other.value(old(host))),
                ),
                None => other.value(old(host)) == 0 && unchanged(old(host), final(host)),
            },
    {
        if host.big_int_sign(other.handle) == 0 {
            None
        } else {
            Some(self.binary(host, BinaryOp::Rem, other))
        }
    }

    /// Adds `other` to this integer.
    pub fn add_assign<H: BigIntHost>(&mut self, host: &mut H, other: &AndesBigInt)
        requires
            old(self).live(old(host)),
            other.live(old(host)),
        ensures
            final(self).handle == old(self).handle,
            updated(
                old(host),
                final(host),
                old(self).handle,
                old(self).value(old(host)) + other.value(old(host)),
            ),
    {
        self.binary_assign(host, BinaryOp::Add, other)
    }

    /// Subtracts `other` from this integer.
    pub fn sub_assign<H: BigIntHost>(&mut self, host: &mut H, other: &AndesBigInt)
        requires
            old(self).live(old(host)),
            other.live(old(host)),
        ensures
            final(self).handle == old(self).handle,
            updated(
                old(host),
                final(host),
                old(self).handle,
                old(self).value(old(host)) - other.value(old(host)),
            ),
    {
        self.binary_assign(host, BinaryOp::Sub, other)
    }

    /// Multiplies this integer by `other`.
    pub fn mul_assign<H: BigIntHost>(&mut self, host: &mut H, other: &AndesBigInt)
        requires
            old(self).live(old(host)),
            other.live(old(host)),
        ensures
            final(self).handle == old(self).handle,
            updated(
                old(host),
                final(host),
                old(self).handle,
                old(self).value(old(host)) * other.value(old(host)),
            ),
    {
        self.binary_assign(host, BinaryOp::Mul, other)
    }

    /// Divides this integer by `other`, which is not zero, rounding toward
    /// zero.
    pub fn div_assign<H: BigIntHost>(&mut self, host: &mut H, other: &AndesBigInt)
        requires
            old(self).live(old(host)),
            other.live(old(host)),
            other.value(old(host)) != 0,
        ensures
            final(self).handle == old(self).handle,
            updated(
                old(host),
                final(host),
                old(self).handle,
                truncating_div(old(self).value(old(host)), other.value(old(host))),
            ),
    {
        self.binary_assign(host, BinaryOp::Div, other)
    }

    /// Replaces this integer by the remainder that its division by
    /// `other`, which is not zero, leaves when it rounds toward zero.
    pub fn rem_assign<H: BigIntHost>(&mut self, host: &mut H, other: &AndesBigInt)
        requires
            old(self).live(old(host)),
            other.live(old(host)),
            other.value(old(host)) != 0,
        ensures
            final(self).handle == old(self).handle,
            updated(
                old(host),
                final(host),
                old(self).handle,
                truncating_rem(old(self).value(old(host)), other.value(old(host))),
            ),
    {
        self.binary_assign(host, BinaryOp::Rem, other)
    }

    /// Whether this integer and `other` have the same value.
    pub fn eq<H: BigIntHost>(&self, host: &H, other: &AndesBigInt) -> (r: bool)
        requires
            self.live(host),
            other.live(host),
        ensures
            r == (self.value(host) == other.value(host)),
    {
        let andes_cmp = host.big_int_compare(self.handle, other.handle);
        andes_cmp == 0
    }

    /// How this integer stands to `other`.
    pub fn cmp<H: BigIntHost>(&self, host: &H, other: &AndesBigInt) -> (r: Ordering)
        requires
            self.live(host),
            other.live(host),
        ensures
            r == ordering_of(self.value(host), other.value(host)),
    {
        let andes_cmp = host.big_int_compare(self.handle, other.handle);
        if andes_cmp < 0 {
            Ordering::Less
        } else if andes_cmp == 0 {
            Ordering::Equal
        } else {
            Ordering::Greater
        }
    }

    /// How this integer stands to `other`; the order is total.
    pub fn partial_cmp<H: BigIntHost>(&self, host: &H, other: &AndesBigInt) -> (r: Option<
        Ordering,
    >)
        requires
            self.live(host),
            other.live(host),
        ensures
            r == Some(ordering_of(self.value(host), other.value(host))),
    {
        Some(self.cmp(host, other))
    }

    /// Whether this integer has the value of the machine word `other`.
    pub fn eq_i64<H: BigIntHost>(&self, host: &mut H, other: i64) -> (r: bool)
        requires
            self.live(old(host)),
            other != 0 ==> old(host).free_handles() > 0,
        ensures
            r == (self.value(old(host)) == other),
            compared_with_word(old(host), final(host), other),
    {
        andes_cmp_i64(self, host, other) == 0
    }

    /// How this integer stands to the machine word `other`.
    pub fn partial_cmp_i64<H: BigIntHost>(&self, host: &mut H, other: i64) -> (r: Option<
        Ordering,
    >)
        requires
            self.live(old(host)),
            other != 0 ==> old(host).free_handles() > 0,
        ensures
            r == Some(ordering_of(self.value(old(host)), int_of(other))),
            compared_with_word(old(host), final(host), other),
    {
        let andes_cmp = andes_cmp_i64(self, host, other);
        if andes_cmp < 0 {
            Some(Ordering::Less)
        } else if andes_cmp == 0 {
            Some(Ordering::Equal)
        } else {
            Some(Ordering::Greater)
        }
    }

    /// The additive inverse, as a new integer.
    pub fn neg<H: BigIntHost>(self, host: &mut H) -> (r: AndesBigInt)
        requires
            self.live(old(host)),
            old(host).free_handles() > 0,
        ensures
            allocated(old(host), final(host), r.handle, -self.value(old(host))),
    {
        let result = host.big_int_new(0);
        host.big_int_neg(result, self.handle);
        proof {
            assert(host.values() =~= old(host).values().insert(result, -self.value(old(host))));
        }
        AndesBigInt { handle: result }
    }

    /// The absolute value, as a new unsigned integer.
    pub fn abs_uint<H: BigIntHost>(&self, host: &mut H) -> (r: AndesBigUint)
        requires
            self.live(old(host)),
            old(host).free_handles() > 0,
        ensures
            allocated(old(host), final(host), r.handle, magnitude(self.value(old(host))) as int),
    {
        let result = host.big_int_new(0);
        host.big_int_abs(result, self.handle);
        proof {
            assert(host.values() =~= old(host).values().insert(
                result,
                magnitude(self.value(old(host))) as int,
            ));
        }
        AndesBigUint { handle: result }
    }

    /// The sign as callers see it: plus above zero, no sign at zero and
    /// below. A negative value is not told apart from zero here.
    pub fn sign<H: BigIntHost>(&self, host: &H) -> (r: Sign)
        requires
            self.live(host),
        ensures
            r == (if self.value(host) > 0 {
                Sign::Plus
            } else {
                Sign::NoSign
            }),
    {
        let s = host.big_int_sign(self.handle);
        if s > 0 {
            Sign::Plus
        } else {
            Sign::NoSign
        }
    }

    /// The canonical big-endian two's-complement encoding: the shortest
    /// string that denotes the value, and no bytes for zero.
    pub fn to_signed_bytes_be<H: BigIntHost>(&self, host: &H) -> (r: Vec<u8>)
        requires
            self.live(host),
        ensures
            r@ == signed_bytes_be(self.value(host)),
    {
        let byte_len = host.big_int_signed_byte_length(self.handle);
        let mut vec = vec![0u8; byte_len];
        host.big_int_get_signed_bytes(self.handle, &mut vec);
        vec
    }

    /// A new integer with the value that `bytes` denote in big-endian
    /// two's complement; zero for no bytes. The host takes the length of
    /// `bytes` as a signed 32-bit number.
    pub fn from_signed_bytes_be<H: BigIntHost>(host: &mut H, bytes: &[u8]) -> (r: AndesBigInt)
        requires
            old(host).free_handles() > 0,
            bytes@.len() <= i32::MAX,
        ensures
            allocated(old(host), final(host), r.handle, signed_be(bytes@)),
    {
        let handle = host.big_int_new(0);
        host.big_int_set_signed_bytes(handle, bytes);
        proof {
            assert(host.values() =~= old(host).values().insert(handle, signed_be(bytes@)));
        }
        AndesBigInt { handle }
    }

    /// The top-level form: the canonical two's-complement encoding.
    pub fn top_encode<H: BigIntHost>(&self, host: &H) -> (r: Result<Vec<u8>, EncodeError>)
        requires
            self.live(host),
        ensures
            r matches Ok(bytes) && bytes@ == signed_bytes_be(self.value(host)),
    {
        let bytes = self.to_signed_bytes_be(host);
        Ok(bytes)
    }

    /// Appends the nested form to `dest`: the canonical encoding behind
    /// its size field. On an error `dest` is left as it was.
    pub fn dep_encode_to<H: BigIntHost>(&self, host: &H, dest: &mut Vec<u8>) -> (r: Result<
        (),
        EncodeError,
    >)
        requires
            self.live(host),
        ensures
            match r {
                Ok(()) => {
                    &&& nested_bytes(signed_bytes_be(self.value(host))) matches Ok(e)
                    &&& final(dest)@ == old(dest)@ + e
                },
                Err(e) => nested_bytes(signed_bytes_be(self.value(host))) == Err::<
                    Seq<u8>,
                    EncodeError,
                >(e) && final(dest)@ == old(dest)@,
            },
    {
        let bytes = self.to_signed_bytes_be(host);
        write_nested_bytes(bytes.as_slice(), dest)
    }

    /// Reads all that is left of `input` as one integer. What is left is
    /// no longer than the host takes.
    pub fn top_decode<H: BigIntHost>(host: &mut H, input: &mut Input) -> (r: Result<
        AndesBigInt,
        DecodeError,
    >)
        requires
            old(host).free_handles() > 0,
            old(input).remaining().len() <= i32::MAX,
        ensures
            final(input).remaining().len() == 0,
            r matches Ok(v) && allocated(
                old(host),
                final(host),
                v.handle,
                signed_be(old(input).remaining()),
            ),
    {
        let bytes = input.flush();
        Ok(AndesBigInt::from_signed_bytes_be(host, bytes.as_slice()))
    }

    /// Reads one nested integer from the front of `input`. On an error the
    /// host is left as it was. What is left of `input` is no longer than
    /// the host takes.
    pub fn dep_decode<H: BigIntHost>(host: &mut H, input: &mut Input) -> (r: Result<
        AndesBigInt,
        DecodeError,
    >)
        requires
            old(host).free_handles() > 0,
            old(input).remaining().len() <= i32::MAX,
        ensures
            match r {
                Ok(v) => {
                    &&& take_nested_bytes(old(input).remaining()) matches Ok((s, k))
                    &&& allocated(old(host), final(host), v.handle, signed_be(s))
                    &&& k <= old(input).remaining().len()
                    &&& final(input).remaining() == old(input).remaining().skip(k as int)
                },
                Err(e) => {
                    &&& take_nested_bytes(old(input).remaining()) == Err::<
                        (Seq<u8>, nat),
                        DecodeError,
                    >(e)
                    &&& unchanged(old(host), final(host))
                },
            },
    {
        match read_nested_bytes(input) {
            Ok(bytes) => Ok(AndesBigInt::from_signed_bytes_be(host, bytes.as_slice())),
            Err(e) => Err(e),
        }
    }
}

/// What comparing with the machine word `other` does to the host: nothing
/// for zero, which is compared by the sign; otherwise the word is kept as
/// a new integer.
pub open spec fn compared_with_word<H: BigIntHost>(before: &H, after: &H, other: i64) -> bool {
    if other == 0 {
        unchanged(before, after)
    } else {
        exists|fresh: i32| #[trigger] allocated(before, after, fresh, int_of(other))
    }
}

/// A number that tells how the integer `bi` stands to the machine word
/// `other`: below zero where it is smaller, zero where they are equal,
/// above zero where it is greater. The result is the one that comparing
/// with the word made into an integer gives.
pub fn andes_cmp_i64<H: BigIntHost>(bi: &AndesBigInt, host: &mut H, other: i64) -> (r: i32)
    requires
        bi.live(old(host)),
        other != 0 ==> old(host).free_handles() > 0,
    ensures
        (r < 0) == (bi.value(old(host)) < other),
        (r > 0) == (bi.value(old(host)) > other),
        compared_with_word(old(host), final(host), other),
{
    if other == 0 {
        host.big_int_sign(bi.handle)
    } else {
        let promoted = host.big_int_new(other);
        proof {
            assert(allocated(old(host), host, promoted, int_of(other)));
        }
        host.big_int_compare(bi.handle, promoted)
    }
}

} // verus!
