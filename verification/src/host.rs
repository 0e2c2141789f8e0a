//! The arithmetic surface of the execution host, and a host that lives in
//! this process.
//!
//! The host keeps integers of any size in its own storage and hands out
//! handles to them. It never takes a handle back.

use vstd::prelude::*;
use core::cmp::Ordering;
use core::ops::Neg;
use crate::big_int_api::{magnitude, truncating_div, truncating_rem};
use crate::big_int_mock::RustBigInt;
use crate::signed_bytes::{signed_be, signed_bytes_be};

verus! {

/// The operations that the host offers on the integers it keeps.
pub trait BigIntHost: Sized {
    /// The integers that the host keeps, by their handles. A host that is
    /// reached from outside the verifier has no model and leaves this open.
    open spec fn values(&self) -> Map<i32, int> {
        arbitrary()
    }

    /// How many more handles the host can hand out.
    open spec fn free_handles(&self) -> nat {
        arbitrary()
    }

    /// Keeps a new integer with the value of `value` and hands out its
    /// handle, which was not in use.
    fn big_int_new(&mut self, value: i64) -> (handle: i32)
        requires
            old(self).free_handles() > 0,
        ensures
            !old(self).values().dom().contains(handle),
            final(self).values() == old(self).values().insert(handle, value as int),
            final(self).free_handles() == old(self).free_handles() - 1,
    ;

    /// The length of the canonical two's-complement encoding of the
    /// integer behind `x`.
    fn big_int_signed_byte_length(&self, x: i32) -> (len: usize)
        requires
            self.values().dom().contains(x),
        ensures
            len == signed_bytes_be(self.values()[x]).len(),
    ;

    /// Writes the canonical two's-complement encoding of the integer
    /// behind `reference` over `dest`, which has its length.
    fn big_int_get_signed_bytes(&self, reference: i32, dest: &mut Vec<u8>)
        requires
            self.values().dom().contains(reference),
            old(dest)@.len() == signed_bytes_be(self.values()[reference]).len(),
        ensures
            final(dest)@ == signed_bytes_be(self.values()[reference]),
    ;

    /// Gives the integer behind `destination` the value that `bytes`
    /// denote in big-endian two's complement. The host takes the length of
    /// `bytes` as a signed 32-bit number.
    fn big_int_set_signed_bytes(&mut self, destination: i32, bytes: &[u8])
        requires
            old(self).values().dom().contains(destination),
            bytes@.len() <= i32::MAX,
        ensures
            final(self).values() == old(self).values().insert(destination, signed_be(bytes@)),
            final(self).free_handles() == old(self).free_handles(),
    ;

    /// Gives the integer behind `dest` the sum of those behind `x` and `y`.
    fn big_int_add(&mut self, dest: i32, x: i32, y: i32)
        requires
            old(self).values().dom().contains(dest),
            old(self).values().dom().contains(x),
            old(self).values().dom().contains(y),
        ensures
            final(self).values() == old(self).values().insert(
                dest,
                old(self).values()[x] + old(self).values()[y],
            ),
            final(self).free_handles() == old(self).free_handles(),
    ;

    /// Gives the integer behind `dest` the difference of those behind `x`
    /// and `y`.
    fn big_int_sub(&mut self, dest: i32, x: i32, y: i32)
        requires
            old(self).values().dom().contains(dest),
            old(self).values().dom().contains(x),
            old(self).values().dom().contains(y),
        ensures
            final(self).values() == old(self).values().insert(
                dest,
                old(self).values()[x] - old(self).values()[y],
            ),
            final(self).free_handles() == old(self).free_handles(),
    ;

    /// Gives the integer behind `dest` the product of those behind `x` and
    /// `y`.
    fn big_int_mul(&mut self, dest: i32, x: i32, y: i32)
        requires
            old(self).values().dom().contains(dest),
            old(self).values().dom().contains(x),
            old(self).values().dom().contains(y),
        ensures
            final(self).values() == old(self).values().insert(
                dest,
                old(self).values()[x] * old(self).values()[y],
            ),
            final(self).free_handles() == old(self).free_handles(),
    ;

    /// Gives the integer behind `dest` the quotient of those behind `x` and
    /// `y`, rounded toward zero. The divisor is not zero.
    fn big_int_t_div(&mut self, dest: i32, x: i32, y: i32)
        requires
            old(self).values().dom().contains(dest),
            old(self).values().dom().contains(x),
            old(self).values().dom().contains(y),
            old(self).values()[y] != 0,
        ensures
            final(self).values() == old(self).values().insert(
                dest,
                truncating_div(old(self).values()[x], old(self).values()[y]),
            ),
            final(self).free_handles() == old(self).free_handles(),
    ;

    /// Gives the integer behind `dest` the remainder that the division of
    /// those behind `x` and `y` leaves when it rounds toward zero. The
    /// divisor is not zero.
    fn big_int_t_mod(&mut self, dest: i32, x: i32, y: i32)
        requires
            old(self).values().dom().contains(dest),
            old(self).values().dom().contains(x),
            old(self).values().dom().contains(y),
            old(self).values()[y] != 0,
        ensures
            final(self).values() == old(self).values().insert(
                dest,
                truncating_rem(old(self).values()[x], old(self).values()[y]),
            ),
            final(self).free_handles() == old(self).free_handles(),
    ;

    /// Gives the integer behind `dest` the absolute value of that behind
    /// `x`.
    fn big_int_abs(&mut self, dest: i32, x: i32)
        requires
            old(self).values().dom().contains(dest),
            old(self).values().dom().contains(x),
        ensures
            final(self).values() == old(self).values().insert(
                dest,
                magnitude(old(self).values()[x]) as int,
            ),
            final(self).free_handles() == old(self).free_handles(),
    ;

    /// Gives the integer behind `dest` the additive inverse of that behind
    /// `x`.
    fn big_int_neg(&mut self, dest: i32, x: i32)
        requires
            old(self).values().dom().contains(dest),
            old(self).values().dom().contains(x),
        ensures
            final(self).values() == old(self).values().insert(dest, -old(self).values()[x]),
            final(self).free_handles() == old(self).free_handles(),
    ;

    /// A number with the sign of the integer behind `x`: below zero, zero
    /// or above zero as the integer is.
    fn big_int_sign(&self, x: i32) -> (s: i32)
        requires
            self.values().dom().contains(x),
        ensures
            (s < 0) == (self.values()[x] < 0),
            (s > 0) == (self.values()[x] > 0),
    ;

    /// A number that tells how the integer behind `x` stands to that
    /// behind `y`: below zero where it is smaller, zero where they are
    /// equal, above zero where it is greater.
    fn big_int_compare(&self, x: i32, y: i32) -> (c: i32)
        requires
            self.values().dom().contains(x),
            self.values().dom().contains(y),
        ensures
            (c < 0) == (self.values()[x] < self.values()[y]),
            (c > 0) == (self.values()[x] > self.values()[y]),
    ;
}

/// Minus one, zero or one as `a` is smaller than, equal to or greater than
/// `b`.
fn three_way(a: &RustBigInt, b: &RustBigInt) -> (c: i32)
    ensures
        (c < 0) == (a@ < b@),
        (c > 0) == (a@ > b@),
        -1 <= c <= 1,
{
    match a.cmp(b) {
        Ordering::Less => -1,
        Ordering::Equal => 0,
        Ordering::Greater => 1,
    }
}

/// A host in this process: it keeps its integers in a list, and a handle
/// is a place in the list.
pub struct LocalHost {
    slots: Vec<RustBigInt>,
}

impl LocalHost {
    #[verifier::type_invariant]
    spec fn well_formed(self) -> bool {
        self.slots@.len() <= i32::MAX
    }

    /// A host that keeps no integer yet.
    pub fn new() -> (r: LocalHost)
        ensures
            r.values() == Map::<i32, int>::empty(),
            r.free_handles() == i32::MAX,
    {
        let r = LocalHost { slots: Vec::new() };
        proof {
            assert(r.values() =~= Map::<i32, int>::empty());
        }
        r
    }

    /// Puts `value` in the place of `dest`.
    fn store(&mut self, dest: i32, value: RustBigInt)
        requires
            old(self).values().dom().contains(dest),
        ensures
            final(self).values() == old(self).values().insert(dest, value@),
            final(self).free_handles() == old(self).free_handles(),
    {
        proof {
            use_type_invariant(&*self);
        }
        let mut slots: Vec<RustBigInt> = Vec::new();
        core::mem::swap(&mut self.slots, &mut slots);
        slots.set(dest as usize, value);
        self.slots = slots;
        proof {
            assert(self.values() =~= old(self).values().insert(dest, value@));
        }
    }
}

impl BigIntHost for LocalHost {
    closed spec fn values(&self) -> Map<i32, int> {
        Map::new(|h: i32| 0 <= h < self.slots@.len(), |h: i32| self.slots@[h as int]@)
    }

    closed spec fn free_handles(&self) -> nat {
        (i32::MAX - self.slots@.len()) as nat
    }

    fn big_int_new(&mut self, value: i64) -> (handle: i32) {
        proof {
            use_type_invariant(&*self);
        }
        let handle = self.slots.len() as i32;
        let mut slots: Vec<RustBigInt> = Vec::new();
        core::mem::swap(&mut self.slots, &mut slots);
        slots.push(RustBigInt::from(value));
        self.slots = slots;
        proof {
            assert(self.values() =~= old(self).values().insert(handle, value as int));
        }
        handle
    }

    fn big_int_signed_byte_length(&self, x: i32) -> (len: usize) {
        let bytes = self.slots[x as usize].to_signed_bytes_be();
        bytes.len()
    }

    fn big_int_get_signed_bytes(&self, reference: i32, dest: &mut Vec<u8>) {
        let bytes = self.slots[reference as usize].to_signed_bytes_be();
        *dest = bytes;
    }

    fn big_int_set_signed_bytes(&mut self, destination: i32, bytes: &[u8]) {
        self.store(destination, RustBigInt::from_signed_bytes_be(bytes));
    }

    fn big_int_add(&mut self, dest: i32, x: i32, y: i32) {
        let r = &self.slots[x as usize] + &self.slots[y as usize];
        self.store(dest, r);
    }

    fn big_int_sub(&mut self, dest: i32, x: i32, y: i32) {
        let r = &self.slots[x as usize] - &self.slots[y as usize];
        self.store(dest, r);
    }

    fn big_int_mul(&mut self, dest: i32, x: i32, y: i32) {
        let r = &self.slots[x as usize] * &self.slots[y as usize];
        self.store(dest, r);
    }

    fn big_int_t_div(&mut self, dest: i32, x: i32, y: i32) {
        let r = &self.slots[x as usize] / &self.slots[y as usize];
        self.store(dest, r);
    }

    fn big_int_t_mod(&mut self, dest: i32, x: i32, y: i32) {
        let r = &self.slots[x as usize] % &self.slots[y as usize];
        self.store(dest, r);
    }

    fn big_int_abs(&mut self, dest: i32, x: i32) {
        let r = RustBigInt::from(self.slots[x as usize].abs_uint());
        self.store(dest, r);
    }

    fn big_int_neg(&mut self, dest: i32, x: i32) {
        let r = self.slots[x as usize].clone().neg();
        self.store(dest, r);
    }

    fn big_int_sign(&self, x: i32) -> (s: i32) {
        let zero = RustBigInt::from(0i64);
        three_way(&self.slots[x as usize], &zero)
    }

    fn big_int_compare(&self, x: i32, y: i32) -> (c: i32) {
        three_way(&self.slots[x as usize], &self.slots[y as usize])
    }
}

} // verus!
