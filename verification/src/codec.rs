//! The binary codec: a top-level form without a length, which takes a whole
//! buffer, and a nested form with a four-byte big-endian size field in
//! front, which can stand among other values.

use vstd::prelude::*;
use vstd::slice::slice_to_vec;
use crate::error::{DecodeError, EncodeError};
use crate::signed_bytes::{
    lemma_first_byte_bounds, lemma_pow256_monotonic, lemma_pow256_values, lemma_unsigned_be_bound,
    pow256, signed_be, unsigned_be,
};

verus! {

/// The size field of the nested form: `n` as four big-endian bytes.
pub open spec fn size_field(n: nat) -> Seq<u8> {
    seq![
        ((n / 0x100_0000) % 256) as u8,
        ((n / 0x1_0000) % 256) as u8,
        ((n / 0x100) % 256) as u8,
        (n % 256) as u8,
    ]
}

/// The nested form of a byte string: its size field, then the bytes.
pub open spec fn nested_bytes(s: Seq<u8>) -> Result<Seq<u8>, EncodeError> {
    if s.len() <= u32::MAX {
        Ok(size_field(s.len()) + s)
    } else {
        Err(EncodeError::LengthOverflow)
    }
}

/// What reading a nested byte string from the front of `bytes` gives: the
/// string and the number of bytes taken, or the error.
pub open spec fn take_nested_bytes(bytes: Seq<u8>) -> Result<(Seq<u8>, nat), DecodeError> {
    if bytes.len() < 4 {
        Err(DecodeError::InputTooShort)
    } else {
        let n = unsigned_be(bytes.take(4));
        if bytes.len() - 4 < n {
            Err(DecodeError::InputTooShort)
        } else {
            Ok((bytes.subrange(4, 4 + n as int), 4 + n))
        }
    }
}

/// A size field denotes the number it was made from.
pub proof fn lemma_size_field_value(n: nat)
    requires
        n <= u32::MAX,
    ensures
        size_field(n).len() == 4,
        unsigned_be(size_field(n)) == n,
{
    let s = size_field(n);
    let s3 = s.drop_last();
    let s2 = s3.drop_last();
    let s1 = s2.drop_last();
    assert(s1.drop_last() =~= Seq::<u8>::empty());
    assert(unsigned_be(s1.drop_last()) == 0);
    assert(unsigned_be(s1) == s[0]);
    assert(unsigned_be(s2) == s[0] * 256 + s[1]);
    assert(unsigned_be(s3) == (s[0] * 256 + s[1]) * 256 + s[2]);
    assert(unsigned_be(s) == ((s[0] * 256 + s[1]) * 256 + s[2]) * 256 + s[3]);
}

/// Reading back what the nested form of a byte string holds, with anything
/// behind it, gives the string and its length in the nested form.
pub proof fn lemma_nested_bytes_round_trip(s: Seq<u8>, rest: Seq<u8>)
    requires
        s.len() <= u32::MAX,
    ensures
        nested_bytes(s) matches Ok(e) && take_nested_bytes(e + rest) == Ok::<
            (Seq<u8>, nat),
            DecodeError,
        >((s, e.len())),
{
    lemma_size_field_value(s.len());
    let e = size_field(s.len()) + s;
    let all = e + rest;
    assert(all.take(4) =~= size_field(s.len()));
    assert(all.subrange(4, 4 + s.len() as int) =~= s);
}

/// The number that at most eight big-endian bytes denote.
pub fn decode_unsigned(bytes: &[u8]) -> (r: u64)
    requires
        bytes@.len() <= 8,
    ensures
        r == unsigned_be(bytes@),
{
    let mut acc: u64 = 0;
    let mut i: usize = 0;
    proof {
        assert(bytes@.take(0) =~= Seq::<u8>::empty());
    }
    while i < bytes.len()
        invariant
            i <= bytes@.len() <= 8,
            acc == unsigned_be(bytes@.take(i as int)),
        decreases bytes@.len() - i,
    {
        proof {
            let next = bytes@.take(i + 1);
            assert(next.drop_last() =~= bytes@.take(i as int));
            lemma_unsigned_be_bound(next);
            lemma_pow256_monotonic((i + 1) as nat, 8);
            lemma_pow256_values();
        }
        acc = acc * 256 + bytes[i] as u64;
        i = i + 1;
    }
    proof {
        assert(bytes@.take(i as int) =~= bytes@);
    }
    acc
}

/// The integer that at most eight big-endian two's-complement bytes denote.
pub fn decode_signed(bytes: &[u8]) -> (r: i64)
    requires
        bytes@.len() <= 8,
    ensures
        r == signed_be(bytes@),
{
    let n = bytes.len();
    if n == 0 {
        return 0;
    }
    let magnitude = decode_unsigned(bytes);
    let ghost top = pow256((n - 1) as nat);
    proof {
        lemma_unsigned_be_bound(bytes@);
        lemma_first_byte_bounds(bytes@);
        lemma_pow256_monotonic((n - 1) as nat, 7);
        lemma_pow256_values();
        assert(pow256(n as nat) == 256 * top);
        let b = bytes@[0];
        assert(b >= 0x80 ==> b * top >= 128 * top) by (nonlinear_arith)
            requires
                top >= 0,
        ;
        assert(b < 0x80 ==> (b + 1) * top <= 128 * top) by (nonlinear_arith)
            requires
                top >= 0,
        ;
    }
    if bytes[0] >= 0x80 {
        let mut modulus: u128 = 1;
        let mut i: usize = 0;
        while i < n
            invariant
                i <= n <= 8,
                modulus == pow256(i as nat),
            decreases n - i,
        {
            proof {
                lemma_pow256_monotonic((i + 1) as nat, 8);
                lemma_pow256_values();
            }
            modulus = modulus * 256;
            i = i + 1;
        }
        (magnitude as i128 - modulus as i128) as i64
    } else {
        magnitude as i64
    }
}

/// Appends the size field of `len` to `dest`.
pub fn write_size_field(len: usize, dest: &mut Vec<u8>) -> (r: Result<(), EncodeError>)
    ensures
        match r {
            Ok(()) => len <= u32::MAX && final(dest)@ == old(dest)@ + size_field(len as nat),
            Err(e) => {
                &&& len > u32::MAX
                &&& e == EncodeError::LengthOverflow
                &&& final(dest)@ == old(dest)@
            },
        },
{
    if len > 0xffff_ffff {
        return Err(EncodeError::LengthOverflow);
    }
    dest.push(((len / 0x100_0000) % 256) as u8);
    dest.push(((len / 0x1_0000) % 256) as u8);
    dest.push(((len / 0x100) % 256) as u8);
    dest.push((len % 256) as u8);
    proof {
        assert(dest@ =~= old(dest)@ + size_field(len as nat));
    }
    Ok(())
}

/// Appends the nested form of `bytes` to `dest`.
pub fn write_nested_bytes(bytes: &[u8], dest: &mut Vec<u8>) -> (r: Result<(), EncodeError>)
    ensures
        match r {
            Ok(()) => nested_bytes(bytes@) matches Ok(e) && final(dest)@ == old(dest)@ + e,
            Err(e) => {
                &&& nested_bytes(bytes@) == Err::<Seq<u8>, EncodeError>(e)
                &&& final(dest)@ == old(dest)@
            },
        },
{
    match write_size_field(bytes.len(), dest) {
        Ok(()) => {
            dest.extend_from_slice(bytes);
            proof {
                assert(dest@ =~= old(dest)@ + (size_field(bytes@.len()) + bytes@));
            }
            Ok(())
        },
        Err(e) => Err(e),
    }
}

/// A buffer of bytes that is read from the front.
pub struct Input {
    bytes: Vec<u8>,
    pos: usize,
}

impl Input {
    #[verifier::type_invariant]
    spec fn well_formed(self) -> bool {
        self.pos <= self.bytes@.len()
    }

    /// The bytes that have not been read yet.
    pub closed spec fn remaining(&self) -> Seq<u8> {
        self.bytes@.skip(self.pos as int)
    }

    /// An input that holds `bytes`, none of them read.
    pub fn new(bytes: Vec<u8>) -> (r: Input)
        ensures
            r.remaining() == bytes@,
    {
        proof {
            assert(bytes@.skip(0) =~= bytes@);
        }
        Input { bytes, pos: 0 }
    }

    /// How many bytes have not been read yet.
    pub fn remaining_len(&self) -> (n: usize)
        ensures
            n == self.remaining().len(),
    {
        proof {
            use_type_invariant(self);
        }
        self.bytes.len() - self.pos
    }

    /// Reads the next `len` bytes. With fewer left, nothing is read.
    pub fn read_slice(&mut self, len: usize) -> (r: Result<Vec<u8>, DecodeError>)
        ensures
            match r {
                Ok(b) => {
                    &&& len <= old(self).remaining().len()
                    &&& b@ == old(self).remaining().take(len as int)
                    &&& final(self).remaining() == old(self).remaining().skip(len as int)
                },
                Err(e) => {
                    &&& e == DecodeError::InputTooShort
                    &&& len > old(self).remaining().len()
                    &&& final(self).remaining() == old(self).remaining()
                },
            },
    {
        proof {
            use_type_invariant(&*self);
        }
        if len > self.bytes.len() - self.pos {
            return Err(DecodeError::InputTooShort);
        }
        let start = self.pos;
        let out = slice_to_vec(&self.bytes.as_slice()[start..start + len]);
        self.pos = start + len;
        proof {
            assert(out@ =~= old(self).remaining().take(len as int));
            assert(self.remaining() =~= old(self).remaining().skip(len as int));
        }
        Ok(out)
    }

    /// Reads all the bytes that are left.
    pub fn flush(&mut self) -> (r: Vec<u8>)
        ensures
            r@ == old(self).remaining(),
            final(self).remaining().len() == 0,
    {
        proof {
            use_type_invariant(&*self);
        }
        let start = self.pos;
        let end = self.bytes.len();
        let out = slice_to_vec(&self.bytes.as_slice()[start..end]);
        self.pos = end;
        proof {
            assert(out@ =~= old(self).remaining());
        }
        out
    }
}

/// Reads a nested byte string from `input`.
pub fn read_nested_bytes(input: &mut Input) -> (r: Result<Vec<u8>, DecodeError>)
    ensures
        match r {
            Ok(b) => {
                &&& take_nested_bytes(old(input).remaining()) matches Ok((s, k))
                &&& s == b@
                &&& k <= old(input).remaining().len()
                &&& final(input).remaining() == old(input).remaining().skip(k as int)
            },
            Err(e) => take_nested_bytes(old(input).remaining()) == Err::<
                (Seq<u8>, nat),
                DecodeError,
            >(e),
        },
{
    let ghost all = input.remaining();
    let size_bytes = match input.read_slice(4) {
        Ok(b) => b,
        Err(e) => {
            return Err(e);
        },
    };
    let size = decode_unsigned(size_bytes.as_slice());
    proof {
        lemma_unsigned_be_bound(size_bytes@);
        lemma_pow256_values();
    }
    if size > input.remaining_len() as u64 {
        return Err(DecodeError::InputTooShort);
    }
    match input.read_slice(size as usize) {
        Ok(b) => {
            proof {
                assert(b@ =~= all.subrange(4, 4 + size as int));
                assert(input.remaining() =~= all.skip(4 + size as int));
            }
            Ok(b)
        },
        Err(e) => Err(e),
    }
}

/// A type with a top-level and a nested byte form.
pub trait Encode: Sized {
    /// The top-level form of the value, or why it has none.
    spec fn top_encoded(&self) -> Result<Seq<u8>, EncodeError>;

    /// The nested form of the value, or why it has none.
    spec fn dep_encoded(&self) -> Result<Seq<u8>, EncodeError>;

    /// The top-level form, for a value that is a whole payload.
    fn top_encode(&self) -> (r: Result<Vec<u8>, EncodeError>)
        ensures
            match r {
                Ok(b) => self.top_encoded() == Ok::<Seq<u8>, EncodeError>(b@),
                Err(e) => self.top_encoded() == Err::<Seq<u8>, EncodeError>(e),
            },
    ;

    /// Appends the nested form to `dest`. On an error `dest` keeps what it
    /// held, with whatever was written before the error behind it.
    fn dep_encode_to(&self, dest: &mut Vec<u8>) -> (r: Result<(), EncodeError>)
        ensures
            old(dest)@.is_prefix_of(final(dest)@),
            match r {
                Ok(()) => self.dep_encoded() matches Ok(e) && final(dest)@ == old(dest)@ + e,
                Err(e) => self.dep_encoded() == Err::<Seq<u8>, EncodeError>(e),
            },
    ;
}

/// A type that can be read from its top-level and from its nested byte
/// form. Its view is the mathematical value that the bytes denote.
pub trait Decode: Sized + View {
    /// What the whole of `bytes` denotes in the top-level form.
    spec fn top_decoded(bytes: Seq<u8>) -> Result<Self::V, DecodeError>;

    /// What the front of `bytes` denotes in the nested form, and how many
    /// bytes that takes.
    spec fn dep_decoded(bytes: Seq<u8>) -> Result<(Self::V, nat), DecodeError>;

    /// Reads all that is left of `input` as one value.
    fn top_decode(input: &mut Input) -> (r: Result<Self, DecodeError>)
        ensures
            final(input).remaining().len() == 0,
            match r {
                Ok(v) => Self::top_decoded(old(input).remaining()) == Ok::<
                    Self::V,
                    DecodeError,
                >(v@),
                Err(e) => Self::top_decoded(old(input).remaining()) == Err::<
                    Self::V,
                    DecodeError,
                >(e),
            },
    ;

    /// Reads one nested value from the front of `input`.
    fn dep_decode(input: &mut Input) -> (r: Result<Self, DecodeError>)
        ensures
            match r {
                Ok(v) => {
                    &&& Self::dep_decoded(old(input).remaining()) matches Ok((m, k))
                    &&& m == v@
                    &&& k <= old(input).remaining().len()
                    &&& final(input).remaining() == old(input).remaining().skip(k as int)
                },
                Err(e) => Self::dep_decoded(old(input).remaining()) == Err::<
                    (Self::V, nat),
                    DecodeError,
                >(e),
            },
    ;
}

impl Encode for Vec<u8> {
    /// A byte string is its own top-level form.
    open spec fn top_encoded(&self) -> Result<Seq<u8>, EncodeError> {
        Ok(self@)
    }

    open spec fn dep_encoded(&self) -> Result<Seq<u8>, EncodeError> {
        nested_bytes(self@)
    }

    fn top_encode(&self) -> (r: Result<Vec<u8>, EncodeError>) {
        Ok(slice_to_vec(self.as_slice()))
    }

    /// On an error `dest` is left as it was.
    fn dep_encode_to(&self, dest: &mut Vec<u8>) -> (r: Result<(), EncodeError>)
        ensures
            r is Err ==> final(dest)@ == old(dest)@,
    {
        write_nested_bytes(self.as_slice(), dest)
    }
}

impl Decode for Vec<u8> {
    open spec fn top_decoded(bytes: Seq<u8>) -> Result<Seq<u8>, DecodeError> {
        Ok(bytes)
    }

    open spec fn dep_decoded(bytes: Seq<u8>) -> Result<(Seq<u8>, nat), DecodeError> {
        take_nested_bytes(bytes)
    }

    fn top_decode(input: &mut Input) -> (r: Result<Self, DecodeError>) {
        Ok(input.flush())
    }

    fn dep_decode(input: &mut Input) -> (r: Result<Self, DecodeError>) {
        read_nested_bytes(input)
    }
}

impl Decode for i32 {
    /// At most eight bytes of two's complement, whose value fits 32 bits.
    open spec fn top_decoded(bytes: Seq<u8>) -> Result<i32, DecodeError> {
        if bytes.len() > 8 {
            Err(DecodeError::InputTooLong)
        } else if i32::MIN <= signed_be(bytes) <= i32::MAX {
            Ok(signed_be(bytes) as i32)
        } else {
            Err(DecodeError::InputOutOfRange)
        }
    }

    /// Four bytes of two's complement.
    open spec fn dep_decoded(bytes: Seq<u8>) -> Result<(i32, nat), DecodeError> {
        if bytes.len() < 4 {
            Err(DecodeError::InputTooShort)
        } else {
            Ok((signed_be(bytes.take(4)) as i32, 4nat))
        }
    }

    fn top_decode(input: &mut Input) -> (r: Result<Self, DecodeError>) {
        let bytes = input.flush();
        if bytes.len() > 8 {
            return Err(DecodeError::InputTooLong);
        }
        let value = decode_signed(bytes.as_slice());
        if value < -0x8000_0000 || value > 0x7fff_ffff {
            Err(DecodeError::InputOutOfRange)
        } else {
            Ok(value as i32)
        }
    }

    fn dep_decode(input: &mut Input) -> (r: Result<Self, DecodeError>) {
        match input.read_slice(4) {
            Ok(bytes) => {
                let value = decode_signed(bytes.as_slice());
                proof {
                    lemma_unsigned_be_bound(bytes@);
                    lemma_first_byte_bounds(bytes@);
                    lemma_pow256_values();
                }
                Ok(value as i32)
            },
            Err(e) => Err(e),
        }
    }
}

} // verus!
