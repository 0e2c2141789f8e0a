//! Big-endian two's-complement byte strings and the integers they denote.

use vstd::prelude::*;

verus! {

/// 256 to the power `n`.
pub open spec fn pow256(n: nat) -> nat
    decreases n,
{
    if n == 0 {
        1
    } else {
        256 * pow256((n - 1) as nat)
    }
}

/// The natural number that `s` denotes as big-endian base-256 digits.
pub open spec fn unsigned_be(s: Seq<u8>) -> nat
    decreases s.len(),
{
    if s.len() == 0 {
        0
    } else {
        unsigned_be(s.drop_last()) * 256 + s.last() as nat
    }
}

/// The integer that `s` denotes in big-endian two's complement.
/// The empty string denotes zero; the top bit of the first byte is the sign.
pub open spec fn signed_be(s: Seq<u8>) -> int {
    if s.len() == 0 {
        0
    } else if s[0] >= 0x80 {
        unsigned_be(s) - pow256(s.len())
    } else {
        unsigned_be(s) as int
    }
}

/// The shortest big-endian two's-complement string of at least one byte
/// that denotes `x`.
pub open spec fn twos_complement_be(x: int) -> Seq<u8>
    decreases (if x >= 0 { x } else { -x }),
{
    if -128 <= x < 128 {
        seq![(x % 256) as u8]
    } else {
        twos_complement_be(x / 256).push((x % 256) as u8)
    }
}

/// The canonical encoding of `x`: the empty string for zero, otherwise the
/// shortest two's-complement string.
pub open spec fn signed_bytes_be(x: int) -> Seq<u8> {
    if x == 0 {
        Seq::empty()
    } else {
        twos_complement_be(x)
    }
}

/// The shortest big-endian string of base-256 digits that denotes `x`;
/// empty for zero.
pub open spec fn unsigned_bytes_be(x: nat) -> Seq<u8>
    decreases x,
{
    if x == 0 {
        Seq::empty()
    } else {
        unsigned_bytes_be(x / 256).push((x % 256) as u8)
    }
}

/// The powers of 256 that machine words reach.
pub proof fn lemma_pow256_values()
    ensures
        pow256(0) == 1,
        pow256(1) == 0x100,
        pow256(2) == 0x1_0000,
        pow256(3) == 0x100_0000,
        pow256(4) == 0x1_0000_0000,
        pow256(7) == 0x100_0000_0000_0000,
        pow256(8) == 0x1_0000_0000_0000_0000,
{
    reveal_with_fuel(pow256, 9);
}

/// The powers of 256 grow with the exponent.
pub proof fn lemma_pow256_monotonic(m: nat, n: nat)
    requires
        m <= n,
    ensures
        pow256(m) <= pow256(n),
    decreases n,
{
    if m < n {
        lemma_pow256_monotonic(m, (n - 1) as nat);
    }
}

/// A string of `n` bytes denotes a number below 256 to the `n`.
pub proof fn lemma_unsigned_be_bound(s: Seq<u8>)
    ensures
        unsigned_be(s) < pow256(s.len()),
    decreases s.len(),
{
    if s.len() > 0 {
        lemma_unsigned_be_bound(s.drop_last());
    }
}

/// Appending a byte shifts the number by one digit.
pub proof fn lemma_unsigned_be_push(s: Seq<u8>, b: u8)
    ensures
        unsigned_be(s.push(b)) == unsigned_be(s) * 256 + b,
{
    assert(s.push(b).drop_last() =~= s);
}

/// The first byte is the most significant digit.
pub proof fn lemma_first_byte_bounds(s: Seq<u8>)
    requires
        s.len() >= 1,
    ensures
        s[0] * pow256((s.len() - 1) as nat) <= unsigned_be(s) < (s[0] + 1) * pow256(
            (s.len() - 1) as nat,
        ),
    decreases s.len(),
{
    if s.len() == 1 {
        assert(s.drop_last() =~= Seq::<u8>::empty());
        assert(unsigned_be(s.drop_last()) == 0);
        assert(pow256(0) == 1);
        assert(unsigned_be(s) == s[0]);
    } else {
        let t = s.drop_last();
        lemma_first_byte_bounds(t);
        let p = pow256((t.len() - 1) as nat);
        let low: int = s[0] * p;
        let high: int = (s[0] + 1) * p;
        assert(t[0] == s[0]);
        assert(low <= unsigned_be(t) < high);
        assert(pow256((s.len() - 1) as nat) == 256 * p);
        assert(s[0] * (256 * p) == low * 256) by (nonlinear_arith)
            requires
                low == s[0] * p,
        ;
        assert((s[0] + 1) * (256 * p) == high * 256) by (nonlinear_arith)
            requires
                high == (s[0] + 1) * p,
        ;
        assert(unsigned_be(s) == unsigned_be(t) * 256 + s.last());
    }
}

/// The shape of the shortest two's-complement string: it is not empty, its
/// first byte carries the sign, and as an unsigned number it is `x` for a
/// non-negative `x` and `x` plus 256 to its length otherwise.
pub proof fn lemma_twos_complement_shape(x: int)
    ensures
        twos_complement_be(x).len() >= 1,
        x >= 0 ==> twos_complement_be(x)[0] < 0x80 && unsigned_be(twos_complement_be(x)) == x,
        x < 0 ==> twos_complement_be(x)[0] >= 0x80 && unsigned_be(twos_complement_be(x)) == x
            + pow256(twos_complement_be(x).len()),
    decreases (if x >= 0 { x } else { -x }),
{
    let t = twos_complement_be(x);
    if -128 <= x < 128 {
        let b = (x % 256) as u8;
        assert(t =~= seq![b]);
        assert(t.drop_last() =~= Seq::<u8>::empty());
        assert(unsigned_be(t.drop_last()) == 0);
        assert(unsigned_be(t) == b);
        assert(pow256(1) == 256) by {
            reveal_with_fuel(pow256, 2);
        }
    } else {
        let q = x / 256;
        let b = (x % 256) as u8;
        let tq = twos_complement_be(q);
        lemma_twos_complement_shape(q);
        lemma_unsigned_be_push(tq, b);
        assert(t =~= tq.push(b));
        assert(t[0] == tq[0]);
        assert(x == q * 256 + x % 256);
        assert(pow256(t.len()) == 256 * pow256(tq.len()));
    }
}

/// Decoding the shortest two's-complement string of `x` gives `x` back.
pub proof fn lemma_twos_complement_round_trip(x: int)
    ensures
        signed_be(twos_complement_be(x)) == x,
{
    lemma_twos_complement_shape(x);
}

/// Decoding the canonical encoding of any integer gives that integer back,
/// and the canonical encoding of zero is the empty string.
pub proof fn lemma_signed_bytes_round_trip(x: int)
    ensures
        signed_be(signed_bytes_be(x)) == x,
        signed_bytes_be(0) == Seq::<u8>::empty(),
{
    if x != 0 {
        lemma_twos_complement_round_trip(x);
    }
}

/// A zero byte in front does not change the number, and makes the string
/// denote it in two's complement too.
pub proof fn lemma_leading_zero(s: Seq<u8>)
    ensures
        unsigned_be(seq![0u8] + s) == unsigned_be(s),
        signed_be(seq![0u8] + s) == unsigned_be(s),
    decreases s.len(),
{
    let padded = seq![0u8] + s;
    if s.len() == 0 {
        assert(padded.drop_last() =~= Seq::<u8>::empty());
        assert(unsigned_be(padded.drop_last()) == 0);
    } else {
        lemma_leading_zero(s.drop_last());
        assert(padded.drop_last() =~= seq![0u8] + s.drop_last());
    }
}

/// The digits of a natural number denote it.
pub proof fn lemma_unsigned_bytes_round_trip(x: nat)
    ensures
        unsigned_be(unsigned_bytes_be(x)) == x,
    decreases x,
{
    if x > 0 {
        lemma_unsigned_bytes_round_trip(x / 256);
        lemma_unsigned_be_push(unsigned_bytes_be(x / 256), (x % 256) as u8);
    }
}

/// The two's-complement string of a number that is not negative holds its
/// digits, behind one zero byte where the first digit has the top bit set
/// or where there is no digit.
pub proof fn lemma_unsigned_bytes_of_positive(x: int)
    requires
        x >= 0,
    ensures
        twos_complement_be(x).len() >= 1,
        unsigned_bytes_be(x as nat) == (if twos_complement_be(x)[0] == 0 {
            twos_complement_be(x).skip(1)
        } else {
            twos_complement_be(x)
        }),
    decreases x,
{
    let t = twos_complement_be(x);
    let u = unsigned_bytes_be(x as nat);
    if x == 0 {
        assert(t =~= seq![0u8]);
        assert(u =~= t.skip(1));
    } else if x < 128 {
        assert(t =~= seq![x as u8]);
        assert(unsigned_bytes_be(0) =~= Seq::<u8>::empty());
        assert(u =~= seq![x as u8]);
    } else {
        let q = x / 256;
        let b = (x % 256) as u8;
        lemma_unsigned_bytes_of_positive(q);
        let tq = twos_complement_be(q);
        assert(t =~= tq.push(b));
        assert(u =~= unsigned_bytes_be(q as nat).push(b));
        if tq[0] == 0 {
            assert(tq.push(b).skip(1) =~= tq.skip(1).push(b));
        }
    }
}

/// A string of `n` bytes, `n` at least one, denotes in two's complement a
/// number from minus 128 times 256 to the `n - 1` up to, but not with, 128
/// times 256 to the `n - 1`.
pub proof fn lemma_signed_be_range(s: Seq<u8>)
    requires
        s.len() >= 1,
    ensures
        -128 * pow256((s.len() - 1) as nat) <= signed_be(s) < 128 * pow256((s.len() - 1) as nat),
{
    let p = pow256((s.len() - 1) as nat);
    let b = s[0];
    lemma_first_byte_bounds(s);
    assert(pow256(s.len()) == 256 * p);
    assert(b >= 0x80 ==> b * p >= 128 * p && (b + 1) * p <= 256 * p) by (nonlinear_arith)
        requires
            p >= 0,
            b <= 255,
    ;
    assert(b < 0x80 ==> (b + 1) * p <= 128 * p) by (nonlinear_arith)
        requires
            p >= 0,
    ;
}

/// A number in the range of `n` bytes has a shortest two's-complement
/// string of at most `n` bytes.
proof fn lemma_twos_complement_len(x: int, n: nat)
    requires
        n >= 1,
        -128 * pow256((n - 1) as nat) <= x < 128 * pow256((n - 1) as nat),
    ensures
        twos_complement_be(x).len() <= n,
    decreases n,
{
    if -128 <= x < 128 {
    } else {
        assert(pow256(0) == 1);
        assert(n >= 2);
        let p = pow256((n - 2) as nat);
        assert(pow256((n - 1) as nat) == 256 * p);
        assert(-128 * p <= x / 256 < 128 * p);
        lemma_twos_complement_len(x / 256, (n - 1) as nat);
    }
}

/// The canonical encoding is the shortest: no string that denotes the same
/// integer has fewer bytes.
pub proof fn lemma_signed_bytes_shortest(s: Seq<u8>)
    ensures
        signed_bytes_be(signed_be(s)).len() <= s.len(),
{
    if s.len() >= 1 {
        lemma_signed_be_range(s);
        lemma_twos_complement_len(signed_be(s), s.len());
    }
}

} // verus!
