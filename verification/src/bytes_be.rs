//! Big-endian reinterpretation of fixed-length byte strings as 128-bit
//! signed integers, and the inverse encoding.
//!
//! A stored bound of width `w <= 16` is zero-padded on the left to 16 bytes
//! and those bytes are read as a big-endian two's-complement 128-bit value.
//! The padding is with zero bytes, never with the sign bit: this reproduces
//! the stored convention, so a 16-byte-wide value is the only width that can
//! decode to a negative number.

use vstd::arithmetic::div_mod::lemma_fundamental_div_mod_converse;
use vstd::arithmetic::mul::lemma_mul_inequality;
use vstd::arithmetic::power::{lemma_pow_increases, lemma_pow_multiplies, pow};
use vstd::arithmetic::power2::{lemma2_to64, lemma_pow2, lemma_pow2_adds, pow2};
use vstd::prelude::*;

verus! {

/// The unsigned value of a byte string read in big-endian order.
pub open spec fn be_unsigned(s: Seq<u8>) -> int
    decreases s.len(),
{
    if s.len() == 0 {
        0
    } else {
        be_unsigned(s.drop_last()) * 256 + s.last()
    }
}

/// The value of a 16-byte string read as a big-endian two's-complement
/// 128-bit signed integer.
pub open spec fn be_i128(s: Seq<u8>) -> int
    recommends
        s.len() == 16,
{
    if be_unsigned(s) >= 0x80000000000000000000000000000000 {
        be_unsigned(s) - 0x100000000000000000000000000000000
    } else {
        be_unsigned(s)
    }
}

/// A byte string extended on the left with zero bytes to a length of 16.
pub open spec fn zero_pad16(s: Seq<u8>) -> Seq<u8>
    recommends
        s.len() <= 16,
{
    Seq::new((16 - s.len()) as nat, |i: int| 0u8) + s
}

/// The `len` low-order base-256 digits of a non-negative integer, in
/// big-endian order.
pub open spec fn u_to_be(n: int, len: nat) -> Seq<u8>
    recommends
        0 <= n,
    decreases len,
{
    if len == 0 {
        Seq::empty()
    } else {
        u_to_be(n / 256, (len - 1) as nat).push((n % 256) as u8)
    }
}

/// The 16-byte big-endian two's-complement encoding of a 128-bit signed
/// integer value.
pub open spec fn i128_to_be16(v: int) -> Seq<u8>
    recommends
        -0x80000000000000000000000000000000 <= v < 0x80000000000000000000000000000000,
{
    if v < 0 {
        u_to_be(v + 0x100000000000000000000000000000000, 16)
    } else {
        u_to_be(v, 16)
    }
}

/// `256^16` is `2^128`, the count of values of a 16-byte string.
proof fn lemma_pow256_16()
    ensures
        pow(256, 16) == 0x100000000000000000000000000000000,
{
    lemma2_to64();
    lemma_pow2_adds(64, 64);
    lemma_pow2(128);
    lemma_pow2(8);
    lemma_pow_multiplies(2, 8, 16);
    assert(pow(256, 16) == pow(pow2(8) as int, 16));
}

/// A big-endian byte string of length `n` denotes a value below `256^n`.
pub proof fn lemma_be_unsigned_bounds(s: Seq<u8>)
    ensures
        0 <= be_unsigned(s) < pow(256, s.len()),
    decreases s.len(),
{
    reveal(pow);
    if s.len() == 0 {
    } else {
        let d = s.drop_last();
        lemma_be_unsigned_bounds(d);
        lemma_mul_inequality(be_unsigned(d), pow(256, d.len()) - 1, 256);
        assert(pow(256, s.len()) == 256 * pow(256, d.len()));
    }
}

/// Encoding the value of a byte string back at its own length returns the
/// byte string itself.
pub proof fn lemma_u_to_be_of_be_unsigned(s: Seq<u8>)
    ensures
        u_to_be(be_unsigned(s), s.len()) == s,
    decreases s.len(),
{
    if s.len() == 0 {
        assert(u_to_be(be_unsigned(s), s.len()) =~= s);
    } else {
        let d = s.drop_last();
        let u = be_unsigned(s);
        lemma_be_unsigned_bounds(d);
        lemma_fundamental_div_mod_converse(u, 256, be_unsigned(d), s.last() as int);
        lemma_u_to_be_of_be_unsigned(d);
        assert(u_to_be(u, s.len()) =~= s);
    }
}

/// The signed reading of 16 bytes always lies in the 128-bit signed range.
pub proof fn lemma_be_i128_in_range(s: Seq<u8>)
    requires
        s.len() == 16,
    ensures
        -0x80000000000000000000000000000000 <= be_i128(s) < 0x80000000000000000000000000000000,
{
    lemma_pow256_16();
    lemma_be_unsigned_bounds(s);
}

/// Law: decoding a bound of width at most 16 after zero-padding it to 16
/// bytes, then re-encoding the decoded value as 16 big-endian bytes, returns
/// exactly the zero-padded representation.
pub proof fn lemma_decimal_bound_roundtrip(b: Seq<u8>)
    requires
        b.len() <= 16,
    ensures
        i128_to_be16(be_i128(zero_pad16(b))) == zero_pad16(b),
{
    let p = zero_pad16(b);
    assert(p.len() == 16);
    lemma_pow256_16();
    lemma_be_unsigned_bounds(p);
    lemma_u_to_be_of_be_unsigned(p);
    let u = be_unsigned(p);
    if u >= 0x80000000000000000000000000000000 {
        assert(be_i128(p) == u - 0x100000000000000000000000000000000);
        assert(i128_to_be16(be_i128(p)) == u_to_be(u, 16));
    } else {
        assert(i128_to_be16(be_i128(p)) == u_to_be(u, 16));
    }
}

/// Reads 16 bytes as a big-endian two's-complement 128-bit signed integer.
pub fn i128_from_be_bytes(bytes: &Vec<u8>) -> (r: i128)
    requires
        bytes@.len() == 16,
    ensures
        r as int == be_i128(bytes@),
{
    let mut acc: u128 = 0;
    let mut i: usize = 0;
    proof {
        lemma_pow256_16();
    }
    while i < 16
        invariant
            i <= 16,
            bytes@.len() == 16,
            acc as int == be_unsigned(bytes@.take(i as int)),
            pow(256, 16) == 0x100000000000000000000000000000000,
        decreases 16 - i,
    {
        proof {
            lemma_be_unsigned_bounds(bytes@.take(i as int));
            lemma_pow_increases(256, i as nat, 15);
            lemma_mul_inequality(acc as int, pow(256, 15) - 1, 256);
            assert(pow(256, 16) == 256 * pow(256, 15)) by {
                reveal(pow);
            }
            assert(bytes@.take(i + 1).drop_last() =~= bytes@.take(i as int));
        }
        acc = acc * 256 + (bytes[i] as u128);
        i += 1;
    }
    proof {
        assert(bytes@.take(16) =~= bytes@);
        lemma_be_unsigned_bounds(bytes@);
    }
    if acc < 0x80000000000000000000000000000000u128 {
        acc as i128
    } else {
        let t: u128 = acc - 0x80000000000000000000000000000000u128;
        (t as i128) + i128::MIN
    }
}

/// Writes the `len` low-order base-256 digits of a value, in big-endian
/// order.
fn u128_to_be(x: u128, len: usize) -> (r: Vec<u8>)
    ensures
        r@ == u_to_be(x as int, len as nat),
    decreases len,
{
    if len == 0 {
        let r: Vec<u8> = Vec::new();
        proof {
            assert(r@ =~= u_to_be(x as int, 0));
        }
        r
    } else {
        let mut r = u128_to_be(x / 256, len - 1);
        r.push((x % 256) as u8);
        r
    }
}

/// Encodes a 128-bit signed integer as its 16-byte big-endian
/// two's-complement representation.
pub fn i128_to_be_bytes(v: i128) -> (r: Vec<u8>)
    ensures
        r@ == i128_to_be16(v as int),
        r@.len() == 16,
{
    let u: u128 = if v >= 0 {
        v as u128
    } else {
        ((v - i128::MIN) as u128) + 0x80000000000000000000000000000000u128
    };
    let r = u128_to_be(u, 16);
    proof {
        lemma_u_to_be_len(u as int, 16);
    }
    r
}

/// The encoding of a value at length `len` has length `len`.
proof fn lemma_u_to_be_len(n: int, len: nat)
    ensures
        u_to_be(n, len).len() == len,
    decreases len,
{
    if len > 0 {
        lemma_u_to_be_len(n / 256, (len - 1) as nat);
    }
}

} // verus!
