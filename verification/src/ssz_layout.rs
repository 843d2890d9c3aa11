//! Little-endian integers, as SSZ lays them out.

use vstd::arithmetic::div_mod::lemma_div_denominator;
use vstd::arithmetic::power::{lemma_pow0, lemma_pow1, lemma_pow_adds, lemma_pow_positive, pow};
use vstd::prelude::*;

use crate::u256::u256_bound;

verus! {

/// The number that `bytes` stand for, the least significant byte first.
pub open spec fn le_value(bytes: Seq<u8>) -> nat
    decreases bytes.len(),
{
    if bytes.len() == 0 {
        0
    } else {
        bytes[0] as nat + 256 * le_value(bytes.drop_first())
    }
}

/// The `len` lowest bytes of `n`, the least significant one first.
pub open spec fn le_bytes(n: nat, len: nat) -> Seq<u8>
    decreases len,
{
    if len == 0 {
        Seq::empty()
    } else {
        seq![(n % 256) as u8] + le_bytes(n / 256, (len - 1) as nat)
    }
}

/// `le_bytes` gives as many bytes as it is asked for.
pub proof fn le_bytes_len(n: nat, len: nat)
    ensures
        le_bytes(n, len).len() == len,
    decreases len,
{
    if len > 0 {
        le_bytes_len(n / 256, (len - 1) as nat);
    }
}

/// Bytes stand for a number below 256 to the power of their count.
pub proof fn le_value_bound(bytes: Seq<u8>)
    ensures
        le_value(bytes) < pow(256, bytes.len()),
    decreases bytes.len(),
{
    lemma_pow0(256);
    if bytes.len() > 0 {
        le_value_bound(bytes.drop_first());
        lemma_pow1(256);
        lemma_pow_adds(256, 1, (bytes.len() - 1) as nat);
    }
}

/// Laying out a number in enough bytes and reading them gives the number back.
pub proof fn le_bytes_read_back(n: nat, len: nat)
    requires
        n < pow(256, len),
    ensures
        le_value(le_bytes(n, len)) == n,
    decreases len,
{
    lemma_pow0(256);
    if len > 0 {
        lemma_pow1(256);
        lemma_pow_adds(256, 1, (len - 1) as nat);
        le_bytes_read_back(n / 256, (len - 1) as nat);
        assert(le_bytes(n, len).drop_first() =~= le_bytes(n / 256, (len - 1) as nat));
    }
}

/// Reading bytes as a number and laying that out in as many bytes gives the bytes back.
pub proof fn le_value_writes_back(bytes: Seq<u8>)
    ensures
        le_bytes(le_value(bytes), bytes.len()) == bytes,
    decreases bytes.len(),
{
    if bytes.len() > 0 {
        le_value_writes_back(bytes.drop_first());
        assert(bytes =~= seq![bytes[0]] + bytes.drop_first());
    } else {
        assert(bytes =~= Seq::empty());
    }
}

/// The byte at position `i` is the digit of the number at that position to the base of 256.
pub proof fn le_bytes_are_digits(n: nat, len: nat, i: nat)
    requires
        i < len,
    ensures
        le_bytes(n, len).len() == len,
        le_bytes(n, len)[i as int] == (n as int / pow(256, i)) % 256,
    decreases len,
{
    le_bytes_len(n, len);
    lemma_pow0(256);
    if i > 0 {
        le_bytes_are_digits(n / 256, (len - 1) as nat, (i - 1) as nat);
        lemma_pow1(256);
        lemma_pow_adds(256, 1, (i - 1) as nat);
        lemma_pow_positive(256, (i - 1) as nat);
        lemma_div_denominator(n as int, 256, pow(256, (i - 1) as nat));
    }
}

/// Each byte is the digit, at its position, of the number that the bytes stand for.
pub proof fn le_value_has_the_bytes_as_digits(bytes: Seq<u8>, i: nat)
    requires
        i < bytes.len(),
    ensures
        bytes[i as int] == (le_value(bytes) as int / pow(256, i)) % 256,
        le_value(bytes) < pow(256, bytes.len()),
{
    le_value_writes_back(bytes);
    le_value_bound(bytes);
    le_bytes_are_digits(le_value(bytes), bytes.len(), i);
}

/// One more byte adds its value times 256 to the power of its position.
pub proof fn le_value_of_one_more_byte(bytes: Seq<u8>, byte: u8)
    ensures
        le_value(Seq::empty()) == 0,
        le_value(bytes.push(byte)) == le_value(bytes) + byte * pow(256, bytes.len()),
    decreases bytes.len(),
{
    let more = bytes.push(byte);
    lemma_pow0(256);
    if bytes.len() > 0 {
        let rest = bytes.drop_first();
        assert(more.drop_first() =~= rest.push(byte));
        le_value_of_one_more_byte(rest, byte);
        lemma_pow1(256);
        lemma_pow_adds(256, 1, rest.len());
        let p = pow(256, rest.len());
        assert(byte * (256 * p) == 256 * (byte * p)) by (nonlinear_arith);
    } else {
        assert(more.drop_first() =~= Seq::empty());
        reveal_with_fuel(le_value, 2);
    }
}

/// Eight bytes stand for the sum of their values, each times 256 to the power of its position.
pub proof fn le_value_of_eight_bytes(bytes: Seq<u8>)
    requires
        bytes.len() == 8,
    ensures
        le_value(bytes) == bytes[0] + 0x100 * bytes[1] + 0x1_0000 * bytes[2] + 0x100_0000 * bytes[3]
            + 0x1_0000_0000 * bytes[4] + 0x100_0000_0000 * bytes[5] + 0x1_0000_0000_0000 * bytes[6]
            + 0x100_0000_0000_0000 * bytes[7],
{
    reveal_with_fuel(le_value, 9);
}

/// Eight bytes hold what a `u64` holds, and 32 bytes what a [`U256`](crate::u256::U256) holds.
pub proof fn byte_counts()
    ensures
        pow(256, 8) == u64::MAX + 1,
        pow(256, 32) == u256_bound(),
{
    lemma_pow1(256);
    let p1 = pow(256, 1);
    let p2 = pow(256, 2);
    let p4 = pow(256, 4);
    let p8 = pow(256, 8);
    let p16 = pow(256, 16);
    lemma_pow_adds(256, 1, 1);
    assert(p2 == 0x1_0000) by (nonlinear_arith)
        requires
            p1 == 256,
            p2 == p1 * p1,
    ;
    lemma_pow_adds(256, 2, 2);
    assert(p4 == 0x1_0000_0000) by (nonlinear_arith)
        requires
            p2 == 0x1_0000,
            p4 == p2 * p2,
    ;
    lemma_pow_adds(256, 4, 4);
    assert(p8 == 0x1_0000_0000_0000_0000) by (nonlinear_arith)
        requires
            p4 == 0x1_0000_0000,
            p8 == p4 * p4,
    ;
    lemma_pow_adds(256, 8, 8);
    assert(p16 == 0x1_0000_0000_0000_0000_0000_0000_0000_0000) by (nonlinear_arith)
        requires
            p8 == 0x1_0000_0000_0000_0000,
            p16 == p8 * p8,
    ;
    lemma_pow_adds(256, 16, 16);
    assert(p16 * p16 == u256_bound()) by (nonlinear_arith)
        requires
            p16 == 0x1_0000_0000_0000_0000_0000_0000_0000_0000,
    ;
}

/// The eight bytes of a `u64` in SSZ, appended to `buf`.
///
/// Calls `ssz_append` of `ssz::Encode` for `u64`, trusted to append the eight bytes of the
/// number, the least significant one first.
#[verifier::external_body]
pub(crate) fn append_u64(n: u64, buf: &mut Vec<u8>)
    ensures
        final(buf)@ == old(buf)@ + le_bytes(n as nat, 8),
{
    ssz::Encode::ssz_append(&n, buf)
}

/// A `u64` from its eight bytes in SSZ.
///
/// Calls `from_ssz_bytes` of `ssz::Decode` for `u64`, trusted to read eight bytes as a number,
/// the least significant one first. Slices of another length, which it rejects, are not
/// admitted here.
#[verifier::external_body]
pub(crate) fn u64_from_ssz(bytes: &[u8]) -> (r: u64)
    requires
        bytes@.len() == 8,
    ensures
        r == le_value(bytes@),
{
    <u64 as ssz::Decode>::from_ssz_bytes(bytes).unwrap()
}

} // verus!
