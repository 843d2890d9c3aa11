//! Amounts of wei: unsigned integers of 256 bits.

use vstd::prelude::*;

use crate::ssz_layout::{le_bytes, le_value};
use crate::text::{all_decimal_digits, decimal, decimal_value};

verus! {

/// An unsigned integer of 256 bits, in four limbs of 64 bits, the least significant one first.
#[derive(Debug, Clone, Copy, PartialEq, Eq, Structural)]
pub struct U256 {
    pub limb0: u64,
    pub limb1: u64,
    pub limb2: u64,
    pub limb3: u64,
}

/// Two to the power of 64.
pub open spec fn limb_base() -> nat {
    0x1_0000_0000_0000_0000
}

/// Two to the power of 256, the first number that a [`U256`] cannot hold.
pub open spec fn u256_bound() -> nat {
    limb_base() * limb_base() * limb_base() * limb_base()
}

impl View for U256 {
    type V = nat;

    open spec fn view(&self) -> nat {
        self.limb0 as nat + limb_base() * (self.limb1 as nat + limb_base() * (self.limb2 as nat
            + limb_base() * (self.limb3 as nat)))
    }
}

impl U256 {
    /// The value zero.
    pub fn zero() -> (r: Self)
        ensures
            r@ == 0,
    {
        U256 { limb0: 0, limb1: 0, limb2: 0, limb3: 0 }
    }

    /// The value `n`.
    pub fn from_u64(n: u64) -> (r: Self)
        ensures
            r@ == n,
    {
        U256 { limb0: n, limb1: 0, limb2: 0, limb3: 0 }
    }

    /// Whether `self` is less than `other`.
    ///
    /// Calls `<` of `alloy_primitives::U256`, trusted to compare the two numbers.
    #[verifier::external_body]
    pub(crate) fn less_than(self, other: U256) -> (r: bool)
        ensures
            r == (self@ < other@),
    {
        alloy_primitives::U256::from_limbs([self.limb0, self.limb1, self.limb2, self.limb3])
            < alloy_primitives::U256::from_limbs([other.limb0, other.limb1, other.limb2, other.limb3])
    }

    /// The difference of `self` and a number that is not above it.
    ///
    /// Calls `-` of `alloy_primitives::U256`, which wraps around below zero; on the numbers that
    /// are admitted here it is trusted to be subtraction.
    #[verifier::external_body]
    pub(crate) fn minus(self, other: U256) -> (r: U256)
        requires
            other@ <= self@,
        ensures
            r@ == self@ - other@,
    {
        let a = alloy_primitives::U256::from_limbs([self.limb0, self.limb1, self.limb2, self.limb3]);
        let b = alloy_primitives::U256::from_limbs([other.limb0, other.limb1, other.limb2, other.limb3]);
        let [limb0, limb1, limb2, limb3] = (a - b).into_limbs();
        U256 { limb0, limb1, limb2, limb3 }
    }

    /// Reads a number from its decimal digits.
    ///
    /// Calls `from_str` of `alloy_primitives::U256`, trusted to read a string of decimal digits
    /// as the number that they stand for where 256 bits can hold it. Other strings (prefixes of
    /// other bases, underscores) are not admitted here.
    #[verifier::external_body]
    pub(crate) fn from_decimal(s: &str) -> (r: U256)
        requires
            all_decimal_digits(s@),
            decimal_value(s@) < u256_bound(),
        ensures
            r@ == decimal_value(s@),
    {
        let n = <alloy_primitives::U256 as std::str::FromStr>::from_str(s).unwrap();
        let [limb0, limb1, limb2, limb3] = n.into_limbs();
        U256 { limb0, limb1, limb2, limb3 }
    }

    /// The number as text, in decimal.
    ///
    /// Calls `to_string` of `alloy_primitives::U256`, trusted to write the decimal digits of the
    /// number without leading zeros.
    #[verifier::external_body]
    pub(crate) fn to_decimal(self) -> (r: String)
        ensures
            r@ == decimal(self@),
    {
        alloy_primitives::U256::from_limbs([self.limb0, self.limb1, self.limb2, self.limb3]).to_string()
    }

    /// The number in SSZ, appended to `buf`.
    ///
    /// Calls `ssz_append` of `ssz::Encode` for `alloy_primitives::U256`, trusted to append the 32
    /// bytes of the number, the least significant one first.
    #[verifier::external_body]
    pub(crate) fn ssz_append(&self, buf: &mut Vec<u8>)
        ensures
            final(buf)@ == old(buf)@ + le_bytes(self@, 32),
    {
        let n = alloy_primitives::U256::from_limbs([self.limb0, self.limb1, self.limb2, self.limb3]);
        ssz::Encode::ssz_append(&n, buf)
    }

    /// A number from its 32 bytes in SSZ.
    ///
    /// Calls `from_ssz_bytes` of `ssz::Decode` for `alloy_primitives::U256`, trusted to read 32
    /// bytes as a number, the least significant one first. Slices of another length, which it
    /// rejects, are not admitted here.
    #[verifier::external_body]
    pub(crate) fn from_ssz(bytes: &[u8]) -> (r: Self)
        requires
            bytes@.len() == 32,
        ensures
            r@ == le_value(bytes@),
    {
        let n = <alloy_primitives::U256 as ssz::Decode>::from_ssz_bytes(bytes).unwrap();
        let [limb0, limb1, limb2, limb3] = n.into_limbs();
        U256 { limb0, limb1, limb2, limb3 }
    }
}

/// Two values of [`U256`] that stand for the same number are the same value.
pub proof fn u256_is_its_value(a: U256, b: U256)
    requires
        a@ == b@,
    ensures
        a == b,
{
}

/// Every value of [`U256`] is below two to the power of 256.
pub proof fn u256_is_bounded(a: U256)
    ensures
        a@ < u256_bound(),
{
}

/// The limbs are the digits of the number to the base of two to the power of 64.
pub proof fn limbs_are_digits(a: U256)
    ensures
        a@ == a.limb0 + 0x1_0000_0000_0000_0000 * a.limb1
            + 0x1_0000_0000_0000_0000_0000_0000_0000_0000 * a.limb2
            + 0x1_0000_0000_0000_0000_0000_0000_0000_0000_0000_0000_0000_0000 * a.limb3,
        a@ < u256_bound(),
        u256_bound()
            == 0x1_0000_0000_0000_0000_0000_0000_0000_0000_0000_0000_0000_0000_0000_0000_0000_0000,
{
}

} // verus!
